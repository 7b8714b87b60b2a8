use vstd::prelude::*;

use crate::manufacturer::{str_eq, Jep106Code};

verus! {

/// The type of a peripheral, as the ROM table parser identifies it.
#[non_exhaustive]
#[derive(Debug, Copy, Clone, PartialEq, Eq, Structural)]
pub enum PeripheralType {
    Tpiu,
    Itm,
    Dwt,
    Scs,
    Fbp,
    Bpu,
    Etm,
    Etb,
    Rom,
    Swo,
    Stm,
    Tsgen,
}

impl PeripheralType {
    /// The human-readable description of each peripheral type.
    pub open spec fn spec_description(self) -> &'static str {
        match self {
            PeripheralType::Tpiu => "Tpiu (Trace Port Interface Unit)",
            PeripheralType::Itm => "Itm (Instrumentation Trace Module)",
            PeripheralType::Dwt => "Dwt (Data Watchpoint and Trace)",
            PeripheralType::Scs => "Scs (System Control Space)",
            PeripheralType::Fbp => "Fbp (Flash Patch and Breakpoint)",
            PeripheralType::Bpu => "Bpu (Breakpoint Unit)",
            PeripheralType::Etm => "Etm (Embedded Trace)",
            PeripheralType::Etb => "Etb (Trace Buffer)",
            PeripheralType::Rom => "Rom",
            PeripheralType::Swo => "Swo (Single Wire Output)",
            PeripheralType::Stm => "Stm (System Trace Macrocell)",
            PeripheralType::Tsgen => "Tsgen (Time Stamp Generator)",
        }
    }

    /// Returns the human-readable description of the peripheral type.
    pub fn description(&self) -> (r: &'static str)
        ensures
            r == self.spec_description(),
    {
        match self {
            PeripheralType::Tpiu => "Tpiu (Trace Port Interface Unit)",
            PeripheralType::Itm => "Itm (Instrumentation Trace Module)",
            PeripheralType::Dwt => "Dwt (Data Watchpoint and Trace)",
            PeripheralType::Scs => "Scs (System Control Space)",
            PeripheralType::Fbp => "Fbp (Flash Patch and Breakpoint)",
            PeripheralType::Bpu => "Bpu (Breakpoint Unit)",
            PeripheralType::Etm => "Etm (Embedded Trace)",
            PeripheralType::Etb => "Etb (Trace Buffer)",
            PeripheralType::Rom => "Rom",
            PeripheralType::Swo => "Swo (Single Wire Output)",
            PeripheralType::Stm => "Stm (System Trace Macrocell)",
            PeripheralType::Tsgen => "Tsgen (Time Stamp Generator)",
        }
    }
}

/// Some information about a known ROM table component.
#[derive(Debug, Copy, Clone)]
pub struct PartInfo {
    pub name: &'static str,
    pub peripheral_type: PeripheralType,
}

impl PartInfo {
    /// Creates a part info of a given name and type.
    pub fn new(name: &'static str, peripheral_type: PeripheralType) -> (r: Self)
        ensures
            r == (PartInfo { name, peripheral_type }),
    {
        Self { name, peripheral_type }
    }

    /// Gets the part name.
    pub fn name(&self) -> (r: &'static str)
        ensures
            r == self.name,
    {
        self.name
    }

    /// Gets the peripheral type.
    pub fn peripheral_type(&self) -> (r: PeripheralType)
        ensures
            r == self.peripheral_type,
    {
        self.peripheral_type
    }

    /// The text that shows the part: its name, a colon and a space, and the
    /// description of its peripheral type.
    pub fn display_text(&self) -> (r: String)
        ensures
            r@ == self.name@ + ": "@ + self.peripheral_type.spec_description()@,
    {
        let mut text = String::from_str(self.name);
        text.append(": ");
        text.append(self.peripheral_type.description());
        text
    }
}

/// The ARM parts that the library knows, by part number, device type and
/// architecture id.
pub open spec fn arm_part(part: u16, dev_type: u8, arch_id: u16) -> Option<PartInfo> {
    match (part, dev_type, arch_id) {
            (0x000, 0x00, 0x0000) => Some(PartInfo { name: "Cortex-M3 SCS", peripheral_type: PeripheralType::Scs }),
            (0x001, 0x00, 0x0000) => Some(PartInfo { name: "Cortex-M3 ITM", peripheral_type: PeripheralType::Itm }),
            (0x002, 0x00, 0x0000) => Some(PartInfo { name: "Cortex-M3 DWT", peripheral_type: PeripheralType::Dwt }),
            (0x003, 0x00, 0x0000) => Some(PartInfo { name: "Cortex-M3 FBP", peripheral_type: PeripheralType::Fbp }),
            (0x008, 0x00, 0x0000) => Some(PartInfo { name: "Cortex-M0 SCS", peripheral_type: PeripheralType::Scs }),
            (0x00A, 0x00, 0x0000) => Some(PartInfo { name: "Cortex-M0 DWT", peripheral_type: PeripheralType::Dwt }),
            (0x00B, 0x00, 0x0000) => Some(PartInfo { name: "Cortex-M0 BPU", peripheral_type: PeripheralType::Bpu }),
            (0x00C, 0x00, 0x0000) => Some(PartInfo { name: "Cortex-M4 SCS", peripheral_type: PeripheralType::Scs }),
            (0x00D, 0x00, 0x0000) => Some(PartInfo { name: "CoreSight ETM11", peripheral_type: PeripheralType::Etm }),
            (0x00E, 0x00, 0x0000) => Some(PartInfo { name: "Cortex-M7 FBP", peripheral_type: PeripheralType::Fbp }),
            (0x101, 0x00, 0x0000) => Some(PartInfo { name: "System TSGEN", peripheral_type: PeripheralType::Tsgen }),
            (0x471, 0x00, 0x0000) => Some(PartInfo { name: "Cortex-M0  ROM", peripheral_type: PeripheralType::Rom }),
            (0x4C0, 0x00, 0x0000) => Some(PartInfo { name: "Cortex-M0+ ROM", peripheral_type: PeripheralType::Rom }),
            (0x4C4, 0x00, 0x0000) => Some(PartInfo { name: "Cortex-M4 ROM", peripheral_type: PeripheralType::Rom }),
            (0x907, 0x21, 0x0000) => Some(PartInfo { name: "CoreSight ETB", peripheral_type: PeripheralType::Etb }),
            (0x910, 0x00, 0x0000) => Some(PartInfo { name: "CoreSight ETM9", peripheral_type: PeripheralType::Etm }),
            (0x912, 0x11, 0x0000) => Some(PartInfo { name: "CoreSight TPIU", peripheral_type: PeripheralType::Tpiu }),
            (0x913, 0x00, 0x0000) => Some(PartInfo { name: "CoreSight ITM", peripheral_type: PeripheralType::Itm }),
            (0x914, 0x00, 0x0000) => Some(PartInfo { name: "CoreSight SWO", peripheral_type: PeripheralType::Swo }),
            (0x920, 0x00, 0x0000) => Some(PartInfo { name: "CoreSight ETM11", peripheral_type: PeripheralType::Etm }),
            (0x923, 0x11, 0x0000) => Some(PartInfo { name: "Cortex-M3 TPIU", peripheral_type: PeripheralType::Tpiu }),
            (0x924, 0x13, 0x0000) => Some(PartInfo { name: "Cortex-M3 ETM", peripheral_type: PeripheralType::Etm }),
            (0x925, 0x13, 0x0000) => Some(PartInfo { name: "Cortex-M4 ETM", peripheral_type: PeripheralType::Etm }),
            (0x962, 0x00, 0x0000) => Some(PartInfo { name: "CoreSight STM", peripheral_type: PeripheralType::Stm }),
            (0x963, 0x63, 0x0a63) => Some(PartInfo { name: "CoreSight STM", peripheral_type: PeripheralType::Stm }),
            (0x975, 0x13, 0x4a13) => Some(PartInfo { name: "Cortex-M7 ETM", peripheral_type: PeripheralType::Etm }),
            (0x9A1, 0x11, 0x0000) => Some(PartInfo { name: "Cortex-M4 TPIU", peripheral_type: PeripheralType::Tpiu }),
            (0x9A9, 0x11, 0x0000) => Some(PartInfo { name: "Cortex-M7 TPIU", peripheral_type: PeripheralType::Tpiu }),
            (0xD20, 0x00, 0x2A04) => Some(PartInfo { name: "Cortex-M23 SCS", peripheral_type: PeripheralType::Scs }),
            (0xD20, 0x11, 0x0000) => Some(PartInfo { name: "Cortex-M23 TPIU", peripheral_type: PeripheralType::Tpiu }),
            (0xD20, 0x13, 0x0000) => Some(PartInfo { name: "Cortex-M23 ETM", peripheral_type: PeripheralType::Etm }),
            (0xD20, 0x00, 0x1A02) => Some(PartInfo { name: "Cortex-M23 DWT", peripheral_type: PeripheralType::Dwt }),
            (0xD20, 0x00, 0x1A03) => Some(PartInfo { name: "Cortex-M23 BPU", peripheral_type: PeripheralType::Bpu }),
            (0xD21, 0x00, 0x2A04) => Some(PartInfo { name: "Cortex-M33 SCS", peripheral_type: PeripheralType::Scs }),
            (0xD21, 0x43, 0x1A01) => Some(PartInfo { name: "Cortex-M33 ITM", peripheral_type: PeripheralType::Itm }),
            (0xD21, 0x00, 0x1A02) => Some(PartInfo { name: "Cortex-M33 DWT", peripheral_type: PeripheralType::Dwt }),
            (0xD21, 0x00, 0x1A03) => Some(PartInfo { name: "Cortex-M33 BPU", peripheral_type: PeripheralType::Bpu }),
            (0xD21, 0x13, 0x4A13) => Some(PartInfo { name: "Cortex-M33 ETM", peripheral_type: PeripheralType::Etm }),
            (0xD21, 0x11, 0x0000) => Some(PartInfo { name: "Cortex-M33 TPIU", peripheral_type: PeripheralType::Tpiu }),
        _ => None,
    }
}

fn known_arm_part(part: u16, dev_type: u8, arch_id: u16) -> (r: Option<PartInfo>)
    ensures
        r == arm_part(part, dev_type, arch_id),
{
    match (part, dev_type, arch_id) {
            (0x000, 0x00, 0x0000) => Some(PartInfo::new("Cortex-M3 SCS", PeripheralType::Scs)),
            (0x001, 0x00, 0x0000) => Some(PartInfo::new("Cortex-M3 ITM", PeripheralType::Itm)),
            (0x002, 0x00, 0x0000) => Some(PartInfo::new("Cortex-M3 DWT", PeripheralType::Dwt)),
            (0x003, 0x00, 0x0000) => Some(PartInfo::new("Cortex-M3 FBP", PeripheralType::Fbp)),
            (0x008, 0x00, 0x0000) => Some(PartInfo::new("Cortex-M0 SCS", PeripheralType::Scs)),
            (0x00A, 0x00, 0x0000) => Some(PartInfo::new("Cortex-M0 DWT", PeripheralType::Dwt)),
            (0x00B, 0x00, 0x0000) => Some(PartInfo::new("Cortex-M0 BPU", PeripheralType::Bpu)),
            (0x00C, 0x00, 0x0000) => Some(PartInfo::new("Cortex-M4 SCS", PeripheralType::Scs)),
            (0x00D, 0x00, 0x0000) => Some(PartInfo::new("CoreSight ETM11", PeripheralType::Etm)),
            (0x00E, 0x00, 0x0000) => Some(PartInfo::new("Cortex-M7 FBP", PeripheralType::Fbp)),
            (0x101, 0x00, 0x0000) => Some(PartInfo::new("System TSGEN", PeripheralType::Tsgen)),
            (0x471, 0x00, 0x0000) => Some(PartInfo::new("Cortex-M0  ROM", PeripheralType::Rom)),
            (0x4C0, 0x00, 0x0000) => Some(PartInfo::new("Cortex-M0+ ROM", PeripheralType::Rom)),
            (0x4C4, 0x00, 0x0000) => Some(PartInfo::new("Cortex-M4 ROM", PeripheralType::Rom)),
            (0x907, 0x21, 0x0000) => Some(PartInfo::new("CoreSight ETB", PeripheralType::Etb)),
            (0x910, 0x00, 0x0000) => Some(PartInfo::new("CoreSight ETM9", PeripheralType::Etm)),
            (0x912, 0x11, 0x0000) => Some(PartInfo::new("CoreSight TPIU", PeripheralType::Tpiu)),
            (0x913, 0x00, 0x0000) => Some(PartInfo::new("CoreSight ITM", PeripheralType::Itm)),
            (0x914, 0x00, 0x0000) => Some(PartInfo::new("CoreSight SWO", PeripheralType::Swo)),
            (0x920, 0x00, 0x0000) => Some(PartInfo::new("CoreSight ETM11", PeripheralType::Etm)),
            (0x923, 0x11, 0x0000) => Some(PartInfo::new("Cortex-M3 TPIU", PeripheralType::Tpiu)),
            (0x924, 0x13, 0x0000) => Some(PartInfo::new("Cortex-M3 ETM", PeripheralType::Etm)),
            (0x925, 0x13, 0x0000) => Some(PartInfo::new("Cortex-M4 ETM", PeripheralType::Etm)),
            (0x962, 0x00, 0x0000) => Some(PartInfo::new("CoreSight STM", PeripheralType::Stm)),
            (0x963, 0x63, 0x0a63) => Some(PartInfo::new("CoreSight STM", PeripheralType::Stm)),
            (0x975, 0x13, 0x4a13) => Some(PartInfo::new("Cortex-M7 ETM", PeripheralType::Etm)),
            (0x9A1, 0x11, 0x0000) => Some(PartInfo::new("Cortex-M4 TPIU", PeripheralType::Tpiu)),
            (0x9A9, 0x11, 0x0000) => Some(PartInfo::new("Cortex-M7 TPIU", PeripheralType::Tpiu)),
            (0xD20, 0x00, 0x2A04) => Some(PartInfo::new("Cortex-M23 SCS", PeripheralType::Scs)),
            (0xD20, 0x11, 0x0000) => Some(PartInfo::new("Cortex-M23 TPIU", PeripheralType::Tpiu)),
            (0xD20, 0x13, 0x0000) => Some(PartInfo::new("Cortex-M23 ETM", PeripheralType::Etm)),
            (0xD20, 0x00, 0x1A02) => Some(PartInfo::new("Cortex-M23 DWT", PeripheralType::Dwt)),
            (0xD20, 0x00, 0x1A03) => Some(PartInfo::new("Cortex-M23 BPU", PeripheralType::Bpu)),
            (0xD21, 0x00, 0x2A04) => Some(PartInfo::new("Cortex-M33 SCS", PeripheralType::Scs)),
            (0xD21, 0x43, 0x1A01) => Some(PartInfo::new("Cortex-M33 ITM", PeripheralType::Itm)),
            (0xD21, 0x00, 0x1A02) => Some(PartInfo::new("Cortex-M33 DWT", PeripheralType::Dwt)),
            (0xD21, 0x00, 0x1A03) => Some(PartInfo::new("Cortex-M33 BPU", PeripheralType::Bpu)),
            (0xD21, 0x13, 0x4A13) => Some(PartInfo::new("Cortex-M33 ETM", PeripheralType::Etm)),
            (0xD21, 0x11, 0x0000) => Some(PartInfo::new("Cortex-M33 TPIU", PeripheralType::Tpiu)),
        _ => None,
    }
}

/// The known part with the given part number, device type and architecture
/// id, for a component whose designer has the name `designer`: only parts
/// designed by "ARM Ltd" are known.
pub fn part_for_designer(designer: Option<&str>, part: u16, dev_type: u8, arch_id: u16) -> (r:
    Option<PartInfo>)
    ensures
        r == (if designer matches Some(name) && name@ == "ARM Ltd"@ {
            arm_part(part, dev_type, arch_id)
        } else {
            None
        }),
{
    let is_arm = match designer {
        Some(name) => str_eq(name, "ARM Ltd"),
        None => false,
    };
    if is_arm {
        known_arm_part(part, dev_type, arch_id)
    } else {
        None
    }
}

/// Modifications of a component by its implementor.
#[derive(Debug, PartialEq, Eq, Clone, Copy, Structural)]
pub enum ComponentModification {
    /// No specific modification was made.
    No,
    /// The modification with the contained number was made.
    Yes(u8),
}

/// Peripheral ID information of a CoreSight component (ADIv5.2, D1.2.2).
#[allow(non_snake_case)]
#[derive(Debug, PartialEq, Eq, Clone, Copy)]
pub struct PeripheralID {
    /// Minor errata fixes by the component designer.
    pub REVAND: u8,
    /// Component modifications by the implementor.
    pub CMOD: ComponentModification,
    /// Major component revision by the component designer.
    pub REVISION: u8,
    /// The component designer; `None` for a legacy component.
    pub JEP106: Option<Jep106Code>,
    /// The part number of the component.
    pub PART: u16,
    /// The number of 4 KiB blocks that the peripheral occupies, as the
    /// register encodes it (two to the power of a 4-bit field, kept in a byte).
    pub SIZE: u8,
    /// The device type of the peripheral.
    pub dev_type: u8,
    /// The architecture id of the peripheral.
    pub arch_id: u16,
}

/// The peripheral ID that the eight PIDR words (PIDR0..PIDR3 in `data[0..4]`,
/// PIDR4..PIDR7 in `data[4..8]`), the device type and the architecture id
/// describe.
pub open spec fn peripheral_id_from_words(data: Seq<u32>, dev_type: u8, arch_id: u16) -> PeripheralID {
    let cmod = data[3] % 16;
    PeripheralID {
        REVAND: ((data[3] / 16) % 16) as u8,
        CMOD: if cmod == 0 { ComponentModification::No } else { ComponentModification::Yes(cmod as u8) },
        REVISION: ((data[2] / 16) % 16) as u8,
        JEP106: if (data[2] / 8) % 2 == 1 {
            Some(Jep106Code {
                cc: (data[4] % 16) as u8,
                id: ((data[2] % 8) * 16 + (data[1] / 16) % 16) as u8,
            })
        } else {
            None
        },
        PART: ((data[1] % 16) * 256 + data[0] % 256) as u16,
        SIZE: (vstd::arithmetic::power2::pow2(((data[4] / 16) % 16) as nat) % 256) as u8,
        dev_type,
        arch_id,
    }
}

impl PeripheralID {
    /// Extracts the peripheral ID from the component's PIDR words.
    pub fn from_raw(data: &[u32; 8], dev_type: u8, arch_id: u16) -> (r: Self)
        ensures
            r == peripheral_id_from_words(data@, dev_type, arch_id),
    {
        let d0 = data[0];
        let d1 = data[1];
        let d2 = data[2];
        let d3 = data[3];
        let d4 = data[4];
        let jep106id = (((d2 & 0x07) << 4) | ((d1 >> 4) & 0x0F)) as u8;
        let jep106 = Jep106Code::new((d4 & 0x0F) as u8, jep106id);
        let legacy = (d2 & 0x8) > 1;
        let exponent = (d4 >> 4) & 0x0F;
        let cmod = (d3 & 0x0F) as u8;
        proof {
            assert((((d2 & 0x07) << 4) | ((d1 >> 4) & 0x0F)) == (d2 % 8) * 16 + (d1 / 16) % 16)
                by (bit_vector);
            assert((d4 & 0x0F) == d4 % 16) by (bit_vector);
            assert(((d2 & 0x8) > 1) == ((d2 / 8) % 2 == 1)) by (bit_vector);
            assert(((d3 >> 4) & 0x0F) == (d3 / 16) % 16) by (bit_vector);
            assert((d3 & 0x0F) == d3 % 16) by (bit_vector);
            assert(((d2 >> 4) & 0x0F) == (d2 / 16) % 16) by (bit_vector);
            assert((((d1 & 0x0F) << 8) | (d0 & 0xFF)) == (d1 % 16) * 256 + d0 % 256) by (bit_vector);
            assert(((d4 >> 4) & 0x0F) == (d4 / 16) % 16) by (bit_vector);
            vstd::bits::lemma_u32_pow2_no_overflow(exponent as nat);
            vstd::arithmetic::power2::lemma2_to64();
            vstd::bits::lemma_u32_shl_is_mul(1, exponent);
        }
        let shifted = 1u32 << exponent;
        let size = shifted as u8;
        proof {
            assert(shifted as u8 == shifted % 256) by (bit_vector);
        }
        PeripheralID {
            REVAND: ((d3 >> 4) & 0x0F) as u8,
            CMOD: if cmod == 0 { ComponentModification::No } else { ComponentModification::Yes(cmod) },
            REVISION: ((d2 >> 4) & 0x0F) as u8,
            JEP106: if legacy { Some(jep106) } else { None },
            PART: (((d1 & 0x0F) << 8) | (d0 & 0xFF)) as u16,
            SIZE: size,
            dev_type,
            arch_id,
        }
    }

    /// The known part that this peripheral ID designates: an ARM part of the
    /// table, when the designer's JEP106 code names "ARM Ltd".
    pub open spec fn spec_determine_part(self) -> Option<PartInfo> {
        if self.JEP106 matches Some(code) && code.spec_manufacturer() == Some("ARM Ltd"@) {
            arm_part(self.PART, self.dev_type, self.arch_id)
        } else {
            None
        }
    }

    /// Matches the peripheral ID against the table of known components.
    pub fn determine_part(&self) -> (r: Option<PartInfo>)
        ensures
            r == self.spec_determine_part(),
    {
        let designer = match self.JEP106 {
            Some(code) => code.get(),
            None => None,
        };
        part_for_designer(designer, self.PART, self.dev_type, self.arch_id)
    }

    /// Whether the peripheral is known and of the given type.
    pub open spec fn spec_is_of_type(self, peripheral_type: PeripheralType) -> bool {
        self.spec_determine_part() matches Some(info) && info.peripheral_type == peripheral_type
    }

    /// Returns whether the peripheral is of the given type.
    pub fn is_of_type(&self, peripheral_type: PeripheralType) -> (r: bool)
        ensures
            r == self.spec_is_of_type(peripheral_type),
            r == (self.spec_determine_part() matches Some(info) && info.peripheral_type
                == peripheral_type),
    {
        match self.determine_part() {
            Some(info) => info.peripheral_type() == peripheral_type,
            None => false,
        }
    }

    /// Returns the JEP106 code of the peripheral ID register.
    pub fn jep106(&self) -> (r: Option<Jep106Code>)
        ensures
            r == self.JEP106,
    {
        self.JEP106
    }

    /// Returns the part number of the peripheral ID register.
    pub fn part(&self) -> (r: u16)
        ensures
            r == self.PART,
    {
        self.PART
    }
}

} // verus!
