use vstd::prelude::*;

verus! {

/// A ROM table entry with its raw fields decoded (ADIv5.2, D3.4.4).
#[derive(Debug, PartialEq, Eq, Clone, Copy)]
pub struct RomTableEntryRaw {
    /// The offset, in 4 KiB units, from the ROM table's base address to the
    /// component behind this entry (bits 31:12 of the entry word).
    pub address_offset: i32,
    /// The power domain ID of the component (bits 7:4).
    pub power_domain_id: u8,
    /// Whether the power domain ID is valid (bit 2).
    pub power_domain_valid: bool,
    /// Set when the ROM table has the 32-bit format (bit 1).
    pub format: bool,
    /// Whether a component is present behind this entry (bit 0).
    pub entry_present: bool,
    /// Base address of the ROM table holding the entry.
    pub base_address: u32,
}

impl RomTableEntryRaw {
    /// The entry that the word `raw` of a table at `base_address` encodes:
    /// bits 31:12 are the address offset, bits 7:4 the power domain ID, bit 2
    /// the power domain's validity, bit 1 the format and bit 0 the presence.
    pub open spec fn spec_new(base_address: u32, raw: u32) -> RomTableEntryRaw {
        RomTableEntryRaw {
            address_offset: (raw / 4096) as i32,
            power_domain_id: ((raw / 16) % 16) as u8,
            power_domain_valid: (raw / 4) % 2 == 1,
            format: (raw / 2) % 2 == 1,
            entry_present: raw % 2 == 1,
            base_address,
        }
    }

    /// Decodes a raw ROM table entry word read from a table at `base_address`.
    pub fn new(base_address: u32, raw: u32) -> (r: Self)
        ensures
            r == Self::spec_new(base_address, raw),
    {
        let address_offset = ((raw >> 12) & 0xf_ff_ff) as i32;
        let power_domain_id = ((raw >> 4) & 0xf) as u8;
        let power_domain_valid = (raw & 4) == 4;
        let format = (raw & 2) == 2;
        let entry_present = (raw & 1) == 1;
        proof {
            assert(((raw >> 12) & 0xf_ff_ff) == raw / 4096) by (bit_vector);
            assert(((raw >> 4) & 0xf) == (raw / 16) % 16) by (bit_vector);
            assert(((raw & 4) == 4) == ((raw / 4) % 2 == 1)) by (bit_vector);
            assert(((raw & 2) == 2) == ((raw / 2) % 2 == 1)) by (bit_vector);
            assert(((raw & 1) == 1) == (raw % 2 == 1)) by (bit_vector);
        }
        RomTableEntryRaw {
            address_offset,
            power_domain_id,
            power_domain_valid,
            format,
            entry_present,
            base_address,
        }
    }

    /// The address of the component behind this entry: the table's base
    /// address plus the signed 20-bit offset in 4 KiB units, modulo 2^32.
    pub open spec fn spec_component_address(self) -> u32 {
        ((self.base_address as int + self.address_offset as int * 4096) % 0x1_0000_0000) as u32
    }

    /// Returns the address of the CoreSight component behind this entry.
    pub fn component_address(&self) -> (r: u32)
        ensures
            r == self.spec_component_address(),
    {
        let o = self.address_offset;
        let b = self.base_address;
        let shifted = (o as u32) << 12;
        let r = b.wrapping_add(shifted);
        proof {
            assert(b.wrapping_add((o as u32) << 12) as int
                == (b as int + o as int * 4096) % 0x1_0000_0000) by (bit_vector);
        }
        r
    }
}

} // verus!
