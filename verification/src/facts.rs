use vstd::prelude::*;

use crate::component::{ComponentId, ComponentModel, RawComponent};
use crate::entry::RomTableEntryRaw;
use crate::parse::{spec_parse_component, spec_parse_entries, spec_parse_table, spec_read_entries, unread};
use crate::peripheral::{arm_part, peripheral_id_from_words, PartInfo, PeripheralID, PeripheralType};
use crate::reader::{answered_words, Progress, ReadResponse};

verus! {

/// The abbreviation by which the names of parts of each type call it.
pub open spec fn type_tag(t: PeripheralType) -> Seq<char> {
    match t {
        PeripheralType::Tpiu => "TPIU"@,
        PeripheralType::Itm => "ITM"@,
        PeripheralType::Dwt => "DWT"@,
        PeripheralType::Scs => "SCS"@,
        PeripheralType::Fbp => "FBP"@,
        PeripheralType::Bpu => "BPU"@,
        PeripheralType::Etm => "ETM"@,
        PeripheralType::Etb => "ETB"@,
        PeripheralType::Rom => "ROM"@,
        PeripheralType::Swo => "SWO"@,
        PeripheralType::Stm => "STM"@,
        PeripheralType::Tsgen => "TSGEN"@,
    }
}

/// `text` holds `word` somewhere.
pub open spec fn mentions(text: Seq<char>, word: Seq<char>) -> bool {
    exists|i: int| 0 <= i && i + word.len() <= text.len() && #[trigger] text.subrange(i, i + word.len()) == word
}

proof fn lemma_mentions(text: Seq<char>, word: Seq<char>, i: int)
    requires
        0 <= i,
        i + word.len() <= text.len(),
        text.subrange(i, i + word.len()) == word,
    ensures
        mentions(text, word),
{
}

/// Every known ARM part's name mentions the abbreviation of its peripheral
/// type: a DWT is called "... DWT", a TPIU "... TPIU", and so on.
pub proof fn law_part_name_mentions_its_type(part: u16, dev_type: u8, arch_id: u16)
    ensures
        arm_part(part, dev_type, arch_id) matches Some(info) ==> mentions(
            info.name@,
            type_tag(info.peripheral_type),
        ),
{
    if part == 0x000 && dev_type == 0x00 && arch_id == 0x0000 {
        reveal_strlit("Cortex-M3 SCS");
        reveal_strlit("SCS");
        assert("Cortex-M3 SCS"@.subrange(10, 13) =~= "SCS"@);
        lemma_mentions("Cortex-M3 SCS"@, "SCS"@, 10);
    }
    if part == 0x001 && dev_type == 0x00 && arch_id == 0x0000 {
        reveal_strlit("Cortex-M3 ITM");
        reveal_strlit("ITM");
        assert("Cortex-M3 ITM"@.subrange(10, 13) =~= "ITM"@);
        lemma_mentions("Cortex-M3 ITM"@, "ITM"@, 10);
    }
    if part == 0x002 && dev_type == 0x00 && arch_id == 0x0000 {
        reveal_strlit("Cortex-M3 DWT");
        reveal_strlit("DWT");
        assert("Cortex-M3 DWT"@.subrange(10, 13) =~= "DWT"@);
        lemma_mentions("Cortex-M3 DWT"@, "DWT"@, 10);
    }
    if part == 0x003 && dev_type == 0x00 && arch_id == 0x0000 {
        reveal_strlit("Cortex-M3 FBP");
        reveal_strlit("FBP");
        assert("Cortex-M3 FBP"@.subrange(10, 13) =~= "FBP"@);
        lemma_mentions("Cortex-M3 FBP"@, "FBP"@, 10);
    }
    if part == 0x008 && dev_type == 0x00 && arch_id == 0x0000 {
        reveal_strlit("Cortex-M0 SCS");
        reveal_strlit("SCS");
        assert("Cortex-M0 SCS"@.subrange(10, 13) =~= "SCS"@);
        lemma_mentions("Cortex-M0 SCS"@, "SCS"@, 10);
    }
    if part == 0x00A && dev_type == 0x00 && arch_id == 0x0000 {
        reveal_strlit("Cortex-M0 DWT");
        reveal_strlit("DWT");
        assert("Cortex-M0 DWT"@.subrange(10, 13) =~= "DWT"@);
        lemma_mentions("Cortex-M0 DWT"@, "DWT"@, 10);
    }
    if part == 0x00B && dev_type == 0x00 && arch_id == 0x0000 {
        reveal_strlit("Cortex-M0 BPU");
        reveal_strlit("BPU");
        assert("Cortex-M0 BPU"@.subrange(10, 13) =~= "BPU"@);
        lemma_mentions("Cortex-M0 BPU"@, "BPU"@, 10);
    }
    if part == 0x00C && dev_type == 0x00 && arch_id == 0x0000 {
        reveal_strlit("Cortex-M4 SCS");
        reveal_strlit("SCS");
        assert("Cortex-M4 SCS"@.subrange(10, 13) =~= "SCS"@);
        lemma_mentions("Cortex-M4 SCS"@, "SCS"@, 10);
    }
    if part == 0x00D && dev_type == 0x00 && arch_id == 0x0000 {
        reveal_strlit("CoreSight ETM11");
        reveal_strlit("ETM");
        assert("CoreSight ETM11"@.subrange(10, 13) =~= "ETM"@);
        lemma_mentions("CoreSight ETM11"@, "ETM"@, 10);
    }
    if part == 0x00E && dev_type == 0x00 && arch_id == 0x0000 {
        reveal_strlit("Cortex-M7 FBP");
        reveal_strlit("FBP");
        assert("Cortex-M7 FBP"@.subrange(10, 13) =~= "FBP"@);
        lemma_mentions("Cortex-M7 FBP"@, "FBP"@, 10);
    }
    if part == 0x101 && dev_type == 0x00 && arch_id == 0x0000 {
        reveal_strlit("System TSGEN");
        reveal_strlit("TSGEN");
        assert("System TSGEN"@.subrange(7, 12) =~= "TSGEN"@);
        lemma_mentions("System TSGEN"@, "TSGEN"@, 7);
    }
    if part == 0x471 && dev_type == 0x00 && arch_id == 0x0000 {
        reveal_strlit("Cortex-M0  ROM");
        reveal_strlit("ROM");
        assert("Cortex-M0  ROM"@.subrange(11, 14) =~= "ROM"@);
        lemma_mentions("Cortex-M0  ROM"@, "ROM"@, 11);
    }
    if part == 0x4C0 && dev_type == 0x00 && arch_id == 0x0000 {
        reveal_strlit("Cortex-M0+ ROM");
        reveal_strlit("ROM");
        assert("Cortex-M0+ ROM"@.subrange(11, 14) =~= "ROM"@);
        lemma_mentions("Cortex-M0+ ROM"@, "ROM"@, 11);
    }
    if part == 0x4C4 && dev_type == 0x00 && arch_id == 0x0000 {
        reveal_strlit("Cortex-M4 ROM");
        reveal_strlit("ROM");
        assert("Cortex-M4 ROM"@.subrange(10, 13) =~= "ROM"@);
        lemma_mentions("Cortex-M4 ROM"@, "ROM"@, 10);
    }
    if part == 0x907 && dev_type == 0x21 && arch_id == 0x0000 {
        reveal_strlit("CoreSight ETB");
        reveal_strlit("ETB");
        assert("CoreSight ETB"@.subrange(10, 13) =~= "ETB"@);
        lemma_mentions("CoreSight ETB"@, "ETB"@, 10);
    }
    if part == 0x910 && dev_type == 0x00 && arch_id == 0x0000 {
        reveal_strlit("CoreSight ETM9");
        reveal_strlit("ETM");
        assert("CoreSight ETM9"@.subrange(10, 13) =~= "ETM"@);
        lemma_mentions("CoreSight ETM9"@, "ETM"@, 10);
    }
    if part == 0x912 && dev_type == 0x11 && arch_id == 0x0000 {
        reveal_strlit("CoreSight TPIU");
        reveal_strlit("TPIU");
        assert("CoreSight TPIU"@.subrange(10, 14) =~= "TPIU"@);
        lemma_mentions("CoreSight TPIU"@, "TPIU"@, 10);
    }
    if part == 0x913 && dev_type == 0x00 && arch_id == 0x0000 {
        reveal_strlit("CoreSight ITM");
        reveal_strlit("ITM");
        assert("CoreSight ITM"@.subrange(10, 13) =~= "ITM"@);
        lemma_mentions("CoreSight ITM"@, "ITM"@, 10);
    }
    if part == 0x914 && dev_type == 0x00 && arch_id == 0x0000 {
        reveal_strlit("CoreSight SWO");
        reveal_strlit("SWO");
        assert("CoreSight SWO"@.subrange(10, 13) =~= "SWO"@);
        lemma_mentions("CoreSight SWO"@, "SWO"@, 10);
    }
    if part == 0x920 && dev_type == 0x00 && arch_id == 0x0000 {
        reveal_strlit("CoreSight ETM11");
        reveal_strlit("ETM");
        assert("CoreSight ETM11"@.subrange(10, 13) =~= "ETM"@);
        lemma_mentions("CoreSight ETM11"@, "ETM"@, 10);
    }
    if part == 0x923 && dev_type == 0x11 && arch_id == 0x0000 {
        reveal_strlit("Cortex-M3 TPIU");
        reveal_strlit("TPIU");
        assert("Cortex-M3 TPIU"@.subrange(10, 14) =~= "TPIU"@);
        lemma_mentions("Cortex-M3 TPIU"@, "TPIU"@, 10);
    }
    if part == 0x924 && dev_type == 0x13 && arch_id == 0x0000 {
        reveal_strlit("Cortex-M3 ETM");
        reveal_strlit("ETM");
        assert("Cortex-M3 ETM"@.subrange(10, 13) =~= "ETM"@);
        lemma_mentions("Cortex-M3 ETM"@, "ETM"@, 10);
    }
    if part == 0x925 && dev_type == 0x13 && arch_id == 0x0000 {
        reveal_strlit("Cortex-M4 ETM");
        reveal_strlit("ETM");
        assert("Cortex-M4 ETM"@.subrange(10, 13) =~= "ETM"@);
        lemma_mentions("Cortex-M4 ETM"@, "ETM"@, 10);
    }
    if part == 0x962 && dev_type == 0x00 && arch_id == 0x0000 {
        reveal_strlit("CoreSight STM");
        reveal_strlit("STM");
        assert("CoreSight STM"@.subrange(10, 13) =~= "STM"@);
        lemma_mentions("CoreSight STM"@, "STM"@, 10);
    }
    if part == 0x963 && dev_type == 0x63 && arch_id == 0x0a63 {
        reveal_strlit("CoreSight STM");
        reveal_strlit("STM");
        assert("CoreSight STM"@.subrange(10, 13) =~= "STM"@);
        lemma_mentions("CoreSight STM"@, "STM"@, 10);
    }
    if part == 0x975 && dev_type == 0x13 && arch_id == 0x4a13 {
        reveal_strlit("Cortex-M7 ETM");
        reveal_strlit("ETM");
        assert("Cortex-M7 ETM"@.subrange(10, 13) =~= "ETM"@);
        lemma_mentions("Cortex-M7 ETM"@, "ETM"@, 10);
    }
    if part == 0x9A1 && dev_type == 0x11 && arch_id == 0x0000 {
        reveal_strlit("Cortex-M4 TPIU");
        reveal_strlit("TPIU");
        assert("Cortex-M4 TPIU"@.subrange(10, 14) =~= "TPIU"@);
        lemma_mentions("Cortex-M4 TPIU"@, "TPIU"@, 10);
    }
    if part == 0x9A9 && dev_type == 0x11 && arch_id == 0x0000 {
        reveal_strlit("Cortex-M7 TPIU");
        reveal_strlit("TPIU");
        assert("Cortex-M7 TPIU"@.subrange(10, 14) =~= "TPIU"@);
        lemma_mentions("Cortex-M7 TPIU"@, "TPIU"@, 10);
    }
    if part == 0xD20 && dev_type == 0x00 && arch_id == 0x2A04 {
        reveal_strlit("Cortex-M23 SCS");
        reveal_strlit("SCS");
        assert("Cortex-M23 SCS"@.subrange(11, 14) =~= "SCS"@);
        lemma_mentions("Cortex-M23 SCS"@, "SCS"@, 11);
    }
    if part == 0xD20 && dev_type == 0x11 && arch_id == 0x0000 {
        reveal_strlit("Cortex-M23 TPIU");
        reveal_strlit("TPIU");
        assert("Cortex-M23 TPIU"@.subrange(11, 15) =~= "TPIU"@);
        lemma_mentions("Cortex-M23 TPIU"@, "TPIU"@, 11);
    }
    if part == 0xD20 && dev_type == 0x13 && arch_id == 0x0000 {
        reveal_strlit("Cortex-M23 ETM");
        reveal_strlit("ETM");
        assert("Cortex-M23 ETM"@.subrange(11, 14) =~= "ETM"@);
        lemma_mentions("Cortex-M23 ETM"@, "ETM"@, 11);
    }
    if part == 0xD20 && dev_type == 0x00 && arch_id == 0x1A02 {
        reveal_strlit("Cortex-M23 DWT");
        reveal_strlit("DWT");
        assert("Cortex-M23 DWT"@.subrange(11, 14) =~= "DWT"@);
        lemma_mentions("Cortex-M23 DWT"@, "DWT"@, 11);
    }
    if part == 0xD20 && dev_type == 0x00 && arch_id == 0x1A03 {
        reveal_strlit("Cortex-M23 BPU");
        reveal_strlit("BPU");
        assert("Cortex-M23 BPU"@.subrange(11, 14) =~= "BPU"@);
        lemma_mentions("Cortex-M23 BPU"@, "BPU"@, 11);
    }
    if part == 0xD21 && dev_type == 0x00 && arch_id == 0x2A04 {
        reveal_strlit("Cortex-M33 SCS");
        reveal_strlit("SCS");
        assert("Cortex-M33 SCS"@.subrange(11, 14) =~= "SCS"@);
        lemma_mentions("Cortex-M33 SCS"@, "SCS"@, 11);
    }
    if part == 0xD21 && dev_type == 0x43 && arch_id == 0x1A01 {
        reveal_strlit("Cortex-M33 ITM");
        reveal_strlit("ITM");
        assert("Cortex-M33 ITM"@.subrange(11, 14) =~= "ITM"@);
        lemma_mentions("Cortex-M33 ITM"@, "ITM"@, 11);
    }
    if part == 0xD21 && dev_type == 0x00 && arch_id == 0x1A02 {
        reveal_strlit("Cortex-M33 DWT");
        reveal_strlit("DWT");
        assert("Cortex-M33 DWT"@.subrange(11, 14) =~= "DWT"@);
        lemma_mentions("Cortex-M33 DWT"@, "DWT"@, 11);
    }
    if part == 0xD21 && dev_type == 0x00 && arch_id == 0x1A03 {
        reveal_strlit("Cortex-M33 BPU");
        reveal_strlit("BPU");
        assert("Cortex-M33 BPU"@.subrange(11, 14) =~= "BPU"@);
        lemma_mentions("Cortex-M33 BPU"@, "BPU"@, 11);
    }
    if part == 0xD21 && dev_type == 0x13 && arch_id == 0x4A13 {
        reveal_strlit("Cortex-M33 ETM");
        reveal_strlit("ETM");
        assert("Cortex-M33 ETM"@.subrange(11, 14) =~= "ETM"@);
        lemma_mentions("Cortex-M33 ETM"@, "ETM"@, 11);
    }
    if part == 0xD21 && dev_type == 0x11 && arch_id == 0x0000 {
        reveal_strlit("Cortex-M33 TPIU");
        reveal_strlit("TPIU");
        assert("Cortex-M33 TPIU"@.subrange(11, 15) =~= "TPIU"@);
        lemma_mentions("Cortex-M33 TPIU"@, "TPIU"@, 11);
    }
}

/// The known ARM parts, by part number, device type and architecture id, with
/// the name and the peripheral type of each.
pub proof fn law_known_arm_parts()
    ensures
        arm_part(0x000, 0x00, 0x0000) == Some(PartInfo { name: "Cortex-M3 SCS", peripheral_type: PeripheralType::Scs }),
        arm_part(0x001, 0x00, 0x0000) == Some(PartInfo { name: "Cortex-M3 ITM", peripheral_type: PeripheralType::Itm }),
        arm_part(0x002, 0x00, 0x0000) == Some(PartInfo { name: "Cortex-M3 DWT", peripheral_type: PeripheralType::Dwt }),
        arm_part(0x003, 0x00, 0x0000) == Some(PartInfo { name: "Cortex-M3 FBP", peripheral_type: PeripheralType::Fbp }),
        arm_part(0x008, 0x00, 0x0000) == Some(PartInfo { name: "Cortex-M0 SCS", peripheral_type: PeripheralType::Scs }),
        arm_part(0x00A, 0x00, 0x0000) == Some(PartInfo { name: "Cortex-M0 DWT", peripheral_type: PeripheralType::Dwt }),
        arm_part(0x00B, 0x00, 0x0000) == Some(PartInfo { name: "Cortex-M0 BPU", peripheral_type: PeripheralType::Bpu }),
        arm_part(0x00C, 0x00, 0x0000) == Some(PartInfo { name: "Cortex-M4 SCS", peripheral_type: PeripheralType::Scs }),
        arm_part(0x00D, 0x00, 0x0000) == Some(PartInfo { name: "CoreSight ETM11", peripheral_type: PeripheralType::Etm }),
        arm_part(0x00E, 0x00, 0x0000) == Some(PartInfo { name: "Cortex-M7 FBP", peripheral_type: PeripheralType::Fbp }),
        arm_part(0x101, 0x00, 0x0000) == Some(PartInfo { name: "System TSGEN", peripheral_type: PeripheralType::Tsgen }),
        arm_part(0x471, 0x00, 0x0000) == Some(PartInfo { name: "Cortex-M0  ROM", peripheral_type: PeripheralType::Rom }),
        arm_part(0x4C0, 0x00, 0x0000) == Some(PartInfo { name: "Cortex-M0+ ROM", peripheral_type: PeripheralType::Rom }),
        arm_part(0x4C4, 0x00, 0x0000) == Some(PartInfo { name: "Cortex-M4 ROM", peripheral_type: PeripheralType::Rom }),
        arm_part(0x907, 0x21, 0x0000) == Some(PartInfo { name: "CoreSight ETB", peripheral_type: PeripheralType::Etb }),
        arm_part(0x910, 0x00, 0x0000) == Some(PartInfo { name: "CoreSight ETM9", peripheral_type: PeripheralType::Etm }),
        arm_part(0x912, 0x11, 0x0000) == Some(PartInfo { name: "CoreSight TPIU", peripheral_type: PeripheralType::Tpiu }),
        arm_part(0x913, 0x00, 0x0000) == Some(PartInfo { name: "CoreSight ITM", peripheral_type: PeripheralType::Itm }),
        arm_part(0x914, 0x00, 0x0000) == Some(PartInfo { name: "CoreSight SWO", peripheral_type: PeripheralType::Swo }),
        arm_part(0x920, 0x00, 0x0000) == Some(PartInfo { name: "CoreSight ETM11", peripheral_type: PeripheralType::Etm }),
        arm_part(0x923, 0x11, 0x0000) == Some(PartInfo { name: "Cortex-M3 TPIU", peripheral_type: PeripheralType::Tpiu }),
        arm_part(0x924, 0x13, 0x0000) == Some(PartInfo { name: "Cortex-M3 ETM", peripheral_type: PeripheralType::Etm }),
        arm_part(0x925, 0x13, 0x0000) == Some(PartInfo { name: "Cortex-M4 ETM", peripheral_type: PeripheralType::Etm }),
        arm_part(0x962, 0x00, 0x0000) == Some(PartInfo { name: "CoreSight STM", peripheral_type: PeripheralType::Stm }),
        arm_part(0x963, 0x63, 0x0a63) == Some(PartInfo { name: "CoreSight STM", peripheral_type: PeripheralType::Stm }),
        arm_part(0x975, 0x13, 0x4a13) == Some(PartInfo { name: "Cortex-M7 ETM", peripheral_type: PeripheralType::Etm }),
        arm_part(0x9A1, 0x11, 0x0000) == Some(PartInfo { name: "Cortex-M4 TPIU", peripheral_type: PeripheralType::Tpiu }),
        arm_part(0x9A9, 0x11, 0x0000) == Some(PartInfo { name: "Cortex-M7 TPIU", peripheral_type: PeripheralType::Tpiu }),
        arm_part(0xD20, 0x00, 0x2A04) == Some(PartInfo { name: "Cortex-M23 SCS", peripheral_type: PeripheralType::Scs }),
        arm_part(0xD20, 0x11, 0x0000) == Some(PartInfo { name: "Cortex-M23 TPIU", peripheral_type: PeripheralType::Tpiu }),
        arm_part(0xD20, 0x13, 0x0000) == Some(PartInfo { name: "Cortex-M23 ETM", peripheral_type: PeripheralType::Etm }),
        arm_part(0xD20, 0x00, 0x1A02) == Some(PartInfo { name: "Cortex-M23 DWT", peripheral_type: PeripheralType::Dwt }),
        arm_part(0xD20, 0x00, 0x1A03) == Some(PartInfo { name: "Cortex-M23 BPU", peripheral_type: PeripheralType::Bpu }),
        arm_part(0xD21, 0x00, 0x2A04) == Some(PartInfo { name: "Cortex-M33 SCS", peripheral_type: PeripheralType::Scs }),
        arm_part(0xD21, 0x43, 0x1A01) == Some(PartInfo { name: "Cortex-M33 ITM", peripheral_type: PeripheralType::Itm }),
        arm_part(0xD21, 0x00, 0x1A02) == Some(PartInfo { name: "Cortex-M33 DWT", peripheral_type: PeripheralType::Dwt }),
        arm_part(0xD21, 0x00, 0x1A03) == Some(PartInfo { name: "Cortex-M33 BPU", peripheral_type: PeripheralType::Bpu }),
        arm_part(0xD21, 0x13, 0x4A13) == Some(PartInfo { name: "Cortex-M33 ETM", peripheral_type: PeripheralType::Etm }),
        arm_part(0xD21, 0x11, 0x0000) == Some(PartInfo { name: "Cortex-M33 TPIU", peripheral_type: PeripheralType::Tpiu }),
{
}

/// A peripheral is of at most one type.
pub proof fn law_peripheral_of_one_type(p: PeripheralID, t1: PeripheralType, t2: PeripheralType)
    requires
        p.spec_is_of_type(t1),
        p.spec_is_of_type(t2),
    ensures
        t1 == t2,
{
}

/// A peripheral is of a type exactly when it is a known part and that part
/// is of that type; an unknown peripheral is of no type.
pub proof fn law_type_is_the_known_parts_type(p: PeripheralID, t: PeripheralType)
    ensures
        p.spec_is_of_type(t) <==> (p.spec_determine_part() is Some
            && p.spec_determine_part()->Some_0.peripheral_type == t),
        p.spec_determine_part() is None ==> !p.spec_is_of_type(t),
{
}

/// The JEP106 code of a peripheral ID comes from its PIDR bits: it is there
/// exactly when PIDR2 bit 3 is set; its continuation code is PIDR4 bits 3:0;
/// its identity code is seven bits, bits 3:0 from PIDR1 bits 7:4 and bits 6:4
/// from PIDR2 bits 2:0.
pub proof fn law_jep106_code_bits(data: Seq<u32>, dev_type: u8, arch_id: u16)
    requires
        data.len() == 8,
    ensures
        peripheral_id_from_words(data, dev_type, arch_id).JEP106 is Some <==> data[2] & 8 == 8,
        peripheral_id_from_words(data, dev_type, arch_id).JEP106 matches Some(code) ==> {
            &&& code.cc as u32 == data[4] & 0xF
            &&& code.id < 128
            &&& (code.id & 1 == 1) == (data[1] & 0x10 == 0x10)
            &&& (code.id & 2 == 2) == (data[1] & 0x20 == 0x20)
            &&& (code.id & 4 == 4) == (data[1] & 0x40 == 0x40)
            &&& (code.id & 8 == 8) == (data[1] & 0x80 == 0x80)
            &&& (code.id & 16 == 16) == (data[2] & 1 == 1)
            &&& (code.id & 32 == 32) == (data[2] & 2 == 2)
            &&& (code.id & 64 == 64) == (data[2] & 4 == 4)
        },
{
    let d1 = data[1];
    let d2 = data[2];
    let d4 = data[4];
    assert(((d2 / 8) % 2 == 1) == (d2 & 8 == 8)) by (bit_vector);
    assert(d4 % 16 == d4 & 0xF) by (bit_vector);
    let id = ((d2 % 8) * 16 + (d1 / 16) % 16) as u8;
    assert({
        let id = ((d2 % 8) * 16 + (d1 / 16) % 16) as u8;
        &&& id < 128
        &&& (id & 1 == 1) == (d1 & 0x10 == 0x10)
        &&& (id & 2 == 2) == (d1 & 0x20 == 0x20)
        &&& (id & 4 == 4) == (d1 & 0x40 == 0x40)
        &&& (id & 8 == 8) == (d1 & 0x80 == 0x80)
        &&& (id & 16 == 16) == (d2 & 1 == 1)
        &&& (id & 32 == 32) == (d2 & 2 == 2)
        &&& (id & 64 == 64) == (d2 & 4 == 4)
    }) by (bit_vector);
}

/// The class that each kind of component value stands for.
pub open spec fn variant_class(m: ComponentModel) -> RawComponent {
    match m {
        ComponentModel::GenericVerificationComponent(_) => RawComponent::GenericVerificationComponent,
        ComponentModel::Class1RomTable(..) => RawComponent::RomTable,
        ComponentModel::Class9RomTable(_) => RawComponent::CoreSightComponent,
        ComponentModel::PeripheralTestBlock(_) => RawComponent::PeripheralTestBlock,
        ComponentModel::GenericIPComponent(_) => RawComponent::GenericIPComponent,
        ComponentModel::CoreLinkOrPrimeCellOrSystemComponent(_) => {
            RawComponent::CoreLinkOrPrimeCellOrSystemComponent
        },
    }
}

/// The identification that a component value carries.
pub open spec fn model_id(m: ComponentModel) -> ComponentId {
    match m {
        ComponentModel::GenericVerificationComponent(id) => id,
        ComponentModel::Class1RomTable(id, _) => id,
        ComponentModel::Class9RomTable(id) => id,
        ComponentModel::PeripheralTestBlock(id) => id,
        ComponentModel::GenericIPComponent(id) => id,
        ComponentModel::CoreLinkOrPrimeCellOrSystemComponent(id) => id,
    }
}

/// The number of each component class in the class field of CIDR1
/// (ADIv5.2, table D1-2).
pub open spec fn class_number(c: RawComponent) -> u32 {
    match c {
        RawComponent::GenericVerificationComponent => 0x0,
        RawComponent::RomTable => 0x1,
        RawComponent::CoreSightComponent => 0x9,
        RawComponent::PeripheralTestBlock => 0xB,
        RawComponent::GenericIPComponent => 0xE,
        RawComponent::CoreLinkOrPrimeCellOrSystemComponent => 0xF,
    }
}

/// The second word of an answer (CIDR1 in the answer to the CIDR block),
/// zero when the answer holds fewer words.
pub open spec fn second_word(words: Seq<u32>) -> u32 {
    if words.len() > 1 {
        words[1]
    } else {
        0
    }
}

/// A parsed component is of the kind that its class says: the kind of the
/// value, the class recorded in its identification and the class field
/// (bits 7:4) of CIDR1, in the first answer it reads, all agree, and the
/// component's address is the address it was parsed at.
pub proof fn law_component_kind_follows_cidr1(rs: Seq<ReadResponse>, pos: nat, base: u64)
    ensures
        spec_parse_component(rs, pos, base).0 matches Progress::Done(Ok(m)) ==> {
            &&& variant_class(m) == model_id(m).class
            &&& model_id(m).component_address == base
            &&& pos < rs.len()
            &&& rs[pos as int] is Ok
            &&& class_number(variant_class(m)) == (second_word(rs[pos as int]->Ok_0@) >> 4) & 0xF
        },
{
    if pos < rs.len() {
        if let Ok(v) = rs[pos as int] {
            let w = second_word(v@);
            assert(answered_words(v@, 4)[1] == w);
            assert((w / 16) % 16 == (w >> 4) & 0xF) by (bit_vector);
        }
    }
}

/// Each present entry of a table gives the parsed entry that stands for it
/// the power domain ID, the power domain valid flag and the format of the raw
/// entry, which the entry word's bits 7:4, bit 2 and bit 1 hold.
pub proof fn law_entry_keeps_raw_fields(
    rs: Seq<ReadResponse>,
    pos: nat,
    raws: Seq<RomTableEntryRaw>,
    i: nat,
)
    requires
        i < raws.len(),
        raws[i as int].entry_present,
    ensures
        spec_parse_entries(rs, pos, raws, i).0 matches Progress::Done(Ok(models)) ==> {
            &&& models.len() > 0
            &&& models[0].power_domain_id == raws[i as int].power_domain_id
            &&& models[0].power_domain_valid == raws[i as int].power_domain_valid
            &&& models[0].format == raws[i as int].format
        },
{
}

/// The fields of the raw entry that a word encodes, as bits of the word.
pub proof fn law_entry_word_bits(base: u32, w: u32)
    ensures
        RomTableEntryRaw::spec_new(base, w).power_domain_id as u32 == (w >> 4) & 0xF,
        RomTableEntryRaw::spec_new(base, w).power_domain_valid == (w & 4 == 4),
        RomTableEntryRaw::spec_new(base, w).format == (w & 2 == 2),
        RomTableEntryRaw::spec_new(base, w).entry_present == (w & 1 == 1),
{
    assert(((w / 16) % 16) == (w >> 4) & 0xF) by (bit_vector);
    assert(((w / 4) % 2 == 1) == (w & 4 == 4)) by (bit_vector);
    assert(((w / 2) % 2 == 1) == (w & 2 == 2)) by (bit_vector);
    assert((w % 2 == 1) == (w & 1 == 1)) by (bit_vector);
}

/// `raw` is the entry that the word of an answer from `pos` on encodes, for
/// a table at `base`, a word other than zero.
pub open spec fn decoded_from_answer(
    rs: Seq<ReadResponse>,
    pos: nat,
    base: u64,
    raw: RomTableEntryRaw,
) -> bool {
    exists|p: int|
        pos <= p < rs.len() && #[trigger] rs[p] is Ok && answered_words(rs[p]->Ok_0@, 1)[0] != 0
            && raw == RomTableEntryRaw::spec_new(base as u32, answered_words(rs[p]->Ok_0@, 1)[0])
}

/// Each raw entry read from a table is the one that the word of some answer
/// to an entry read encodes, a word other than zero.
pub proof fn law_raw_entries_come_from_words(
    rs: Seq<ReadResponse>,
    pos: nat,
    base: u64,
    offset: u64,
)
    ensures
        spec_read_entries(rs, pos, base, offset).0 matches Progress::Done(raws) ==> forall|j: int|
            0 <= j < raws.len() ==> #[trigger] decoded_from_answer(rs, pos, base, raws[j]),
    decreases unread(rs, pos),
{
    if pos < rs.len() {
        law_raw_entries_come_from_words(rs, pos + 1, base, offset.wrapping_add(4));
        let rest = spec_read_entries(rs, pos + 1, base, offset.wrapping_add(4)).0;
        if let Progress::Done(tail) = rest {
            assert forall|j: int| 0 <= j < tail.len() implies #[trigger] decoded_from_answer(
                rs,
                pos,
                base,
                tail[j],
            ) by {
                assert(decoded_from_answer(rs, pos + 1, base, tail[j]));
            }
        }
        if let Ok(v) = rs[pos as int] {
            let word = answered_words(v@, 1)[0];
            if word != 0 {
                if let Progress::Done(tail) = rest {
                    let raws = seq![RomTableEntryRaw::spec_new(base as u32, word)] + tail;
                    assert forall|j: int| 0 <= j < raws.len() implies #[trigger] decoded_from_answer(
                        rs,
                        pos,
                        base,
                        raws[j],
                    ) by {
                        if j == 0 {
                            assert(rs[pos as int] is Ok);
                        } else {
                            assert(raws[j] == tail[j - 1]);
                        }
                    }
                }
            }
        }
    }
}

/// The first entry of a ROM table, when its word is that of a present entry,
/// is the first entry of the parsed table, with the power domain ID of bits
/// 7:4 of that word, the power domain valid flag of bit 2 and the format of
/// bit 1.
pub proof fn law_first_entry_fields(rs: Seq<ReadResponse>, pos: nat, base: u64)
    requires
        pos < rs.len(),
        rs[pos as int] matches Ok(v) && v@.len() > 0 && v@[0] & 1 == 1,
    ensures
        spec_parse_table(rs, pos, base).0 matches Progress::Done(Ok(entries)) ==> {
            let w = rs[pos as int]->Ok_0@[0];
            &&& entries.len() > 0
            &&& entries[0].power_domain_id as u32 == (w >> 4) & 0xF
            &&& entries[0].power_domain_valid == (w & 4 == 4)
            &&& entries[0].format == (w & 2 == 2)
        },
{
    let w = rs[pos as int]->Ok_0@[0];
    assert(answered_words(rs[pos as int]->Ok_0@, 1)[0] == w);
    assert(w & 1 == 1 ==> w != 0) by (bit_vector);
    law_entry_word_bits(base as u32, w);
    let (e, k) = spec_read_entries(rs, pos, base, 0);
    if let Progress::Done(raws) = e {
        assert(raws[0] == RomTableEntryRaw::spec_new(base as u32, w));
        assert(raws[0].entry_present);
        law_entry_keeps_raw_fields(rs, pos + k, raws, 0);
    }
}

} // verus!
