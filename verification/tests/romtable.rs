use std::collections::{HashMap, HashSet};

use romtable::{
    part_for_designer, Component, ComponentInformationReader, ComponentModification, Jep106Code,
    MemoryError, PartInfo, PeripheralID, PeripheralType, Progress, RawComponent, ReadLog,
    ReadRequest, ReadResponse, RomTable, RomTableEntryRaw, RomTableError,
};

/// A target memory of 32-bit words; addresses that are not set read as zero,
/// and reads that touch a faulty address fail.
struct FakeMemory {
    words: HashMap<u32, u32>,
    faulty: HashSet<u32>,
    reads: usize,
}

impl FakeMemory {
    fn new() -> Self {
        FakeMemory { words: HashMap::new(), faulty: HashSet::new(), reads: 0 }
    }

    fn set(&mut self, address: u32, value: u32) {
        self.words.insert(address, value);
    }

    fn word(&self, address: u32) -> Result<u32, MemoryError> {
        if self.faulty.contains(&address) {
            Err(MemoryError { message: format!("fault at {:#x}", address) })
        } else {
            Ok(*self.words.get(&address).unwrap_or(&0))
        }
    }

    fn answer(&mut self, request: ReadRequest) -> ReadResponse {
        self.reads += 1;
        match request {
            ReadRequest::Words { address, len } => {
                let mut v = Vec::new();
                for i in 0..len {
                    v.push(self.word(address + 4 * i as u32)?);
                }
                Ok(v)
            }
            ReadRequest::Word { address } => Ok(vec![self.word(address)?]),
        }
    }

    /// Places the identification registers of a component at `base`.
    fn component(&mut self, base: u32, class: u32, pidr: [u32; 8], devtype: u32, devarch: u32) {
        self.set(base + 0xFF0, 0x0D);
        self.set(base + 0xFF4, class << 4);
        self.set(base + 0xFF8, 0x05);
        self.set(base + 0xFFC, 0xB1);
        for i in 0..4u32 {
            self.set(base + 0xFE0 + 4 * i, pidr[i as usize]);
            self.set(base + 0xFD0 + 4 * i, pidr[4 + i as usize]);
        }
        self.set(base + 0xFCC, devtype);
        self.set(base + 0xFBC, devarch);
    }
}

/// PIDR words of an ARM part with the given part number.
fn arm_pidr(part: u32) -> [u32; 8] {
    [part & 0xFF, 0xB0 | ((part >> 8) & 0xF), 0x0B, 0x00, 0x04, 0, 0, 0]
}

/// Runs a parse to its end, answering each read it asks for from `memory`.
fn parse(memory: &mut FakeMemory, base: u64) -> (Result<Component, RomTableError>, Vec<ReadResponse>) {
    let mut answers: Vec<ReadResponse> = Vec::new();
    loop {
        let mut log = ReadLog::new(&answers);
        match Component::try_parse(&mut log, base) {
            Progress::Done(result) => return (result, answers),
            Progress::NeedsRead(request) => {
                assert_eq!(log.position(), answers.len());
                let answer = memory.answer(request);
                answers.push(answer);
            }
        }
    }
}

/// A Cortex-M4 like system: a ROM table at 0xE00FF000 pointing to an SCS,
/// a DWT and an ITM, with a terminating zero entry.
fn cortex_m4() -> FakeMemory {
    let mut m = FakeMemory::new();
    m.component(0xE00F_F000, 1, [0xC4, 0xB4, 0x0B, 0x00, 0x04, 0, 0, 0], 0, 0);
    m.set(0xE00F_F000, 0xFFF0_F003);
    m.set(0xE00F_F004, 0xFFF0_2003);
    m.set(0xE00F_F008, 0xFFF0_3002);
    m.set(0xE00F_F00C, 0xFFF0_1003);
    m.set(0xE00F_F010, 0);
    m.component(0xE000_E000, 0xE, arm_pidr(0x00C), 0, 0);
    m.component(0xE000_1000, 0xE, arm_pidr(0x002), 0, 0);
    m.component(0xE000_0000, 0xE, arm_pidr(0x001), 0, 0);
    m
}

#[test]
fn entry_fields_decode() {
    let e = RomTableEntryRaw::new(0xE00F_F000, 0xFFF0_F003);
    assert_eq!(e.address_offset, 0xFFF0F);
    assert_eq!(e.power_domain_id, 0);
    assert!(!e.power_domain_valid);
    assert!(e.format);
    assert!(e.entry_present);
    assert_eq!(e.base_address, 0xE00F_F000);

    let e = RomTableEntryRaw::new(0x1000, 0x0000_50F6);
    assert_eq!(e.address_offset, 5);
    assert_eq!(e.power_domain_id, 0xF);
    assert!(e.power_domain_valid);
    assert!(e.format);
    assert!(!e.entry_present);
}

#[test]
fn entry_component_address_negative_offset() {
    let e = RomTableEntryRaw::new(0xE00F_F000, 0xFFF0_F003);
    assert_eq!(e.component_address(), 0xE000_E000);
    let e = RomTableEntryRaw::new(0xE00F_F000, 0xFFF0_1003);
    assert_eq!(e.component_address(), 0xE000_0000);
}

#[test]
fn entry_component_address_positive_offset_and_wrap() {
    let e = RomTableEntryRaw::new(0x8000_0000, 0x0000_3003);
    assert_eq!(e.component_address(), 0x8000_3000);
    let e = RomTableEntryRaw::new(0xFFFF_F000, 0x0000_2001);
    assert_eq!(e.component_address(), 0x0000_1000);
}

#[test]
fn peripheral_id_from_raw_fields() {
    let data = [0x0C, 0xB0, 0x2B, 0x35, 0x24, 0, 0, 0];
    let id = PeripheralID::from_raw(&data, 0x11, 0x2A04);
    assert_eq!(id.PART, 0x00C);
    assert_eq!(id.part(), 0x00C);
    assert_eq!(id.REVAND, 3);
    assert_eq!(id.CMOD, ComponentModification::Yes(5));
    assert_eq!(id.REVISION, 2);
    assert_eq!(id.jep106(), Some(Jep106Code { cc: 4, id: 0x3B }));
    assert_eq!(id.SIZE, 4);
    assert_eq!(id.dev_type, 0x11);
    assert_eq!(id.arch_id, 0x2A04);
}

#[test]
fn peripheral_id_without_jedec_code() {
    let data = [0x71, 0x04, 0x00, 0x00, 0x84, 0, 0, 0];
    let id = PeripheralID::from_raw(&data, 0, 0);
    assert_eq!(id.PART, 0x471);
    assert_eq!(id.CMOD, ComponentModification::No);
    assert_eq!(id.jep106(), None);
    // 2^8 does not fit in the size byte.
    assert_eq!(id.SIZE, 0);
    assert_eq!(id.determine_part().map(|p| p.name()), None);
}

#[test]
fn jep106_names_arm() {
    assert_eq!(Jep106Code::new(4, 0x3B).get(), Some("ARM Ltd"));
    assert_eq!(Jep106Code::new(2, 0x44).get(), Some("Nordic VLSI ASA"));
    assert_eq!(Jep106Code::new(20, 0x01).get(), None);
}

#[test]
fn determine_part_known_arm_parts() {
    let scs = PeripheralID::from_raw(&arm_pidr(0x00C), 0, 0);
    let info = scs.determine_part().unwrap();
    assert_eq!(info.name(), "Cortex-M4 SCS");
    assert_eq!(info.peripheral_type(), PeripheralType::Scs);
    assert!(scs.is_of_type(PeripheralType::Scs));
    assert!(!scs.is_of_type(PeripheralType::Itm));

    let m33_itm = PeripheralID::from_raw(&arm_pidr(0xD21), 0x43, 0x1A01);
    let info = m33_itm.determine_part().unwrap();
    assert_eq!(info.name(), "Cortex-M33 ITM");
    assert_eq!(info.peripheral_type(), PeripheralType::Itm);

    let m0_rom = PeripheralID::from_raw(&arm_pidr(0x471), 0, 0);
    assert_eq!(m0_rom.determine_part().unwrap().name(), "Cortex-M0  ROM");
}

#[test]
fn determine_part_needs_exact_match() {
    // The right part number with another device type is unknown.
    let id = PeripheralID::from_raw(&arm_pidr(0x00C), 0x11, 0);
    assert!(id.determine_part().is_none());
    assert!(!id.is_of_type(PeripheralType::Scs));
    // The same registers from another designer are unknown.
    let mut pidr = arm_pidr(0x00C);
    pidr[4] = 0x02;
    let id = PeripheralID::from_raw(&pidr, 0, 0);
    assert!(id.determine_part().is_none());
}

#[test]
fn part_info_accessors() {
    let info = PartInfo::new("Cortex-M7 ETM", PeripheralType::Etm);
    assert_eq!(info.name(), "Cortex-M7 ETM");
    assert_eq!(info.peripheral_type(), PeripheralType::Etm);
    assert_eq!(PeripheralType::Etm.description(), "Etm (Embedded Trace)");
    assert_eq!(PeripheralType::Rom.description(), "Rom");
    assert_eq!(PeripheralType::Tpiu.description(), "Tpiu (Trace Port Interface Unit)");
}

#[test]
fn raw_component_classes() {
    assert_eq!(RawComponent::from_u32(0), Some(RawComponent::GenericVerificationComponent));
    assert_eq!(RawComponent::from_u32(1), Some(RawComponent::RomTable));
    assert_eq!(RawComponent::from_u32(9), Some(RawComponent::CoreSightComponent));
    assert_eq!(RawComponent::from_u32(0xB), Some(RawComponent::PeripheralTestBlock));
    assert_eq!(RawComponent::from_u32(0xE), Some(RawComponent::GenericIPComponent));
    assert_eq!(
        RawComponent::from_u32(0xF),
        Some(RawComponent::CoreLinkOrPrimeCellOrSystemComponent)
    );
    assert_eq!(RawComponent::from_u32(2), None);
}

#[test]
fn parse_rom_table_with_components() {
    let mut m = cortex_m4();
    let (result, answers) = parse(&mut m, 0xE00F_F000);
    let component = result.unwrap();
    // 5 reads for the table's id, 5 entries, 3 components of 5 reads each.
    assert_eq!(answers.len(), 5 + 5 + 15);
    match &component {
        Component::Class1RomTable(id, table) => {
            assert_eq!(id.component_address(), 0xE00F_F000);
            assert_eq!(id.class, RawComponent::RomTable);
            assert_eq!(id.peripheral_id().part(), 0x4C4);
            assert_eq!(table.entries.len(), 3);
            assert_eq!(table.entries[0].component.id().component_address, 0xE000_E000);
            assert_eq!(table.entries[1].component.id().component_address, 0xE000_1000);
            assert_eq!(table.entries[2].component.id().component_address, 0xE000_0000);
            assert!(table.entries[0].format);
            match &table.entries[0].component {
                Component::GenericIPComponent(id) => {
                    assert!(id.peripheral_id.is_of_type(PeripheralType::Scs))
                }
                other => panic!("unexpected component {:?}", other),
            }
        }
        other => panic!("unexpected component {:?}", other),
    }
}

#[test]
fn parse_skips_absent_entries() {
    let mut m = cortex_m4();
    // The DWT entry reads as not present: no component is parsed behind it.
    m.set(0xE00F_F004, 0xFFF0_2002);
    let (result, _) = parse(&mut m, 0xE00F_F000);
    match result.unwrap() {
        Component::Class1RomTable(_, table) => {
            assert_eq!(table.entries.len(), 2);
            assert_eq!(table.entries[1].component.id().component_address, 0xE000_0000);
        }
        other => panic!("unexpected component {:?}", other),
    }
}

#[test]
fn parse_skips_unreadable_entries() {
    let mut m = cortex_m4();
    m.faulty.insert(0xE00F_F004);
    let (result, answers) = parse(&mut m, 0xE00F_F000);
    assert!(answers[6].is_err());
    match result.unwrap() {
        Component::Class1RomTable(_, table) => {
            assert_eq!(table.entries.len(), 2);
            assert_eq!(table.entries[0].component.id().component_address, 0xE000_E000);
            assert_eq!(table.entries[1].component.id().component_address, 0xE000_0000);
        }
        other => panic!("unexpected component {:?}", other),
    }
}

#[test]
fn parse_reports_unknown_class() {
    let mut m = FakeMemory::new();
    m.component(0x4000_0000, 2, arm_pidr(0x00C), 0, 0);
    let (result, answers) = parse(&mut m, 0x4000_0000);
    assert_eq!(result, Err(RomTableError::CSComponentIdentification));
    assert_eq!(answers.len(), 1);
}

#[test]
fn parse_reports_memory_error() {
    let mut m = cortex_m4();
    m.faulty.insert(0xE000_EFD0);
    let (result, _) = parse(&mut m, 0xE00F_F000);
    assert_eq!(
        result,
        Err(RomTableError::Memory(MemoryError { message: "fault at 0xe000efd0".to_string() }))
    );
}

#[test]
fn parse_reads_devarch_only_when_present() {
    let mut m = FakeMemory::new();
    m.component(0x5000_0000, 0x9, arm_pidr(0xD21), 0x43, 0x0010_1A01);
    let (result, _) = parse(&mut m, 0x5000_0000);
    match result.unwrap() {
        Component::Class9RomTable(id) => {
            assert_eq!(id.peripheral_id.arch_id, 0x1A01);
            assert!(id.peripheral_id.is_of_type(PeripheralType::Itm));
        }
        other => panic!("unexpected component {:?}", other),
    }
    let mut m = FakeMemory::new();
    m.component(0x5000_0000, 0x9, arm_pidr(0xD21), 0x43, 0x0000_1A01);
    let (result, _) = parse(&mut m, 0x5000_0000);
    assert_eq!(result.unwrap().id().peripheral_id.arch_id, 0);
}

#[test]
fn parse_first_request_is_cidr_block() {
    let answers: Vec<ReadResponse> = Vec::new();
    let mut log = ReadLog::new(&answers);
    let progress = Component::try_parse(&mut log, 0xE00F_F000);
    assert_eq!(progress, Progress::NeedsRead(ReadRequest::Words { address: 0xE00F_FFF0, len: 4 }));
}

#[test]
fn component_information_reader_reads_in_order() {
    let answers: Vec<ReadResponse> = vec![Ok(vec![0x0D, 0x10, 0x05, 0xB1])];
    let reader = ComponentInformationReader::new(0x2000);
    let mut log = ReadLog::new(&answers);
    assert_eq!(reader.component_class(&mut log), Progress::Done(Ok(RawComponent::RomTable)));
    assert_eq!(log.position(), 1);
    assert_eq!(
        reader.peripheral_id(&mut log),
        Progress::NeedsRead(ReadRequest::Words { address: 0x2FD0, len: 4 })
    );
    let answers: Vec<ReadResponse> = vec![
        Ok(vec![0x04, 0, 0, 0]),
        Ok(vec![0x0C, 0xB0, 0x0B, 0x00]),
    ];
    let mut log = ReadLog::new(&answers);
    assert_eq!(
        reader.peripheral_id(&mut log),
        Progress::NeedsRead(ReadRequest::Word { address: 0x2FCC })
    );
}

#[test]
fn finished_parse_ignores_more_answers() {
    let mut m = cortex_m4();
    let (result, mut answers) = parse(&mut m, 0xE00F_F000);
    let used = answers.len();
    answers.push(Ok(vec![1, 2, 3, 4]));
    answers.push(Err(MemoryError { message: "late".to_string() }));
    let mut log = ReadLog::new(&answers);
    assert_eq!(Component::try_parse(&mut log, 0xE00F_F000), Progress::Done(result));
    assert_eq!(log.position(), used);
}

#[test]
fn waiting_parse_uses_every_answer() {
    let mut m = cortex_m4();
    let (_, answers) = parse(&mut m, 0xE00F_F000);
    for n in 0..answers.len() {
        let mut log = ReadLog::new(&answers[..n]);
        match Component::try_parse(&mut log, 0xE00F_F000) {
            Progress::NeedsRead(_) => assert_eq!(log.position(), n),
            Progress::Done(_) => panic!("finished early after {} answers", n),
        }
    }
}

#[test]
fn short_answers_read_as_zero() {
    // A CIDR answer with two words: CIDR2 and CIDR3 read as zero; the class
    // comes from CIDR1.
    let answers: Vec<ReadResponse> = vec![Ok(vec![0x0D, 0xF0])];
    let mut log = ReadLog::new(&answers);
    let reader = ComponentInformationReader::new(0);
    assert_eq!(
        reader.component_class(&mut log),
        Progress::Done(Ok(RawComponent::CoreLinkOrPrimeCellOrSystemComponent))
    );
}

#[test]
fn iteration_is_depth_first() {
    let mut m = cortex_m4();
    // Replace the ITM by a nested ROM table holding a TPIU.
    m.component(0xE000_0000, 1, arm_pidr(0x4C0), 0, 0);
    m.set(0xE000_0000, 0x0004_0003);
    m.set(0xE000_0004, 0);
    m.component(0xE004_0000, 0xE, arm_pidr(0x9A1), 0x11, 0);
    let (result, _) = parse(&mut m, 0xE00F_F000);
    let root = result.unwrap();
    let mut it = root.iter();
    let mut addresses = Vec::new();
    while let Some(c) = it.next() {
        addresses.push(c.id().component_address);
    }
    // The TPIU comes through the nested table, then again as an entry of the
    // outer table, which holds the nested table's entries too.
    assert_eq!(
        addresses,
        vec![0xE00F_F000, 0xE000_E000, 0xE000_1000, 0xE000_0000, 0xE004_0000, 0xE004_0000]
    );
    assert!(it.next().is_none());
}

#[test]
fn find_component_returns_first_of_type() {
    let mut m = cortex_m4();
    let (result, _) = parse(&mut m, 0xE00F_F000);
    let root = result.unwrap();
    let dwt = root.find_component(PeripheralType::Dwt).unwrap();
    assert_eq!(dwt.id().component_address(), 0xE000_1000);
    let rom = root.find_component(PeripheralType::Rom).unwrap();
    assert_eq!(rom.id().component_address(), 0xE00F_F000);
    assert!(root.find_component(PeripheralType::Etm).is_none());
}

#[test]
fn register_address_adds_offset() {
    let mut m = cortex_m4();
    let (result, _) = parse(&mut m, 0xE00F_F000);
    let root = result.unwrap();
    let scs = root.find_component(PeripheralType::Scs).unwrap();
    assert_eq!(scs.register_address(0xD00), 0xE000_ED00);
}

#[test]
fn memory_error_duplicate_keeps_message() {
    let e = MemoryError { message: "timeout".to_string() };
    assert_eq!(e.duplicate(), e);
}

/// The Cortex-M4 like system with its ITM replaced by a nested ROM table at
/// 0xE0000000 that points to a TPIU at 0xE0040000.
fn nested_system() -> FakeMemory {
    let mut m = cortex_m4();
    m.component(0xE000_0000, 1, arm_pidr(0x4C0), 0, 0);
    m.set(0xE000_0000, 0x0004_0003);
    m.set(0xE000_0004, 0);
    m.component(0xE004_0000, 0xE, arm_pidr(0x9A1), 0x11, 0);
    m
}

#[test]
fn rom_table_entries_are_flattened_depth_first() {
    let mut m = nested_system();
    let (result, _) = parse(&mut m, 0xE00F_F000);
    match result.unwrap() {
        Component::Class1RomTable(_, table) => {
            let addresses: Vec<u64> =
                table.entries.iter().map(|e| e.component.id().component_address).collect();
            assert_eq!(addresses, vec![0xE000_E000, 0xE000_1000, 0xE000_0000, 0xE004_0000]);
            match &table.entries[2].component {
                Component::Class1RomTable(id, nested) => {
                    assert_eq!(id.component_address, 0xE000_0000);
                    assert_eq!(nested.entries.len(), 1);
                    assert_eq!(nested.entries[0].component, table.entries[3].component);
                }
                other => panic!("unexpected component {:?}", other),
            }
        }
        other => panic!("unexpected component {:?}", other),
    }
}

fn leaf_id(address: u64, class: RawComponent) -> romtable::ComponentId {
    romtable::ComponentId {
        component_address: address,
        class,
        peripheral_id: PeripheralID::from_raw(&arm_pidr(0x00C), 0, 0),
    }
}

fn entry_of(component: Component) -> romtable::RomTableEntry {
    romtable::RomTableEntry {
        power_domain_id: 0,
        power_domain_valid: false,
        format: true,
        component,
    }
}

#[test]
fn iteration_descends_into_every_nested_table() {
    // An outer table whose only entry is a table holding one component.
    let leaf = Component::GenericIPComponent(leaf_id(0x3000, RawComponent::GenericIPComponent));
    let inner = Component::Class1RomTable(
        leaf_id(0x2000, RawComponent::RomTable),
        RomTable { entries: vec![entry_of(leaf)] },
    );
    let outer = Component::Class1RomTable(
        leaf_id(0x1000, RawComponent::RomTable),
        RomTable { entries: vec![entry_of(inner)] },
    );
    let mut it = outer.iter();
    assert_eq!(it.next().unwrap().id().component_address, 0x1000);
    assert_eq!(it.next().unwrap().id().component_address, 0x2000);
    assert_eq!(it.next().unwrap().id().component_address, 0x3000);
    assert!(it.next().is_none());
    let found = outer.find_component(PeripheralType::Scs).unwrap();
    assert_eq!(found.id().component_address, 0x1000);
}

#[test]
fn find_component_reaches_nested_components() {
    let mut m = nested_system();
    let (result, _) = parse(&mut m, 0xE00F_F000);
    let root = result.unwrap();
    let tpiu = root.find_component(PeripheralType::Tpiu).unwrap();
    assert_eq!(tpiu.id().component_address, 0xE004_0000);
}

#[test]
fn part_for_designer_only_knows_arm() {
    let info = part_for_designer(Some("ARM Ltd"), 0x9A9, 0x11, 0).unwrap();
    assert_eq!(info.name(), "Cortex-M7 TPIU");
    assert_eq!(info.peripheral_type(), PeripheralType::Tpiu);
    assert!(part_for_designer(Some("Nordic VLSI ASA"), 0x9A9, 0x11, 0).is_none());
    assert!(part_for_designer(None, 0x9A9, 0x11, 0).is_none());
    assert!(part_for_designer(Some("ARM Ltd"), 0x9A9, 0x13, 0).is_none());
}

#[test]
fn part_info_display_text() {
    let info = PartInfo::new("Cortex-M4 SCS", PeripheralType::Scs);
    assert_eq!(info.display_text(), "Cortex-M4 SCS: Scs (System Control Space)");
}

#[test]
fn entry_reads_step_by_one_word() {
    let answers: Vec<ReadResponse> = vec![
        Ok(vec![0x0000_1003]),
        Err(MemoryError { message: "fault".to_string() }),
        Ok(vec![0x0000_2002]),
    ];
    let mut log = ReadLog::new(&answers);
    assert_eq!(
        RomTable::try_parse(&mut log, 0xFFFF_FFF8),
        Progress::NeedsRead(ReadRequest::Words { address: 0x0000_0004, len: 1 })
    );
    assert_eq!(log.position(), 3);
}
