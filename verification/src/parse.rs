use vstd::prelude::*;

use crate::component::{
    component_model, duplicate_entries, entries_model, lemma_entries_model_concat,
    lemma_entries_model_push, Component, ComponentModel, RawComponent, RomTable, RomTableEntry,
    TableEntryModel,
};
use crate::entry::RomTableEntryRaw;
use crate::error::RomTableError;
use crate::reader::{
    answered_words, spec_read_all, ComponentInformationReader, Progress, ReadLog, ReadRequest,
    ReadResponse,
};

verus! {

/// How many answers from `pos` on are still unused.
pub open spec fn unread(rs: Seq<ReadResponse>, pos: nat) -> int {
    if pos <= rs.len() {
        rs.len() - pos
    } else {
        0
    }
}

/// The raw entries of the ROM table at `base`, read one word at a time from
/// offset `offset` on, taking the answers from `pos` on, with the number of
/// answers used. A read that fails is passed over; the first entry that reads
/// as zero ends the table.
pub open spec fn spec_read_entries(rs: Seq<ReadResponse>, pos: nat, base: u64, offset: u64) -> (
    Progress<Seq<RomTableEntryRaw>>,
    nat,
)
    decreases unread(rs, pos),
{
    if pos < rs.len() {
        let (rest, k) = spec_read_entries(rs, pos + 1, base, offset.wrapping_add(4));
        match rs[pos as int] {
            Err(_) => (rest, k + 1),
            Ok(words) => {
                let word = answered_words(words@, 1)[0];
                if word == 0 {
                    (Progress::Done(Seq::empty()), 1)
                } else {
                    (
                        match rest {
                            Progress::NeedsRead(q) => Progress::NeedsRead(q),
                            Progress::Done(raws) => Progress::Done(
                                seq![RomTableEntryRaw::spec_new(base as u32, word)] + raws,
                            ),
                        },
                        k + 1,
                    )
                }
            },
        }
    } else {
        (
            Progress::NeedsRead(
                ReadRequest::Words { address: base.wrapping_add(offset) as u32, len: 1 },
            ),
            0,
        )
    }
}

/// Reading the entries uses at least one answer when it is done, and all of
/// them when it waits for a read.
pub proof fn lemma_read_entries_uses(rs: Seq<ReadResponse>, pos: nat, base: u64, offset: u64)
    requires
        pos <= rs.len(),
    ensures
        spec_read_entries(rs, pos, base, offset).0 is Done ==> 1 <= spec_read_entries(
            rs,
            pos,
            base,
            offset,
        ).1 && pos + spec_read_entries(rs, pos, base, offset).1 <= rs.len(),
        spec_read_entries(rs, pos, base, offset).0 is NeedsRead ==> pos + spec_read_entries(
            rs,
            pos,
            base,
            offset,
        ).1 == rs.len(),
    decreases rs.len() - pos,
{
    if pos < rs.len() {
        lemma_read_entries_uses(rs, pos + 1, base, offset.wrapping_add(4));
    }
}

/// Identifying the component uses five answers when it succeeds.
pub proof fn lemma_read_all_uses(rs: Seq<ReadResponse>, pos: nat, base: u64)
    ensures
        spec_read_all(rs, pos, base).0 matches Progress::Done(Ok(_)) ==> spec_read_all(
            rs,
            pos,
            base,
        ).1 == 5 && pos + 5 <= rs.len(),
        spec_read_all(rs, pos, base).1 <= 5,
{
}

/// The entries of the present raw entries `raws[i..]`, each with the component
/// behind it parsed from answer `pos` on, and right after an entry whose
/// component is a ROM table, that table's entries; with the number of
/// answers used.
pub open spec fn spec_parse_entries(
    rs: Seq<ReadResponse>,
    pos: nat,
    raws: Seq<RomTableEntryRaw>,
    i: nat,
) -> (Progress<Result<Seq<TableEntryModel>, RomTableError>>, nat)
    decreases unread(rs, pos), raws.len() - i + 1,
{
    if i < raws.len() {
        let raw = raws[i as int];
        if raw.entry_present {
            let (c, k) = spec_parse_component(rs, pos, raw.spec_component_address() as u64);
            match c {
                Progress::NeedsRead(q) => (Progress::NeedsRead(q), k),
                Progress::Done(Err(e)) => (Progress::Done(Err(e)), k),
                Progress::Done(Ok(component)) => {
                    let (rest, k2) = spec_parse_entries(rs, pos + k, raws, i + 1);
                    (
                        match rest {
                            Progress::NeedsRead(q) => Progress::NeedsRead(q),
                            Progress::Done(Err(e)) => Progress::Done(Err(e)),
                            Progress::Done(Ok(models)) => Progress::Done(
                                Ok(
                                    seq![
                                        TableEntryModel {
                                            power_domain_id: raw.power_domain_id,
                                            power_domain_valid: raw.power_domain_valid,
                                            format: raw.format,
                                            component,
                                        },
                                    ] + nested_entries(component) + models,
                                ),
                            ),
                        },
                        k + k2,
                    )
                },
            }
        } else {
            spec_parse_entries(rs, pos, raws, i + 1)
        }
    } else {
        (Progress::Done(Ok(Seq::empty())), 0)
    }
}

/// The entries of a component's table, if it is a ROM table.
pub open spec fn nested_entries(c: ComponentModel) -> Seq<TableEntryModel> {
    match c {
        ComponentModel::Class1RomTable(_, entries) => entries,
        _ => Seq::empty(),
    }
}

/// The ROM table at `base`: its raw entries first, then the components behind
/// the present ones, from answer `pos` on, with the number of answers used.
pub open spec fn spec_parse_table(rs: Seq<ReadResponse>, pos: nat, base: u64) -> (Progress<
    Result<Seq<TableEntryModel>, RomTableError>,
>, nat)
    decreases unread(rs, pos), 1nat,
{
    if pos <= rs.len() {
        let (e, k) = spec_read_entries(rs, pos, base, 0);
        match e {
            Progress::NeedsRead(q) => (Progress::NeedsRead(q), k),
            Progress::Done(raws) => {
                proof {
                    lemma_read_entries_uses(rs, pos, base, 0);
                }
                let (c, k2) = spec_parse_entries(rs, pos + k, raws, 0);
                (c, k + k2)
            },
        }
    } else {
        (Progress::NeedsRead(ReadRequest::Words { address: base as u32, len: 1 }), 0)
    }
}

/// The component at `base`: its identification and, for a ROM table, the
/// table at the same address, from answer `pos` on, with the number of
/// answers used.
pub open spec fn spec_parse_component(rs: Seq<ReadResponse>, pos: nat, base: u64) -> (Progress<
    Result<ComponentModel, RomTableError>,
>, nat)
    decreases unread(rs, pos), 0nat,
{
    let (p, k) = spec_read_all(rs, pos, base);
    match p {
        Progress::NeedsRead(q) => (Progress::NeedsRead(q), k),
        Progress::Done(Err(e)) => (Progress::Done(Err(e)), k),
        Progress::Done(Ok(id)) => match id.class {
            RawComponent::GenericVerificationComponent => (
                Progress::Done(Ok(ComponentModel::GenericVerificationComponent(id))),
                k,
            ),
            RawComponent::RomTable => {
                proof {
                    lemma_read_all_uses(rs, pos, base);
                }
                let (t, k2) = spec_parse_table(rs, pos + k, id.component_address);
                (
                    match t {
                        Progress::NeedsRead(q) => Progress::NeedsRead(q),
                        Progress::Done(Err(e)) => Progress::Done(Err(e)),
                        Progress::Done(Ok(entries)) => Progress::Done(
                            Ok(ComponentModel::Class1RomTable(id, entries)),
                        ),
                    },
                    k + k2,
                )
            },
            RawComponent::CoreSightComponent => (
                Progress::Done(Ok(ComponentModel::Class9RomTable(id))),
                k,
            ),
            RawComponent::PeripheralTestBlock => (
                Progress::Done(Ok(ComponentModel::PeripheralTestBlock(id))),
                k,
            ),
            RawComponent::GenericIPComponent => (
                Progress::Done(Ok(ComponentModel::GenericIPComponent(id))),
                k,
            ),
            RawComponent::CoreLinkOrPrimeCellOrSystemComponent => (
                Progress::Done(Ok(ComponentModel::CoreLinkOrPrimeCellOrSystemComponent(id))),
                k,
            ),
        },
    }
}

/// The value of the outcome of a component's parse.
pub open spec fn component_progress(p: Progress<Result<Component, RomTableError>>) -> Progress<
    Result<ComponentModel, RomTableError>,
> {
    match p {
        Progress::Done(Ok(c)) => Progress::Done(Ok(component_model(c))),
        Progress::Done(Err(e)) => Progress::Done(Err(e)),
        Progress::NeedsRead(q) => Progress::NeedsRead(q),
    }
}

/// The value of the outcome of a ROM table's parse.
pub open spec fn table_progress(p: Progress<Result<RomTable, RomTableError>>) -> Progress<
    Result<Seq<TableEntryModel>, RomTableError>,
> {
    match p {
        Progress::Done(Ok(t)) => Progress::Done(Ok(entries_model(t.entries@))),
        Progress::Done(Err(e)) => Progress::Done(Err(e)),
        Progress::NeedsRead(q) => Progress::NeedsRead(q),
    }
}

/// The entries `prefix`, followed by those that `rest` gives.
pub open spec fn prepend_raws(prefix: Seq<RomTableEntryRaw>, rest: Progress<Seq<RomTableEntryRaw>>) -> Progress<
    Seq<RomTableEntryRaw>,
> {
    match rest {
        Progress::NeedsRead(q) => Progress::NeedsRead(q),
        Progress::Done(raws) => Progress::Done(prefix + raws),
    }
}

/// The entry values `prefix`, followed by those that `rest` gives.
pub open spec fn prepend_models(
    prefix: Seq<TableEntryModel>,
    rest: Progress<Result<Seq<TableEntryModel>, RomTableError>>,
) -> Progress<Result<Seq<TableEntryModel>, RomTableError>> {
    match rest {
        Progress::NeedsRead(q) => Progress::NeedsRead(q),
        Progress::Done(Err(e)) => Progress::Done(Err(e)),
        Progress::Done(Ok(models)) => Progress::Done(Ok(prefix + models)),
    }
}

/// A reader of the entries of the ROM table at a base address.
struct RomTableReader {
    base_address: u64,
}

impl RomTableReader {
    fn new(base_address: u64) -> (r: Self)
        ensures
            r.base_address == base_address,
    {
        RomTableReader { base_address }
    }

    /// Iterates over the entries of the table, without descending into the
    /// components behind them.
    fn entries(&self) -> (r: RomTableIterator)
        ensures
            r.base_address == self.base_address,
            r.offset == 0,
            r.calls@ == 0,
            r.well_formed(),
    {
        RomTableIterator::new(self)
    }
}

/// The address of the `k`-th word of the ROM table at `base` (from 0): the
/// base address plus four bytes per word, modulo 2^32.
pub open spec fn entry_address(base: u64, k: nat) -> u32 {
    ((base as int + 4 * k) % 0x1_0000_0000) as u32
}

/// Adding four to an offset congruent to `4k` gives one congruent to `4(k+1)`.
proof fn lemma_entry_offset_step(offset: u64, k: nat)
    requires
        (offset as int) % 0x1_0000_0000 == (4 * k) % 0x1_0000_0000,
    ensures
        (offset.wrapping_add(4) as int) % 0x1_0000_0000 == (4 * (k + 1)) % 0x1_0000_0000,
{
    let m: int = 0x1_0000_0000;
    vstd::arithmetic::div_mod::lemma_add_mod_noop(offset as int, 4, m);
    vstd::arithmetic::div_mod::lemma_add_mod_noop(4 * k as int, 4, m);
    if offset as int + 4 > u64::MAX {
        vstd::arithmetic::div_mod::lemma_mod_multiples_vanish(-m, offset as int + 4, m);
        assert(offset.wrapping_add(4) as int == m * (-m) + (offset as int + 4));
    }
}

/// The word at an offset congruent to `4k` is the `k`-th word of the table.
proof fn lemma_entry_offset_address(base: u64, offset: u64, k: nat)
    requires
        (offset as int) % 0x1_0000_0000 == (4 * k) % 0x1_0000_0000,
    ensures
        base.wrapping_add(offset) as u32 == entry_address(base, k),
{
    let m: int = 0x1_0000_0000;
    assert(base.wrapping_add(offset) as u32 == ((base + offset) % 0x1_0000_0000) as u32)
        by (bit_vector);
    vstd::arithmetic::div_mod::lemma_add_mod_noop(base as int, offset as int, m);
    vstd::arithmetic::div_mod::lemma_add_mod_noop(base as int, 4 * k as int, m);
}

/// Walks the entries of a ROM table, one 32-bit word at a time.
struct RomTableIterator {
    base_address: u64,
    offset: u64,
    /// How many times `next` has been called.
    calls: Ghost<nat>,
}

impl RomTableIterator {
    /// The offset is four bytes per call, modulo 2^32.
    spec fn well_formed(self) -> bool {
        (self.offset as int) % 0x1_0000_0000 == (4 * self.calls@) % 0x1_0000_0000
    }

    fn new(reader: &RomTableReader) -> (r: Self)
        ensures
            r.base_address == reader.base_address,
            r.offset == 0,
            r.calls@ == 0,
            r.well_formed(),
    {
        RomTableIterator { base_address: reader.base_address, offset: 0, calls: Ghost(0) }
    }

    /// Reads the next entry: `None` at the terminating zero entry, the
    /// memory error of a failed read, or the decoded entry. The `k`-th call
    /// (from 0), whatever the earlier ones gave, reads the single word at
    /// `entry_address(base, k)`: it takes the next answer as that read's
    /// answer, or asks for the read. It writes nothing.
    fn next(&mut self, memory: &mut ReadLog) -> (r: Progress<
        Option<Result<RomTableEntryRaw, RomTableError>>,
    >)
        requires
            old(self).well_formed(),
        ensures
            final(self).well_formed(),
            final(self).calls@ == old(self).calls@ + 1,
            final(memory).answers() == old(memory).answers(),
            final(self).base_address == old(self).base_address,
            final(self).offset == old(self).offset.wrapping_add(4),
            old(self).base_address.wrapping_add(old(self).offset) as u32 == entry_address(
                old(self).base_address,
                old(self).calls@,
            ),
            old(memory).consumed() < old(memory).answers().len() ==> {
                &&& final(memory).consumed() == old(memory).consumed() + 1
                &&& r == Progress::Done(
                    match old(memory).answers()[old(memory).consumed() as int] {
                        Err(e) => Some(Err(RomTableError::Memory(e))),
                        Ok(words) => {
                            let word = answered_words(words@, 1)[0];
                            if word == 0 {
                                None
                            } else {
                                Some(
                                    Ok(
                                        RomTableEntryRaw::spec_new(
                                            old(self).base_address as u32,
                                            word,
                                        ),
                                    ),
                                )
                            }
                        },
                    },
                )
            },
            old(memory).consumed() >= old(memory).answers().len() ==> {
                &&& final(memory).consumed() == old(memory).consumed()
                &&& r == Progress::<Option<Result<RomTableEntryRaw, RomTableError>>>::NeedsRead(
                    ReadRequest::Words {
                        address: old(self).base_address.wrapping_add(old(self).offset) as u32,
                        len: 1,
                    },
                )
            },
    {
        proof {
            lemma_entry_offset_step(self.offset, self.calls@);
            lemma_entry_offset_address(self.base_address, self.offset, self.calls@);
        }
        let component_address = self.base_address.wrapping_add(self.offset);
        self.offset = self.offset.wrapping_add(4);
        self.calls = Ghost(self.calls@ + 1);
        match memory.read_32(component_address as u32, 1) {
            Progress::NeedsRead(q) => Progress::NeedsRead(q),
            Progress::Done(Err(e)) => Progress::Done(Some(Err(RomTableError::Memory(e)))),
            Progress::Done(Ok(entry_data)) => {
                // The list of entries ends at an all-zero entry.
                if entry_data[0] == 0 {
                    Progress::Done(None)
                } else {
                    Progress::Done(
                        Some(Ok(RomTableEntryRaw::new(self.base_address as u32, entry_data[0]))),
                    )
                }
            },
        }
    }
}

impl RomTable {
    /// Parses the ROM table at `base_address`: reads its entries up to the
    /// terminating zero entry, passing over those that cannot be read, then
    /// parses the component behind each present entry, in table order.
    pub fn try_parse(memory: &mut ReadLog, base_address: u64) -> (r: Progress<
        Result<RomTable, RomTableError>,
    >)
        ensures
            final(memory).answers() == old(memory).answers(),
            (table_progress(r), (final(memory).consumed() - old(memory).consumed()) as nat)
                == spec_parse_table(old(memory).answers(), old(memory).consumed(), base_address),
            old(memory).consumed() <= final(memory).consumed() <= final(memory).answers().len(),
        decreases old(memory).answers().len() - old(memory).consumed(), 1nat,
    {
        proof {
            use_type_invariant(&*memory);
            memory.lemma_consumed_bounded();
        }
        let ghost rs = memory.answers();
        let ghost pos0 = memory.consumed();
        let reader = RomTableReader::new(base_address);
        let mut iter = reader.entries();
        let mut raws: Vec<RomTableEntryRaw> = Vec::new();
        proof {
            assert(raws@ + spec_read_entries(rs, pos0, base_address, 0).0->Done_0
                =~= spec_read_entries(rs, pos0, base_address, 0).0->Done_0);
        }
        loop
            invariant_except_break
                pos0 <= memory.consumed() <= rs.len(),
                spec_read_entries(rs, pos0, base_address, 0) == (
                    prepend_raws(
                        raws@,
                        spec_read_entries(rs, memory.consumed(), base_address, iter.offset).0,
                    ),
                    ((memory.consumed() - pos0) + spec_read_entries(
                        rs,
                        memory.consumed(),
                        base_address,
                        iter.offset,
                    ).1) as nat,
                ),
            invariant
                rs == old(memory).answers(),
                pos0 == old(memory).consumed(),
                memory.answers() == rs,
                iter.base_address == base_address,
                iter.well_formed(),
            ensures
                rs == old(memory).answers(),
                pos0 == old(memory).consumed(),
                memory.answers() == rs,
                pos0 < memory.consumed() <= rs.len(),
                spec_read_entries(rs, pos0, base_address, 0) == (
                    Progress::Done(raws@),
                    (memory.consumed() - pos0) as nat,
                ),
            decreases rs.len() - memory.consumed(),
        {
            let ghost pos = memory.consumed();
            let ghost offset = iter.offset;
            let ghost before = raws@;
            match iter.next(memory) {
                Progress::NeedsRead(q) => {
                    return Progress::NeedsRead(q);
                },
                Progress::Done(None) => {
                    assert(before + Seq::<RomTableEntryRaw>::empty() =~= before);
                    break ;
                },
                Progress::Done(Some(Ok(raw))) => {
                    raws.push(raw);
                    proof {
                        let rest = spec_read_entries(rs, pos + 1, base_address, iter.offset).0;
                        if rest is Done {
                            assert(before + (seq![raw] + rest->Done_0) =~= raws@ + rest->Done_0);
                        }
                    }
                },
                Progress::Done(Some(Err(_))) => {},
            }
        }
        proof {
            lemma_read_entries_uses(rs, pos0, base_address, 0);
        }
        let ghost pos_a = memory.consumed();
        let mut entries: Vec<RomTableEntry> = Vec::new();
        let mut i: usize = 0;
        proof {
            let start = spec_parse_entries(rs, pos_a, raws@, 0).0;
            if let Progress::Done(Ok(models)) = start {
                assert(entries_model(entries@) + models =~= models);
            }
        }
        while i < raws.len()
            invariant
                rs == old(memory).answers(),
                pos0 == old(memory).consumed(),
                memory.answers() == rs,
                i <= raws.len(),
                pos0 < pos_a <= memory.consumed() <= rs.len(),
                spec_read_entries(rs, pos0, base_address, 0) == (
                    Progress::Done(raws@),
                    (pos_a - pos0) as nat,
                ),
                spec_parse_entries(rs, pos_a, raws@, 0) == (
                    prepend_models(
                        entries_model(entries@),
                        spec_parse_entries(rs, memory.consumed(), raws@, i as nat).0,
                    ),
                    ((memory.consumed() - pos_a) + spec_parse_entries(
                        rs,
                        memory.consumed(),
                        raws@,
                        i as nat,
                    ).1) as nat,
                ),
            decreases raws.len() - i,
        {
            let raw = raws[i];
            if raw.entry_present {
                let ghost pos = memory.consumed();
                let address = raw.component_address();
                let component = match Component::try_parse(memory, address as u64) {
                    Progress::NeedsRead(q) => {
                        return Progress::NeedsRead(q);
                    },
                    Progress::Done(Err(e)) => {
                        return Progress::Done(Err(e));
                    },
                    Progress::Done(Ok(component)) => component,
                };
                let ghost before = entries@;
                let mut nested = match &component {
                    Component::Class1RomTable(_, table) => duplicate_entries(&table.entries),
                    _ => Vec::new(),
                };
                let ghost nested_copy = nested@;
                proof {
                    if !(component is Class1RomTable) {
                        assert(entries_model(nested_copy) =~= Seq::<TableEntryModel>::empty());
                    }
                }
                let entry = RomTableEntry {
                    power_domain_id: raw.power_domain_id,
                    power_domain_valid: raw.power_domain_valid,
                    format: raw.format,
                    component,
                };
                entries.push(entry);
                let ghost pushed = entries@;
                entries.append(&mut nested);
                proof {
                    lemma_entries_model_push(before, entry);
                    lemma_entries_model_concat(pushed, nested_copy);
                    let m = TableEntryModel {
                        power_domain_id: raw.power_domain_id,
                        power_domain_valid: raw.power_domain_valid,
                        format: raw.format,
                        component: component_model(entry.component),
                    };
                    assert(entries_model(nested_copy) == nested_entries(
                        component_model(entry.component),
                    ));
                    let rest = spec_parse_entries(rs, memory.consumed(), raws@, (i + 1) as nat).0;
                    if let Progress::Done(Ok(models)) = rest {
                        assert(entries_model(before) + (seq![m] + nested_entries(
                            component_model(entry.component),
                        ) + models) =~= entries_model(entries@) + models);
                    }
                }
            }
            i = i + 1;
        }
        proof {
            assert(entries_model(entries@) + Seq::<TableEntryModel>::empty() =~= entries_model(
                entries@,
            ));
        }
        Progress::Done(Ok(RomTable { entries }))
    }
}

impl Component {
    /// Parses the CoreSight component at `baseaddr`: reads its identification
    /// registers and, for a ROM table, the table at the same address.
    pub fn try_parse(memory: &mut ReadLog, baseaddr: u64) -> (r: Progress<
        Result<Component, RomTableError>,
    >)
        ensures
            final(memory).answers() == old(memory).answers(),
            (component_progress(r), (final(memory).consumed() - old(memory).consumed()) as nat)
                == spec_parse_component(old(memory).answers(), old(memory).consumed(), baseaddr),
            old(memory).consumed() <= final(memory).consumed() <= final(memory).answers().len(),
        decreases old(memory).answers().len() - old(memory).consumed(), 0nat,
    {
        proof {
            use_type_invariant(&*memory);
            memory.lemma_consumed_bounded();
            lemma_read_all_uses(memory.answers(), memory.consumed(), baseaddr);
        }
        let component_id = match ComponentInformationReader::new(baseaddr).read_all(memory) {
            Progress::NeedsRead(q) => {
                return Progress::NeedsRead(q);
            },
            Progress::Done(Err(e)) => {
                return Progress::Done(Err(e));
            },
            Progress::Done(Ok(component_id)) => component_id,
        };
        proof {
            use_type_invariant(&*memory);
            memory.lemma_consumed_bounded();
        }
        let class = match component_id.class {
            RawComponent::GenericVerificationComponent => {
                Component::GenericVerificationComponent(component_id)
            },
            RawComponent::RomTable => {
                let rom_table = match RomTable::try_parse(
                    memory,
                    component_id.component_address,
                ) {
                    Progress::NeedsRead(q) => {
                        return Progress::NeedsRead(q);
                    },
                    Progress::Done(Err(e)) => {
                        return Progress::Done(Err(e));
                    },
                    Progress::Done(Ok(rom_table)) => rom_table,
                };
                Component::Class1RomTable(component_id, rom_table)
            },
            RawComponent::CoreSightComponent => Component::Class9RomTable(component_id),
            RawComponent::PeripheralTestBlock => Component::PeripheralTestBlock(component_id),
            RawComponent::GenericIPComponent => Component::GenericIPComponent(component_id),
            RawComponent::CoreLinkOrPrimeCellOrSystemComponent => {
                Component::CoreLinkOrPrimeCellOrSystemComponent(component_id)
            },
        };
        Progress::Done(Ok(class))
    }
}

} // verus!
