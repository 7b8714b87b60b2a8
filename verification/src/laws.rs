use vstd::prelude::*;

use crate::component::{ComponentModel, RawComponent};
use crate::error::RomTableError;
use crate::parse::{
    lemma_read_all_uses, lemma_read_entries_uses, spec_parse_component, spec_parse_entries,
    spec_parse_table, spec_read_entries, unread,
};
use crate::entry::RomTableEntryRaw;
use crate::reader::{spec_read_all, Progress, ReadRequest, ReadResponse};

verus! {

/// `longer` starts with the answers of `shorter`.
pub open spec fn extends(longer: Seq<ReadResponse>, shorter: Seq<ReadResponse>) -> bool {
    &&& shorter.len() <= longer.len()
    &&& forall|i: int| 0 <= i < shorter.len() ==> longer[i] == shorter[i]
}

proof fn lemma_read_all_final(rs: Seq<ReadResponse>, rs2: Seq<ReadResponse>, pos: nat, base: u64)
    requires
        extends(rs2, rs),
        pos <= rs.len(),
    ensures
        spec_read_all(rs, pos, base).0 is Done ==> spec_read_all(rs2, pos, base) == spec_read_all(
            rs,
            pos,
            base,
        ) && pos + spec_read_all(rs, pos, base).1 <= rs.len(),
        spec_read_all(rs, pos, base).0 is NeedsRead ==> pos + spec_read_all(rs, pos, base).1
            == rs.len(),
{
}

proof fn lemma_read_entries_final(
    rs: Seq<ReadResponse>,
    rs2: Seq<ReadResponse>,
    pos: nat,
    base: u64,
    offset: u64,
)
    requires
        extends(rs2, rs),
        pos <= rs.len(),
    ensures
        spec_read_entries(rs, pos, base, offset).0 is Done ==> spec_read_entries(
            rs2,
            pos,
            base,
            offset,
        ) == spec_read_entries(rs, pos, base, offset),
    decreases rs.len() - pos,
{
    if pos < rs.len() {
        lemma_read_entries_final(rs, rs2, pos + 1, base, offset.wrapping_add(4));
        assert(rs2[pos as int] == rs[pos as int]);
    }
}

proof fn lemma_parse_component_final(
    rs: Seq<ReadResponse>,
    rs2: Seq<ReadResponse>,
    pos: nat,
    base: u64,
)
    requires
        extends(rs2, rs),
        pos <= rs.len(),
    ensures
        spec_parse_component(rs, pos, base).0 is Done ==> spec_parse_component(rs2, pos, base)
            == spec_parse_component(rs, pos, base) && pos + spec_parse_component(rs, pos, base).1
            <= rs.len(),
        spec_parse_component(rs, pos, base).0 is NeedsRead ==> pos + spec_parse_component(
            rs,
            pos,
            base,
        ).1 == rs.len(),
    decreases unread(rs, pos), 0nat,
{
    lemma_read_all_final(rs, rs2, pos, base);
    lemma_read_all_uses(rs, pos, base);
    let (p, k) = spec_read_all(rs, pos, base);
    if let Progress::Done(Ok(id)) = p {
        if id.class == RawComponent::RomTable {
            lemma_parse_table_final(rs, rs2, pos + k, id.component_address);
        }
    }
}

proof fn lemma_parse_table_final(rs: Seq<ReadResponse>, rs2: Seq<ReadResponse>, pos: nat, base: u64)
    requires
        extends(rs2, rs),
        pos <= rs.len(),
    ensures
        spec_parse_table(rs, pos, base).0 is Done ==> spec_parse_table(rs2, pos, base)
            == spec_parse_table(rs, pos, base) && pos + spec_parse_table(rs, pos, base).1
            <= rs.len(),
        spec_parse_table(rs, pos, base).0 is NeedsRead ==> pos + spec_parse_table(rs, pos, base).1
            == rs.len(),
    decreases unread(rs, pos), 1nat,
{
    lemma_read_entries_final(rs, rs2, pos, base, 0);
    lemma_read_entries_uses(rs, pos, base, 0);
    let (e, k) = spec_read_entries(rs, pos, base, 0);
    if let Progress::Done(raws) = e {
        lemma_parse_entries_final(rs, rs2, pos + k, raws, 0);
    }
}

proof fn lemma_parse_entries_final(
    rs: Seq<ReadResponse>,
    rs2: Seq<ReadResponse>,
    pos: nat,
    raws: Seq<RomTableEntryRaw>,
    i: nat,
)
    requires
        extends(rs2, rs),
        pos <= rs.len(),
    ensures
        spec_parse_entries(rs, pos, raws, i).0 is Done ==> spec_parse_entries(rs2, pos, raws, i)
            == spec_parse_entries(rs, pos, raws, i) && pos + spec_parse_entries(rs, pos, raws, i).1
            <= rs.len(),
        spec_parse_entries(rs, pos, raws, i).0 is NeedsRead ==> pos + spec_parse_entries(
            rs,
            pos,
            raws,
            i,
        ).1 == rs.len(),
    decreases unread(rs, pos), raws.len() - i + 1,
{
    if i < raws.len() {
        let raw = raws[i as int];
        if raw.entry_present {
            let address = raw.spec_component_address() as u64;
            lemma_parse_component_final(rs, rs2, pos, address);
            let (c, k) = spec_parse_component(rs, pos, address);
            if c matches Progress::Done(Ok(_)) {
                lemma_parse_entries_final(rs, rs2, pos + k, raws, i + 1);
            }
        } else {
            lemma_parse_entries_final(rs, rs2, pos, raws, i + 1);
        }
    }
}

/// Reading a table's entries from offset `offset`, after the answers from
/// `pos` on, asks for the one word at the base address plus the offset plus
/// four bytes per answer used, modulo 2^32.
proof fn lemma_entry_read_address(rs: Seq<ReadResponse>, pos: nat, base: u64, offset: u64)
    requires
        pos <= rs.len(),
    ensures
        spec_read_entries(rs, pos, base, offset).0 is NeedsRead ==> spec_read_entries(
            rs,
            pos,
            base,
            offset,
        ).0 == Progress::<Seq<RomTableEntryRaw>>::NeedsRead(
            ReadRequest::Words {
                address: ((base as int + offset as int + 4 * (rs.len() - pos)) % 0x1_0000_0000) as u32,
                len: 1,
            },
        ),
    decreases rs.len() - pos,
{
    if pos < rs.len() {
        let next = offset.wrapping_add(4);
        lemma_entry_read_address(rs, pos + 1, base, next);
        let rest = 4 * (rs.len() - pos - 1);
        if offset as int + 4 > u64::MAX {
            assert(next as int == offset as int + 4 - 0x1_0000_0000_0000_0000);
            vstd::arithmetic::div_mod::lemma_mod_multiples_vanish(
                -0x1_0000_0000,
                base as int + offset as int + 4 + rest,
                0x1_0000_0000,
            );
            assert(base as int + next as int + rest == 0x1_0000_0000 * (-0x1_0000_0000)
                + (base as int + offset as int + 4 + rest));
        }
    } else {
        assert(base.wrapping_add(offset) as u32 == ((base + offset) % 0x1_0000_0000) as u32)
            by (bit_vector);
    }
}

/// Reading a ROM table's entries uses one answer per word: when it waits
/// after `k` answers, it asks for the single word at the table's base
/// address plus `4 * k`, modulo 2^32.
pub proof fn law_entry_reads_step_by_word(answers: Seq<ReadResponse>, base: u64)
    requires
        spec_read_entries(answers, 0, base, 0).0 is NeedsRead,
    ensures
        spec_read_entries(answers, 0, base, 0).1 == answers.len(),
        spec_read_entries(answers, 0, base, 0).0 == Progress::<Seq<RomTableEntryRaw>>::NeedsRead(
            ReadRequest::Words {
                address: ((base as int + 4 * answers.len()) % 0x1_0000_0000) as u32,
                len: 1,
            },
        ),
{
    lemma_entry_read_address(answers, 0, base, 0);
    lemma_read_entries_uses(answers, 0, base, 0);
}

/// Once the parse of a component is done, further answers change neither its
/// result nor the answers it used, and it used no more answers than it had.
pub proof fn law_finished_parse_is_final(
    answers: Seq<ReadResponse>,
    more: Seq<ReadResponse>,
    base: u64,
)
    requires
        spec_parse_component(answers, 0, base).0 is Done,
    ensures
        spec_parse_component(answers + more, 0, base) == spec_parse_component(answers, 0, base),
        spec_parse_component(answers, 0, base).1 <= answers.len(),
{
    lemma_parse_component_final(answers, answers + more, 0, base);
}

/// A parse that waits for a read has used every answer given to it: the
/// next answer is the one to the read it asks for.
pub proof fn law_waiting_parse_used_all(answers: Seq<ReadResponse>, base: u64)
    requires
        spec_parse_component(answers, 0, base).0 is NeedsRead,
    ensures
        spec_parse_component(answers, 0, base).1 == answers.len(),
{
    lemma_parse_component_final(answers, answers, 0, base);
}

/// The answers that `memory` gives over `n` rounds of the loop that drives
/// the parse of the component at `base`: each round parses the answers so
/// far and, when the parse waits for a read, appends the memory's answer to
/// that read.
pub open spec fn answers_from(
    memory: spec_fn(ReadRequest) -> ReadResponse,
    base: u64,
    n: nat,
) -> Seq<ReadResponse>
    decreases n,
{
    if n == 0 {
        Seq::empty()
    } else {
        let before = answers_from(memory, base, (n - 1) as nat);
        match spec_parse_component(before, 0, base).0 {
            Progress::NeedsRead(q) => before.push(memory(q)),
            Progress::Done(_) => before,
        }
    }
}

/// Each of `answers` is what `memory` answers to the read that the parse of
/// the component at `base` asks for after the answers before it.
pub open spec fn answered_by(
    memory: spec_fn(ReadRequest) -> ReadResponse,
    base: u64,
    answers: Seq<ReadResponse>,
) -> bool {
    forall|k: int|
        0 <= k < answers.len() ==> {
            &&& spec_parse_component(answers.take(k), 0, base).0 is NeedsRead
            &&& #[trigger] answers[k] == memory(
                spec_parse_component(answers.take(k), 0, base).0->NeedsRead_0,
            )
        }
}

/// Every round of the loop that feeds a memory's answers to a parse uses one
/// more answer until the parse is done: after `n` rounds the answers are the
/// memory's answers to the parse's reads, and a parse that still waits has
/// used `n` of them.
pub proof fn law_each_round_uses_one_answer(
    memory: spec_fn(ReadRequest) -> ReadResponse,
    base: u64,
    n: nat,
)
    ensures
        answered_by(memory, base, answers_from(memory, base, n)),
        spec_parse_component(answers_from(memory, base, n), 0, base).0 is NeedsRead
            ==> answers_from(memory, base, n).len() == n,
    decreases n,
{
    if n > 0 {
        let before = answers_from(memory, base, (n - 1) as nat);
        law_each_round_uses_one_answer(memory, base, (n - 1) as nat);
        let now = answers_from(memory, base, n);
        if let Progress::NeedsRead(q) = spec_parse_component(before, 0, base).0 {
            assert(now == before.push(memory(q)));
            lemma_answered_by_push(memory, base, before, q);
        }
    }
}

/// Appending the memory's answer to the read that a waiting parse asks for
/// keeps the answers those of the memory.
#[verifier::rlimit(40)]
proof fn lemma_answered_by_push(
    memory: spec_fn(ReadRequest) -> ReadResponse,
    base: u64,
    before: Seq<ReadResponse>,
    q: ReadRequest,
)
    requires
        answered_by(memory, base, before),
        spec_parse_component(before, 0, base).0 == Progress::<
            Result<ComponentModel, RomTableError>,
        >::NeedsRead(q),
    ensures
        answered_by(memory, base, before.push(memory(q))),
{
    let now = before.push(memory(q));
    assert forall|k: int| 0 <= k < now.len() implies {
        &&& spec_parse_component(now.take(k), 0, base).0 is NeedsRead
        &&& #[trigger] now[k] == memory(
            spec_parse_component(now.take(k), 0, base).0->NeedsRead_0,
        )
    } by {
        if k < before.len() {
            assert(now.take(k) =~= before.take(k));
            assert(now[k] == before[k]);
        } else {
            assert(now.take(k) =~= before);
        }
    }
}

/// A memory whose answers bring the parse of the component at `base` to an
/// end, after `answers`, ends the loop that feeds them: after as many rounds
/// as there are answers, the loop holds exactly these answers, and the parse
/// is done with the same result. With the previous law, the loop ends exactly
/// when such answers exist.
pub proof fn law_finished_answers_end_the_loop(
    memory: spec_fn(ReadRequest) -> ReadResponse,
    base: u64,
    answers: Seq<ReadResponse>,
)
    requires
        answered_by(memory, base, answers),
        spec_parse_component(answers, 0, base).0 is Done,
    ensures
        answers_from(memory, base, answers.len()) == answers,
        spec_parse_component(answers_from(memory, base, answers.len()), 0, base)
            == spec_parse_component(answers, 0, base),
{
    lemma_answers_from_prefix(memory, base, answers, answers.len());
    assert(answers.take(answers.len() as int) =~= answers);
}

/// The loop's answers after `k` rounds are the first `k` of answers that the
/// memory gives to the parse's reads.
proof fn lemma_answers_from_prefix(
    memory: spec_fn(ReadRequest) -> ReadResponse,
    base: u64,
    answers: Seq<ReadResponse>,
    k: nat,
)
    requires
        answered_by(memory, base, answers),
        k <= answers.len(),
    ensures
        answers_from(memory, base, k) == answers.take(k as int),
    decreases k,
{
    if k == 0 {
        assert(answers.take(0) =~= Seq::<ReadResponse>::empty());
    } else {
        let j = (k - 1) as int;
        lemma_answers_from_prefix(memory, base, answers, (k - 1) as nat);
        assert(answers[j] == memory(spec_parse_component(answers.take(j), 0, base).0->NeedsRead_0));
        assert(answers.take(j).push(answers[j]) =~= answers.take(k as int));
    }
}

} // verus!
