use vstd::prelude::*;

use crate::component::{spec_raw_component, ComponentId, RawComponent};
use crate::error::{MemoryError, RomTableError};
use crate::peripheral::{peripheral_id_from_words, PeripheralID};

verus! {

/// A read of target memory that a parse needs answered.
#[derive(Debug, Clone, Copy, PartialEq, Eq, Structural)]
pub enum ReadRequest {
    /// Read `len` consecutive 32-bit words from `address` on.
    Words { address: u32, len: usize },
    /// Read the 32-bit word at `address`.
    Word { address: u32 },
}

/// The answer to a read: the words read, or the error that the read reported.
pub type ReadResponse = Result<Vec<u32>, MemoryError>;

/// Where a parse stands: finished with a value, or waiting for a read.
#[derive(Debug, PartialEq, Eq)]
pub enum Progress<T> {
    Done(T),
    NeedsRead(ReadRequest),
}

/// The answers given so far to the reads of a parse, in the order of the
/// reads, and how many of them the parse has used.
pub struct ReadLog<'a> {
    pub(crate) responses: &'a [ReadResponse],
    pub(crate) position: usize,
}

/// The words that answer a read of `len` words: those the answer holds, and
/// zeros where it holds fewer.
pub open spec fn answered_words(words: Seq<u32>, len: nat) -> Seq<u32> {
    Seq::new(len, |i: int| if i < words.len() { words[i] } else { 0u32 })
}

/// The outcome of a read of `len` words at `address` that takes answer `pos`.
pub open spec fn spec_read_words(rs: Seq<ReadResponse>, pos: nat, address: u32, len: usize) -> Progress<
    Result<Seq<u32>, MemoryError>,
> {
    if pos < rs.len() {
        Progress::Done(
            match rs[pos as int] {
                Ok(words) => Ok(answered_words(words@, len as nat)),
                Err(e) => Err(e),
            },
        )
    } else {
        Progress::NeedsRead(ReadRequest::Words { address, len })
    }
}

/// The outcome of a read of one word at `address` that takes answer `pos`.
pub open spec fn spec_read_word(rs: Seq<ReadResponse>, pos: nat, address: u32) -> Progress<
    Result<u32, MemoryError>,
> {
    if pos < rs.len() {
        Progress::Done(
            match rs[pos as int] {
                Ok(words) => Ok(answered_words(words@, 1)[0]),
                Err(e) => Err(e),
            },
        )
    } else {
        Progress::NeedsRead(ReadRequest::Word { address })
    }
}

/// The words that a read of target memory gave, as a sequence.
pub open spec fn words_progress(p: Progress<Result<Vec<u32>, MemoryError>>) -> Progress<
    Result<Seq<u32>, MemoryError>,
> {
    match p {
        Progress::Done(Ok(v)) => Progress::Done(Ok(v@)),
        Progress::Done(Err(e)) => Progress::Done(Err(e)),
        Progress::NeedsRead(q) => Progress::NeedsRead(q),
    }
}

impl<'a> ReadLog<'a> {
    #[verifier::type_invariant]
    pub(crate) open spec fn well_formed(self) -> bool {
        self.position <= self.responses.len()
    }

    /// The answers given so far, in the order of the reads.
    pub closed spec fn answers(self) -> Seq<ReadResponse> {
        self.responses@
    }

    /// How many of the answers the parse has used.
    pub closed spec fn consumed(self) -> nat {
        self.position as nat
    }

    /// The log never uses more answers than it holds.
    pub(crate) proof fn lemma_consumed_bounded(self)
        requires
            self.well_formed(),
        ensures
            self.consumed() <= self.answers().len(),
    {
    }

    /// Creates a log of the given answers, none of them used yet.
    pub fn new(responses: &'a [ReadResponse]) -> (r: Self)
        ensures
            r.answers() == responses@,
            r.consumed() == 0,
    {
        ReadLog { responses, position: 0 }
    }

    /// How many of the answers the parse has used.
    pub fn position(&self) -> (r: usize)
        ensures
            r == self.consumed(),
            r <= self.answers().len(),
    {
        proof {
            use_type_invariant(self);
        }
        self.position
    }

    /// Reads `len` words at `address`: takes the next answer, or asks for it.
    pub(crate) fn read_32(&mut self, address: u32, len: usize) -> (r: Progress<Result<Vec<u32>, MemoryError>>)
        ensures
            final(self).answers() == old(self).answers(),
            words_progress(r) == spec_read_words(
                old(self).answers(),
                old(self).consumed(),
                address,
                len,
            ),
            final(self).consumed() == old(self).consumed() + if r is Done {
                1nat
            } else {
                0nat
            },
    {
        proof {
            use_type_invariant(&*self);
        }
        if self.position < self.responses.len() {
            let answer = match &self.responses[self.position] {
                Ok(words) => {
                    let mut v: Vec<u32> = Vec::new();
                    let mut i: usize = 0;
                    while i < len
                        invariant
                            i <= len,
                            v@.len() == i,
                            forall|j: int|
                                0 <= j < i ==> v@[j] == answered_words(words@, len as nat)[j],
                        decreases len - i,
                    {
                        if i < words.len() {
                            v.push(words[i]);
                        } else {
                            v.push(0);
                        }
                        i = i + 1;
                    }
                    assert(v@ =~= answered_words(words@, len as nat));
                    Ok(v)
                },
                Err(e) => Err(e.duplicate()),
            };
            self.position = self.position + 1;
            Progress::Done(answer)
        } else {
            Progress::NeedsRead(ReadRequest::Words { address, len })
        }
    }

    /// Reads the word at `address`: takes the next answer, or asks for it.
    pub(crate) fn read_word_32(&mut self, address: u32) -> (r: Progress<Result<u32, MemoryError>>)
        ensures
            final(self).answers() == old(self).answers(),
            r == spec_read_word(old(self).answers(), old(self).consumed(), address),
            final(self).consumed() == old(self).consumed() + if r is Done {
                1nat
            } else {
                0nat
            },
    {
        proof {
            use_type_invariant(&*self);
        }
        if self.position < self.responses.len() {
            let answer = match &self.responses[self.position] {
                Ok(words) => {
                    if words.len() > 0 {
                        Ok(words[0])
                    } else {
                        Ok(0)
                    }
                },
                Err(e) => Err(e.duplicate()),
            };
            self.position = self.position + 1;
            Progress::Done(answer)
        } else {
            Progress::NeedsRead(ReadRequest::Word { address })
        }
    }
}

/// The address of the register at `offset` in the block of a component at `base`.
pub open spec fn register_address(base: u64, offset: u32) -> u32 {
    (base as u32).wrapping_add(offset)
}

/// The architecture id that the DEVARCH word holds: its low half when its
/// presence bit (bit 20) is set, else 0.
pub open spec fn spec_arch_id(devarch: u32) -> u16 {
    if (devarch / 0x10_0000) % 2 == 1 {
        (devarch % 0x1_0000) as u16
    } else {
        0
    }
}

/// The class of the component at `base`, from its CIDR block (at 0xFF0),
/// reading from answer `pos` on. It uses one answer when it is done.
pub open spec fn spec_component_class(rs: Seq<ReadResponse>, pos: nat, base: u64) -> Progress<
    Result<RawComponent, RomTableError>,
> {
    match spec_read_words(rs, pos, register_address(base, 0xFF0), 4) {
        Progress::NeedsRead(q) => Progress::NeedsRead(q),
        Progress::Done(Err(e)) => Progress::Done(Err(RomTableError::Memory(e))),
        Progress::Done(Ok(cidr)) => Progress::Done(
            match spec_raw_component((cidr[1] / 16) % 16) {
                Some(c) => Ok(c),
                None => Err(RomTableError::CSComponentIdentification),
            },
        ),
    }
}

/// The peripheral ID of the component at `base`, from its PIDR4..7 (at
/// 0xFD0), PIDR0..3 (at 0xFE0), DEVTYPE (at 0xFCC) and DEVARCH (at 0xFBC)
/// registers, read in that order from answer `pos` on, with the number of
/// answers used.
pub open spec fn spec_read_peripheral_id(rs: Seq<ReadResponse>, pos: nat, base: u64) -> (Progress<
    Result<PeripheralID, RomTableError>,
>, nat) {
    match spec_read_words(rs, pos, register_address(base, 0xFD0), 4) {
        Progress::NeedsRead(q) => (Progress::NeedsRead(q), 0),
        Progress::Done(Err(e)) => (Progress::Done(Err(RomTableError::Memory(e))), 1),
        Progress::Done(Ok(high)) => match spec_read_words(
            rs,
            pos + 1,
            register_address(base, 0xFE0),
            4,
        ) {
            Progress::NeedsRead(q) => (Progress::NeedsRead(q), 1),
            Progress::Done(Err(e)) => (Progress::Done(Err(RomTableError::Memory(e))), 2),
            Progress::Done(Ok(low)) => match spec_read_word(
                rs,
                pos + 2,
                register_address(base, 0xFCC),
            ) {
                Progress::NeedsRead(q) => (Progress::NeedsRead(q), 2),
                Progress::Done(Err(e)) => (Progress::Done(Err(RomTableError::Memory(e))), 3),
                Progress::Done(Ok(devtype)) => match spec_read_word(
                    rs,
                    pos + 3,
                    register_address(base, 0xFBC),
                ) {
                    Progress::NeedsRead(q) => (Progress::NeedsRead(q), 3),
                    Progress::Done(Err(e)) => (Progress::Done(Err(RomTableError::Memory(e))), 4),
                    Progress::Done(Ok(devarch)) => (
                        Progress::Done(
                            Ok(
                                peripheral_id_from_words(
                                    low + high,
                                    (devtype % 256) as u8,
                                    spec_arch_id(devarch),
                                ),
                            ),
                        ),
                        4,
                    ),
                },
            },
        },
    }
}

/// The identification of the component at `base`: its class, then its
/// peripheral ID, read from answer `pos` on, with the number of answers used.
pub open spec fn spec_read_all(rs: Seq<ReadResponse>, pos: nat, base: u64) -> (Progress<
    Result<ComponentId, RomTableError>,
>, nat) {
    match spec_component_class(rs, pos, base) {
        Progress::NeedsRead(q) => (Progress::NeedsRead(q), 0),
        Progress::Done(Err(e)) => (Progress::Done(Err(e)), 1),
        Progress::Done(Ok(class)) => {
            let (p, k) = spec_read_peripheral_id(rs, pos + 1, base);
            (
                match p {
                    Progress::NeedsRead(q) => Progress::NeedsRead(q),
                    Progress::Done(Err(e)) => Progress::Done(Err(e)),
                    Progress::Done(Ok(peripheral_id)) => Progress::Done(
                        Ok(ComponentId { component_address: base, class, peripheral_id }),
                    ),
                },
                k + 1,
            )
        },
    }
}

/// Reads the identification registers of a CoreSight component.
pub struct ComponentInformationReader {
    pub base_address: u64,
}

impl ComponentInformationReader {
    /// Creates a reader of the component information at `base_address`.
    pub fn new(base_address: u64) -> (r: Self)
        ensures
            r.base_address == base_address,
    {
        ComponentInformationReader { base_address }
    }

    /// Reads the component class from the CIDR registers.
    pub fn component_class(&self, memory: &mut ReadLog) -> (r: Progress<
        Result<RawComponent, RomTableError>,
    >)
        ensures
            final(memory).answers() == old(memory).answers(),
            r == spec_component_class(old(memory).answers(), old(memory).consumed(), self.base_address),
            final(memory).consumed() == old(memory).consumed() + if r is Done {
                1nat
            } else {
                0nat
            },
    {
        let cidr = match memory.read_32((self.base_address as u32).wrapping_add(0xFF0), 4) {
            Progress::NeedsRead(q) => return Progress::NeedsRead(q),
            Progress::Done(Err(e)) => return Progress::Done(Err(RomTableError::Memory(e))),
            Progress::Done(Ok(words)) => words,
        };
        let class_number = (cidr[1] >> 4) & 0x0F;
        proof {
            let w = cidr[1];
            assert((w >> 4) & 0x0F == (w / 16) % 16) by (bit_vector);
        }
        match RawComponent::from_u32(class_number) {
            Some(class) => Progress::Done(Ok(class)),
            None => Progress::Done(Err(RomTableError::CSComponentIdentification)),
        }
    }

    /// Reads the peripheral ID from the PIDR, DEVTYPE and DEVARCH registers.
    pub fn peripheral_id(&self, memory: &mut ReadLog) -> (r: Progress<
        Result<PeripheralID, RomTableError>,
    >)
        ensures
            final(memory).answers() == old(memory).answers(),
            (r, (final(memory).consumed() - old(memory).consumed()) as nat) == spec_read_peripheral_id(
                old(memory).answers(),
                old(memory).consumed(),
                self.base_address,
            ),
            final(memory).consumed() >= old(memory).consumed(),
    {
        let base = self.base_address as u32;
        let high = match memory.read_32(base.wrapping_add(0xFD0), 4) {
            Progress::NeedsRead(q) => return Progress::NeedsRead(q),
            Progress::Done(Err(e)) => return Progress::Done(Err(RomTableError::Memory(e))),
            Progress::Done(Ok(words)) => words,
        };
        let low = match memory.read_32(base.wrapping_add(0xFE0), 4) {
            Progress::NeedsRead(q) => return Progress::NeedsRead(q),
            Progress::Done(Err(e)) => return Progress::Done(Err(RomTableError::Memory(e))),
            Progress::Done(Ok(words)) => words,
        };
        let devtype = match memory.read_word_32(base.wrapping_add(0xFCC)) {
            Progress::NeedsRead(q) => return Progress::NeedsRead(q),
            Progress::Done(Err(e)) => return Progress::Done(Err(RomTableError::Memory(e))),
            Progress::Done(Ok(word)) => word,
        };
        let devarch = match memory.read_word_32(base.wrapping_add(0xFBC)) {
            Progress::NeedsRead(q) => return Progress::NeedsRead(q),
            Progress::Done(Err(e)) => return Progress::Done(Err(RomTableError::Memory(e))),
            Progress::Done(Ok(word)) => word,
        };
        let dev_type = (devtype & 0xFF) as u8;
        let arch_id: u16 = if devarch & (1 << 20) > 0 {
            (devarch & 0xFFFF) as u16
        } else {
            0
        };
        proof {
            assert((devtype & 0xFF) == devtype % 256) by (bit_vector);
            assert((devarch & (1u32 << 20u32) > 0) == ((devarch / 0x10_0000) % 2 == 1))
                by (bit_vector);
            assert((devarch & 0xFFFF) == devarch % 0x1_0000) by (bit_vector);
        }
        let data: [u32; 8] = [low[0], low[1], low[2], low[3], high[0], high[1], high[2], high[3]];
        proof {
            assert(data@ =~= low@ + high@);
        }
        Progress::Done(Ok(PeripheralID::from_raw(&data, dev_type, arch_id)))
    }

    /// Reads all identification registers of the component.
    pub fn read_all(&self, memory: &mut ReadLog) -> (r: Progress<
        Result<ComponentId, RomTableError>,
    >)
        ensures
            final(memory).answers() == old(memory).answers(),
            (r, (final(memory).consumed() - old(memory).consumed()) as nat) == spec_read_all(
                old(memory).answers(),
                old(memory).consumed(),
                self.base_address,
            ),
            final(memory).consumed() >= old(memory).consumed(),
    {
        let class = match self.component_class(memory) {
            Progress::NeedsRead(q) => return Progress::NeedsRead(q),
            Progress::Done(Err(e)) => return Progress::Done(Err(e)),
            Progress::Done(Ok(class)) => class,
        };
        let peripheral_id = match self.peripheral_id(memory) {
            Progress::NeedsRead(q) => return Progress::NeedsRead(q),
            Progress::Done(Err(e)) => return Progress::Done(Err(e)),
            Progress::Done(Ok(peripheral_id)) => peripheral_id,
        };
        Progress::Done(Ok(ComponentId { component_address: self.base_address, class, peripheral_id }))
    }
}

} // verus!
