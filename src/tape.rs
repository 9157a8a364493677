//! A magnetic tape unit: a sequential store of fixed capacity, read and
//! written a word (nine bytes) at a time at a moving position.
//!
//! The machine's rule for tapes is that the operation before a write or a
//! rewind must itself be a write or a rewind; a tape records whether a write
//! or rewind ever followed a read.
use std::ops::Range;

use vstd::prelude::*;

use crate::error::TapeError;

verus! {

/// The bytes on one tape.
pub const TAPE_CAPACITY: usize = 140_000;
/// The bytes in one word on tape.
pub const WORD_SIZE: usize = 9;

/// One tape unit.
#[derive(Debug)]
pub struct Tape {
    id: char,
    position: usize,
    records: Vec<u8>,
    last_was_read: bool,
    protocol_violated: bool,
}

/// The state of a `Tape`.
pub struct TapeState {
    pub id: char,
    /// The byte offset of the current word.
    pub position: nat,
    pub records: Seq<u8>,
    /// The last operation was a read.
    pub last_was_read: bool,
    /// A write or a rewind has followed a read.
    pub protocol_violated: bool,
}

impl View for Tape {
    type V = TapeState;

    closed spec fn view(&self) -> TapeState {
        TapeState {
            id: self.id,
            position: self.position as nat,
            records: self.records@,
            last_was_read: self.last_was_read,
            protocol_violated: self.protocol_violated,
        }
    }
}

impl TapeState {
    /// The store has its full size and the position lies within it.
    pub open spec fn wf(&self) -> bool {
        &&& self.records.len() == TAPE_CAPACITY
        &&& self.position <= TAPE_CAPACITY
    }

    /// A whole word fits between the position and the end of the tape.
    pub open spec fn word_fits(&self) -> bool {
        self.position + WORD_SIZE <= TAPE_CAPACITY
    }

    /// The word at the position.
    pub open spec fn current(&self) -> Seq<u8> {
        self.records.subrange(self.position as int, self.position + WORD_SIZE)
    }

    /// The store with the word at the position replaced by `word`.
    pub open spec fn with_current(&self, word: Seq<u8>) -> Seq<u8> {
        self.records.take(self.position as int) + word + self.records.skip(
            self.position + WORD_SIZE,
        )
    }

    /// The protocol record after a write or a rewind.
    pub open spec fn noted_transfer(self) -> TapeState {
        TapeState {
            last_was_read: false,
            protocol_violated: self.protocol_violated || self.last_was_read,
            ..self
        }
    }
}

impl Tape {
    /// A tape at position 0, filled with zeros.
    pub fn new(id: char) -> (r: Self)
        ensures
            r@ == (TapeState {
                id,
                position: 0,
                records: Seq::new(TAPE_CAPACITY as nat, |i: int| 0u8),
                last_was_read: false,
                protocol_violated: false,
            }),
            r@.wf(),
    {
        let records = vec![0u8; TAPE_CAPACITY];
        assert(records@ =~= Seq::new(TAPE_CAPACITY as nat, |i: int| 0u8));
        Self { id, position: 0, records, last_was_read: false, protocol_violated: false }
    }

    /// The tape's label.
    pub fn id(&self) -> (r: char)
        ensures
            r == self@.id,
    {
        self.id
    }

    /// The byte offset of the current word.
    pub fn position(&self) -> (r: usize)
        ensures
            r == self@.position,
    {
        self.position
    }

    /// Whether a write or a rewind has ever followed a read on this tape.
    pub fn protocol_violated(&self) -> (r: bool)
        ensures
            r == self@.protocol_violated,
    {
        self.protocol_violated
    }

    /// The byte range of the current word.
    fn position_range(&self) -> (r: Range<usize>)
        requires
            self@.wf(),
        ensures
            r.start == self@.position,
            r.end == self@.position + WORD_SIZE,
    {
        self.position..self.position + WORD_SIZE
    }

    /// A copy of the current word; `EndOfTape` where it would run past the
    /// end of the tape.
    pub fn current_word(&self) -> (r: Result<[u8; WORD_SIZE], TapeError>)
        requires
            self@.wf(),
        ensures
            self@.word_fits() ==> (r matches Ok(w) && w@ == self@.current()),
            !self@.word_fits() ==> r == Err::<[u8; WORD_SIZE], TapeError>(TapeError::EndOfTape),
    {
        let range = self.position_range();
        if range.end > TAPE_CAPACITY {
            return Err(TapeError::EndOfTape);
        }
        let mut out = [0u8; WORD_SIZE];
        let mut j: usize = 0;
        while j < WORD_SIZE
            invariant
                self@.wf(),
                range.start == self@.position,
                range.end == self@.position + WORD_SIZE <= TAPE_CAPACITY,
                j <= WORD_SIZE,
                out@.len() == WORD_SIZE,
                forall|k: int| 0 <= k < j ==> out@[k] == self@.records[range.start + k],
            decreases WORD_SIZE - j,
        {
            out[j] = self.records[range.start + j];
            j = j + 1;
        }
        assert(out@ =~= self@.current());
        Ok(out)
    }

    /// Copies `word` over the current word and moves past it; `TapeFull`,
    /// with the tape unchanged, where it would run past the end of the tape.
    pub fn write(&mut self, word: &[u8; WORD_SIZE]) -> (r: Result<(), TapeError>)
        requires
            old(self)@.wf(),
        ensures
            final(self)@.wf(),
            old(self)@.word_fits() ==> r is Ok && final(self)@ == (TapeState {
                records: old(self)@.with_current(word@),
                position: (old(self)@.position + WORD_SIZE) as nat,
                ..old(self)@.noted_transfer()
            }),
            !old(self)@.word_fits() ==> r == Err::<(), TapeError>(TapeError::TapeFull)
                && final(self)@ == old(self)@.noted_transfer(),
    {
        self.protocol_violated = self.protocol_violated || self.last_was_read;
        self.last_was_read = false;
        let ghost before = self@;
        if self.position + WORD_SIZE > TAPE_CAPACITY {
            return Err(TapeError::TapeFull);
        }
        let start = self.position;
        let mut j: usize = 0;
        while j < WORD_SIZE
            invariant
                before.wf(),
                start == before.position,
                start + WORD_SIZE <= TAPE_CAPACITY,
                j <= WORD_SIZE,
                self@ == (TapeState { records: self@.records, ..before }),
                self@.records.len() == TAPE_CAPACITY,
                forall|k: int|
                    0 <= k < TAPE_CAPACITY ==> #[trigger] self@.records[k] == if start <= k < start
                        + j {
                        word@[k - start]
                    } else {
                        before.records[k]
                    },
            decreases WORD_SIZE - j,
        {
            self.records.set(start + j, word[j]);
            j = j + 1;
        }
        assert(self@.records =~= before.with_current(word@));
        self.position = self.position + WORD_SIZE;
        Ok(())
    }

    /// The current word, moving past it; `EndOfTape`, with the position
    /// unchanged, where it would run past the end of the tape.
    pub fn read(&mut self) -> (r: Result<[u8; WORD_SIZE], TapeError>)
        requires
            old(self)@.wf(),
        ensures
            final(self)@.wf(),
            old(self)@.word_fits() ==> (r matches Ok(w) && w@ == old(self)@.current()
                && final(self)@ == (TapeState {
                position: (old(self)@.position + WORD_SIZE) as nat,
                last_was_read: true,
                ..old(self)@
            })),
            !old(self)@.word_fits() ==> r == Err::<[u8; WORD_SIZE], TapeError>(TapeError::EndOfTape)
                && final(self)@ == (TapeState { last_was_read: true, ..old(self)@ }),
    {
        self.last_was_read = true;
        let out = self.current_word();
        if out.is_ok() {
            self.position = self.position + WORD_SIZE;
        }
        out
    }

    /// Fills the current word with zeros, without moving; `EndOfTape`, with
    /// the tape unchanged, where it would run past the end of the tape.
    pub fn erase(&mut self) -> (r: Result<(), TapeError>)
        requires
            old(self)@.wf(),
        ensures
            final(self)@.wf(),
            old(self)@.word_fits() ==> r is Ok && final(self)@ == (TapeState {
                records: old(self)@.with_current(Seq::new(WORD_SIZE as nat, |i: int| 0u8)),
                ..old(self)@
            }),
            !old(self)@.word_fits() ==> r == Err::<(), TapeError>(TapeError::EndOfTape)
                && final(self)@ == old(self)@,
    {
        let ghost before = self@;
        if self.position + WORD_SIZE > TAPE_CAPACITY {
            return Err(TapeError::EndOfTape);
        }
        let start = self.position;
        let mut j: usize = 0;
        while j < WORD_SIZE
            invariant
                before.wf(),
                start == before.position,
                start + WORD_SIZE <= TAPE_CAPACITY,
                j <= WORD_SIZE,
                self@ == (TapeState { records: self@.records, ..before }),
                self@.records.len() == TAPE_CAPACITY,
                forall|k: int|
                    0 <= k < TAPE_CAPACITY ==> #[trigger] self@.records[k] == if start <= k < start
                        + j {
                        0u8
                    } else {
                        before.records[k]
                    },
            decreases WORD_SIZE - j,
        {
            self.records.set(start + j, 0);
            j = j + 1;
        }
        assert(self@.records =~= before.with_current(Seq::new(WORD_SIZE as nat, |i: int| 0u8)));
        Ok(())
    }

    /// Moves back one word; `None`, with the position unchanged, at the start
    /// of the tape.
    pub fn rewind(&mut self) -> (r: Option<()>)
        requires
            old(self)@.wf(),
        ensures
            final(self)@.wf(),
            old(self)@.position >= WORD_SIZE ==> r is Some && final(self)@ == (TapeState {
                position: (old(self)@.position - WORD_SIZE) as nat,
                ..old(self)@.noted_transfer()
            }),
            old(self)@.position < WORD_SIZE ==> r is None && final(self)@
                == old(self)@.noted_transfer(),
    {
        self.protocol_violated = self.protocol_violated || self.last_was_read;
        self.last_was_read = false;
        if self.position < WORD_SIZE {
            return None;
        }
        self.position = self.position - WORD_SIZE;
        Some(())
    }
}

} // verus!
