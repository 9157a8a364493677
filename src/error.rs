//! The conditions under which decoding, execution and tape access fail.
use vstd::prelude::*;

use crate::instruction::Opcode;

verus! {

/// Failures of instruction decoding and execution.
#[derive(Debug, Clone, Copy, PartialEq, Eq, Structural)]
pub enum MachineError {
    /// The opcode field holds a code that names no operation.
    InvalidOpcode(u64),
    /// The operation is defined, but this machine does not carry it out.
    UnimplementedOperation(Opcode),
}

/// Failures of tape access.
#[derive(Debug, Clone, Copy, PartialEq, Eq, Structural)]
pub enum TapeError {
    /// A write would run past the end of the tape.
    TapeFull,
    /// A read, or an access to the current word, would run past the end of
    /// the tape.
    EndOfTape,
}

} // verus!
