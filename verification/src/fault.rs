//! The reasons for which the machine refuses an operation.

use vstd::prelude::*;

verus! {

/// Why an operation was refused. A refused operation leaves the machine as it
/// was, so the host may skip the instruction, report it, or stop.
#[derive(Clone, Copy, Debug, PartialEq, Eq, Structural)]
pub enum Fault {
    /// The fetched word encodes no instruction; it is carried along.
    UnknownInstruction(u16),
    /// An instruction fetch, a sprite read or a register transfer reaches an
    /// address at or beyond the end of memory.
    MemoryOutOfBounds,
    /// A call was made with the call stack already full.
    StackOverflow,
    /// A return was made with the call stack empty.
    StackUnderflow,
    /// A key instruction named a key beyond the sixteen of the keypad.
    KeyOutOfRange,
    /// A program image does not fit between the start address and the end of
    /// memory.
    ProgramTooLarge,
}

} // verus!
