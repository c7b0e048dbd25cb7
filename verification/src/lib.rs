//! A CHIP-8 virtual machine whose instruction semantics are stated as a
//! mathematical model and proved of the executable interpreter.
//!
//! [`Machine`] is the model: a value of plain sequences and integers with the
//! meaning of every instruction written as a specification function.
//! [`Emulator`] is the executable machine; each of its operations is proved to
//! move its view exactly as the model says.

pub mod emulator;
pub mod fault;
pub mod font;
pub mod instruction;
pub mod laws;
pub mod machine;
mod random;
pub mod sprite;
pub mod text;

pub use emulator::Emulator;
pub use fault::Fault;
pub use font::FONTSET;
pub use instruction::{decode, Instruction};
pub use machine::Machine;

use vstd::prelude::*;

verus! {

/// Number of pixel columns of the display.
pub const SCREEN_WIDTH: usize = 64;

/// Number of pixel rows of the display.
pub const SCREEN_HEIGHT: usize = 32;

/// Number of pixels of the display.
pub const SCREEN_SIZE: usize = SCREEN_WIDTH * SCREEN_HEIGHT;

/// Number of addressable bytes of memory.
pub const MEMORY_SIZE: usize = 4096;

/// Address at which a loaded program starts and at which execution begins.
pub const START_ADDRESS: u16 = 0x200;

/// Number of return addresses the call stack can hold.
pub const STACK_DEPTH: usize = 16;

/// Number of general registers.
pub const REGISTER_COUNT: usize = 16;

/// Number of keys of the keypad.
pub const KEY_COUNT: usize = 16;

} // verus!
