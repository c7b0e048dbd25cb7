//! The instruction set: the decoded form of an instruction and the decoding
//! of a sixteen-bit word into it.

use vstd::prelude::*;

verus! {

/// One decoded instruction. Register operands `x` and `y` are register
/// numbers below sixteen.
#[derive(Clone, Copy, Debug, PartialEq, Eq, Structural)]
pub enum Instruction {
    /// `00E0`: turn every pixel off.
    ClearScreen,
    /// `00EE`: return to the address on top of the call stack.
    Return,
    /// `1NNN`: continue at `target`.
    Jump { target: u16 },
    /// `2NNN`: remember where to return to and continue at `target`.
    Call { target: u16 },
    /// `3XNN`: skip the next instruction if register `x` holds `value`.
    SkipIfEqual { x: u8, value: u8 },
    /// `4XNN`: skip the next instruction unless register `x` holds `value`.
    SkipIfNotEqual { x: u8, value: u8 },
    /// `5XY0`: skip the next instruction if registers `x` and `y` agree.
    SkipIfSame { x: u8, y: u8 },
    /// `6XNN`: put `value` into register `x`.
    Load { x: u8, value: u8 },
    /// `7XNN`: add `value` to register `x`, wrapping, the flag untouched.
    AddImmediate { x: u8, value: u8 },
    /// `8XY0`: copy register `y` into register `x`.
    Move { x: u8, y: u8 },
    /// `8XY1`: bitwise or of register `y` into register `x`.
    Or { x: u8, y: u8 },
    /// `8XY2`: bitwise and of register `y` into register `x`.
    And { x: u8, y: u8 },
    /// `8XY3`: bitwise exclusive or of register `y` into register `x`.
    Xor { x: u8, y: u8 },
    /// `8XY4`: add register `y` to register `x`; the flag is the carry.
    Add { x: u8, y: u8 },
    /// `8XY5`: subtract register `y` from register `x`; the flag is set when
    /// nothing was borrowed.
    Subtract { x: u8, y: u8 },
    /// `8XY6`: halve register `x`; the flag is the bit shifted out.
    ShiftRight { x: u8 },
    /// `8XY7`: register `x` becomes register `y` minus register `x`; the flag
    /// is set when nothing was borrowed.
    SubtractFrom { x: u8, y: u8 },
    /// `8XYE`: double register `x`; the flag is the bit shifted out.
    ShiftLeft { x: u8 },
    /// `9XY0`: skip the next instruction if registers `x` and `y` differ.
    SkipIfDifferent { x: u8, y: u8 },
    /// `ANNN`: point the index register at `address`.
    LoadIndex { address: u16 },
    /// `BNNN`: continue at `base` plus register 0.
    JumpOffset { base: u16 },
    /// `CXNN`: put a random byte, masked by `mask`, into register `x`.
    Random { x: u8, mask: u8 },
    /// `DXYN`: draw the `rows`-row sprite at the index register with its top
    /// left corner at the column in register `x` and the row in register `y`.
    Draw { x: u8, y: u8, rows: u8 },
    /// `EX9E`: skip the next instruction if the key named by register `x` is
    /// down.
    SkipIfKey { x: u8 },
    /// `EXA1`: skip the next instruction if the key named by register `x` is
    /// up.
    SkipIfNoKey { x: u8 },
    /// `FX07`: copy the delay timer into register `x`.
    ReadDelay { x: u8 },
    /// `FX0A`: wait for a key and put its number into register `x`.
    WaitKey { x: u8 },
    /// `FX15`: set the delay timer from register `x`.
    SetDelay { x: u8 },
    /// `FX18`: set the sound timer from register `x`.
    SetSound { x: u8 },
    /// `FX1E`: add register `x` to the index register, wrapping.
    AddIndex { x: u8 },
    /// `FX29`: point the index register at the glyph for register `x`.
    Glyph { x: u8 },
    /// `FX33`: write the three decimal digits of register `x` to memory at
    /// the index register.
    Decimal { x: u8 },
    /// `FX55`: store registers 0 through `x` to memory at the index register.
    Store { x: u8 },
    /// `FX65`: fill registers 0 through `x` from memory at the index register.
    Fill { x: u8 },
    /// Any other word.
    Unknown { word: u16 },
}

impl Instruction {
    /// Every register operand names one of the sixteen registers, every
    /// address operand has twelve bits, and a sprite has fewer than sixteen
    /// rows.
    pub open spec fn wf(self) -> bool {
        match self {
            Instruction::Jump { target } | Instruction::Call { target } => target < 0x1000,
            Instruction::LoadIndex { address } => address < 0x1000,
            Instruction::JumpOffset { base } => base < 0x1000,
            Instruction::SkipIfEqual { x, .. }
            | Instruction::SkipIfNotEqual { x, .. }
            | Instruction::Load { x, .. }
            | Instruction::AddImmediate { x, .. }
            | Instruction::ShiftRight { x }
            | Instruction::ShiftLeft { x }
            | Instruction::Random { x, .. }
            | Instruction::SkipIfKey { x }
            | Instruction::SkipIfNoKey { x }
            | Instruction::ReadDelay { x }
            | Instruction::WaitKey { x }
            | Instruction::SetDelay { x }
            | Instruction::SetSound { x }
            | Instruction::AddIndex { x }
            | Instruction::Glyph { x }
            | Instruction::Decimal { x }
            | Instruction::Store { x }
            | Instruction::Fill { x } => x < 16,
            Instruction::SkipIfSame { x, y }
            | Instruction::Move { x, y }
            | Instruction::Or { x, y }
            | Instruction::And { x, y }
            | Instruction::Xor { x, y }
            | Instruction::Add { x, y }
            | Instruction::Subtract { x, y }
            | Instruction::SubtractFrom { x, y }
            | Instruction::SkipIfDifferent { x, y } => x < 16 && y < 16,
            Instruction::Draw { x, y, rows } => x < 16 && y < 16 && rows < 16,
            _ => true,
        }
    }
}

/// The four-bit field of `word` at `position`, counted from the high end:
/// position 0 is the most significant nibble.
pub open spec fn nibble(word: u16, position: int) -> u8 {
    if position == 0 {
        (word / 0x1000) as u8
    } else if position == 1 {
        (word / 0x100 % 16) as u8
    } else if position == 2 {
        (word / 0x10 % 16) as u8
    } else {
        (word % 16) as u8
    }
}

/// The low byte of `word`, the immediate operand `NN`.
pub open spec fn low_byte(word: u16) -> u8 {
    (word % 0x100) as u8
}

/// The low twelve bits of `word`, the address operand `NNN`.
pub open spec fn address(word: u16) -> u16 {
    (word % 0x1000) as u16
}

/// The instruction that `word` encodes. An exact word is matched before a
/// pattern with operands, and a word that fits no pattern is `Unknown`.
pub open spec fn decoded(word: u16) -> Instruction {
    let kind = nibble(word, 0);
    let x = nibble(word, 1);
    let y = nibble(word, 2);
    let last = nibble(word, 3);
    let value = low_byte(word);
    if word == 0x00E0 {
        Instruction::ClearScreen
    } else if word == 0x00EE {
        Instruction::Return
    } else if kind == 0x1 {
        Instruction::Jump { target: address(word) }
    } else if kind == 0x2 {
        Instruction::Call { target: address(word) }
    } else if kind == 0x3 {
        Instruction::SkipIfEqual { x, value }
    } else if kind == 0x4 {
        Instruction::SkipIfNotEqual { x, value }
    } else if kind == 0x5 && last == 0x0 {
        Instruction::SkipIfSame { x, y }
    } else if kind == 0x6 {
        Instruction::Load { x, value }
    } else if kind == 0x7 {
        Instruction::AddImmediate { x, value }
    } else if kind == 0x8 && last == 0x0 {
        Instruction::Move { x, y }
    } else if kind == 0x8 && last == 0x1 {
        Instruction::Or { x, y }
    } else if kind == 0x8 && last == 0x2 {
        Instruction::And { x, y }
    } else if kind == 0x8 && last == 0x3 {
        Instruction::Xor { x, y }
    } else if kind == 0x8 && last == 0x4 {
        Instruction::Add { x, y }
    } else if kind == 0x8 && last == 0x5 {
        Instruction::Subtract { x, y }
    } else if kind == 0x8 && last == 0x6 {
        Instruction::ShiftRight { x }
    } else if kind == 0x8 && last == 0x7 {
        Instruction::SubtractFrom { x, y }
    } else if kind == 0x8 && last == 0xE {
        Instruction::ShiftLeft { x }
    } else if kind == 0x9 && last == 0x0 {
        Instruction::SkipIfDifferent { x, y }
    } else if kind == 0xA {
        Instruction::LoadIndex { address: address(word) }
    } else if kind == 0xB {
        Instruction::JumpOffset { base: address(word) }
    } else if kind == 0xC {
        Instruction::Random { x, mask: value }
    } else if kind == 0xD {
        Instruction::Draw { x, y, rows: last }
    } else if kind == 0xE && value == 0x9E {
        Instruction::SkipIfKey { x }
    } else if kind == 0xE && value == 0xA1 {
        Instruction::SkipIfNoKey { x }
    } else if kind == 0xF && value == 0x07 {
        Instruction::ReadDelay { x }
    } else if kind == 0xF && value == 0x0A {
        Instruction::WaitKey { x }
    } else if kind == 0xF && value == 0x15 {
        Instruction::SetDelay { x }
    } else if kind == 0xF && value == 0x18 {
        Instruction::SetSound { x }
    } else if kind == 0xF && value == 0x1E {
        Instruction::AddIndex { x }
    } else if kind == 0xF && value == 0x29 {
        Instruction::Glyph { x }
    } else if kind == 0xF && value == 0x33 {
        Instruction::Decimal { x }
    } else if kind == 0xF && value == 0x55 {
        Instruction::Store { x }
    } else if kind == 0xF && value == 0x65 {
        Instruction::Fill { x }
    } else {
        Instruction::Unknown { word }
    }
}

/// Masking and shifting a word yields its nibbles, low byte and address.
proof fn lemma_fields(word: u16)
    by (bit_vector)
    ensures
        (word & 0xF000) >> 12 == word / 0x1000,
        (word & 0x0F00) >> 8 == word / 0x100 % 16,
        (word & 0x00F0) >> 4 == word / 0x10 % 16,
        word & 0x000F == word % 16,
        word & 0x00FF == word % 0x100,
        word & 0x0FFF == word % 0x1000,
{
}

/// Splits `word` into its four nibbles and selects the instruction form.
pub fn decode(word: u16) -> (instruction: Instruction)
    ensures
        instruction == decoded(word),
        instruction.wf(),
{
    proof {
        lemma_fields(word);
    }
    let kind: u8 = ((word & 0xF000) >> 12) as u8;
    let x: u8 = ((word & 0x0F00) >> 8) as u8;
    let y: u8 = ((word & 0x00F0) >> 4) as u8;
    let last: u8 = (word & 0x000F) as u8;
    let value: u8 = (word & 0x00FF) as u8;
    let target: u16 = word & 0x0FFF;
    match (kind, x, y, last) {
        (0x0, 0x0, 0xE, 0x0) => Instruction::ClearScreen,
        (0x0, 0x0, 0xE, 0xE) => Instruction::Return,
        (0x1, _, _, _) => Instruction::Jump { target },
        (0x2, _, _, _) => Instruction::Call { target },
        (0x3, _, _, _) => Instruction::SkipIfEqual { x, value },
        (0x4, _, _, _) => Instruction::SkipIfNotEqual { x, value },
        (0x5, _, _, 0x0) => Instruction::SkipIfSame { x, y },
        (0x6, _, _, _) => Instruction::Load { x, value },
        (0x7, _, _, _) => Instruction::AddImmediate { x, value },
        (0x8, _, _, 0x0) => Instruction::Move { x, y },
        (0x8, _, _, 0x1) => Instruction::Or { x, y },
        (0x8, _, _, 0x2) => Instruction::And { x, y },
        (0x8, _, _, 0x3) => Instruction::Xor { x, y },
        (0x8, _, _, 0x4) => Instruction::Add { x, y },
        (0x8, _, _, 0x5) => Instruction::Subtract { x, y },
        (0x8, _, _, 0x6) => Instruction::ShiftRight { x },
        (0x8, _, _, 0x7) => Instruction::SubtractFrom { x, y },
        (0x8, _, _, 0xE) => Instruction::ShiftLeft { x },
        (0x9, _, _, 0x0) => Instruction::SkipIfDifferent { x, y },
        (0xA, _, _, _) => Instruction::LoadIndex { address: target },
        (0xB, _, _, _) => Instruction::JumpOffset { base: target },
        (0xC, _, _, _) => Instruction::Random { x, mask: value },
        (0xD, _, _, _) => Instruction::Draw { x, y, rows: last },
        (0xE, _, 0x9, 0xE) => Instruction::SkipIfKey { x },
        (0xE, _, 0xA, 0x1) => Instruction::SkipIfNoKey { x },
        (0xF, _, 0x0, 0x7) => Instruction::ReadDelay { x },
        (0xF, _, 0x0, 0xA) => Instruction::WaitKey { x },
        (0xF, _, 0x1, 0x5) => Instruction::SetDelay { x },
        (0xF, _, 0x1, 0x8) => Instruction::SetSound { x },
        (0xF, _, 0x1, 0xE) => Instruction::AddIndex { x },
        (0xF, _, 0x2, 0x9) => Instruction::Glyph { x },
        (0xF, _, 0x3, 0x3) => Instruction::Decimal { x },
        (0xF, _, 0x5, 0x5) => Instruction::Store { x },
        (0xF, _, 0x6, 0x5) => Instruction::Fill { x },
        _ => Instruction::Unknown { word },
    }
}

} // verus!
