//! The machine as a mathematical value, and the meaning of every operation
//! on it: loading, key changes, timer ticks, and one cycle of each
//! instruction.

use vstd::prelude::*;

use crate::fault::Fault;
use crate::font::{glyph_address, FONTSET};
use crate::instruction::{decoded, Instruction};
use crate::sprite::{collides, drawn, sprite_at};
use crate::{KEY_COUNT, MEMORY_SIZE, REGISTER_COUNT, SCREEN_SIZE, STACK_DEPTH, START_ADDRESS};

verus! {

/// The state of the machine as a mathematical value.
pub struct Machine {
    /// The 4096 bytes of memory.
    pub memory: Seq<u8>,
    /// The sixteen general registers; register 15 doubles as the flag.
    pub registers: Seq<u8>,
    /// The index register.
    pub index: u16,
    /// The program counter.
    pub pc: u16,
    /// The return addresses of the calls in progress, the latest last.
    pub stack: Seq<u16>,
    /// The delay timer.
    pub delay: u8,
    /// The sound timer.
    pub sound: u8,
    /// The 64 by 32 pixels, row by row from the top left.
    pub screen: Seq<bool>,
    /// The sixteen keys, `true` while held down.
    pub keys: Seq<bool>,
}

/// Whether some key is held down.
pub open spec fn any_pressed(keys: Seq<bool>) -> bool {
    exists|key: int| 0 <= key < keys.len() && keys[key]
}

/// Whether `key` is held down and no key with a lower number is.
pub open spec fn is_lowest_pressed(keys: Seq<bool>, key: int) -> bool {
    &&& 0 <= key < keys.len()
    &&& keys[key]
    &&& forall|lower: int| 0 <= lower < key ==> !keys[lower]
}

/// The lowest-numbered key held down, where there is one.
pub open spec fn lowest_pressed(keys: Seq<bool>) -> int {
    choose|key: int| is_lowest_pressed(keys, key)
}

/// Whether an operation came out as the model says: it succeeded and left
/// the machine `after` in the `expected` state, or it was refused with the
/// expected fault and left the machine as it was `before`.
pub open spec fn agrees(
    expected: Result<Machine, Fault>,
    before: Machine,
    after: Machine,
    outcome: Result<(), Fault>,
) -> bool {
    match expected {
        Ok(next) => outcome is Ok && after == next,
        Err(fault) => outcome == Err::<(), Fault>(fault) && after == before,
    }
}

impl Machine {
    /// The fixed sizes of the parts, and a call stack within its depth.
    pub open spec fn wf(self) -> bool {
        &&& self.memory.len() == MEMORY_SIZE
        &&& self.registers.len() == REGISTER_COUNT
        &&& self.stack.len() <= STACK_DEPTH
        &&& self.screen.len() == SCREEN_SIZE
        &&& self.keys.len() == KEY_COUNT
    }

    /// The machine as constructed and after a reset: the font at the bottom
    /// of memory, the program counter at the start address, all else zero.
    pub open spec fn initial() -> Machine {
        Machine {
            memory: Seq::new(
                MEMORY_SIZE as nat,
                |at: int| if at < FONTSET@.len() { FONTSET@[at] } else { 0u8 },
            ),
            registers: Seq::new(REGISTER_COUNT as nat, |x: int| 0u8),
            index: 0,
            pc: START_ADDRESS,
            stack: Seq::empty(),
            delay: 0,
            sound: 0,
            screen: Seq::new(SCREEN_SIZE as nat, |pixel: int| false),
            keys: Seq::new(KEY_COUNT as nat, |key: int| false),
        }
    }

    /// The machine with `rom` copied to memory from the start address on, or
    /// the refusal of a `rom` that does not fit.
    pub open spec fn load(self, rom: Seq<u8>) -> Result<Machine, Fault> {
        if START_ADDRESS + rom.len() <= MEMORY_SIZE {
            Ok(
                Machine {
                    memory: Seq::new(
                        MEMORY_SIZE as nat,
                        |at: int|
                            if START_ADDRESS <= at < START_ADDRESS + rom.len() {
                                rom[at - START_ADDRESS]
                            } else {
                                self.memory[at]
                            },
                    ),
                    ..self
                },
            )
        } else {
            Err(Fault::ProgramTooLarge)
        }
    }

    /// A copy of the machine: the same value.
    pub open spec fn snapshot(self) -> Machine {
        self
    }

    /// The machine after `saved` has replaced it: `saved`, and nothing of
    /// what the machine was.
    pub open spec fn restore(self, saved: Machine) -> Machine {
        saved
    }

    /// The machine after as many cycles as `randoms` has bytes, the cycle
    /// `i` drawing `randoms[i]` if it draws. A refused cycle changes nothing.
    pub open spec fn run(self, randoms: Seq<u8>) -> Machine
        decreases randoms.len(),
    {
        if randoms.len() == 0 {
            self
        } else {
            let next = match self.step(randoms.first()) {
                Ok(next) => next,
                Err(_) => self,
            };
            next.run(randoms.drop_first())
        }
    }

    /// The machine with `key` held down or released.
    pub open spec fn press(self, key: int, pressed: bool) -> Machine {
        Machine { keys: self.keys.update(key, pressed), ..self }
    }

    /// The machine after one timer tick: each timer one lower unless zero.
    pub open spec fn tick(self) -> Machine {
        Machine {
            delay: if self.delay > 0 { (self.delay - 1) as u8 } else { 0 },
            sound: if self.sound > 0 { (self.sound - 1) as u8 } else { 0 },
            ..self
        }
    }

    /// The value of register `x`.
    pub open spec fn register(self, x: u8) -> u8 {
        self.registers[x as int]
    }

    /// The machine with `value` in register `x`.
    pub open spec fn with_register(self, x: u8, value: u8) -> Machine {
        Machine { registers: self.registers.update(x as int, value), ..self }
    }

    /// The machine with `value` in register `x` and then `flag` in the flag
    /// register: where `x` is the flag register itself, the flag stays.
    pub open spec fn with_result(self, x: u8, value: u8, flag: bool) -> Machine {
        self.with_register(x, value).with_register(0xF, if flag { 1u8 } else { 0u8 })
    }

    /// The machine with the program counter at `pc`.
    pub open spec fn at(self, pc: u16) -> Machine {
        Machine { pc, ..self }
    }

    /// The machine with the index register at `index`.
    pub open spec fn with_index(self, index: u16) -> Machine {
        Machine { index, ..self }
    }

    /// The machine with the next instruction skipped if `condition` holds.
    pub open spec fn skip_when(self, condition: bool) -> Machine {
        if condition {
            self.at((self.pc + 2) as u16)
        } else {
            self
        }
    }

    /// The big-endian word at the program counter and the machine with the
    /// program counter moved past it, or the refusal of a program counter
    /// whose word does not lie in memory.
    pub open spec fn fetch(self) -> Result<(Machine, u16), Fault> {
        if self.pc + 1 < MEMORY_SIZE {
            Ok(
                (
                    self.at((self.pc + 2) as u16),
                    (self.memory[self.pc as int] * 256 + self.memory[self.pc + 1]) as u16,
                ),
            )
        } else {
            Err(Fault::MemoryOutOfBounds)
        }
    }

    /// The machine after `instruction`, or why the instruction is refused.
    /// The machine is taken as the fetch left it, with the program counter
    /// past the instruction. `random` is the byte that a `Random` instruction
    /// draws; no other instruction looks at it.
    pub open spec fn execute(self, instruction: Instruction, random: u8) -> Result<Machine, Fault> {
        match instruction {
            Instruction::ClearScreen => Ok(
                Machine { screen: Seq::new(SCREEN_SIZE as nat, |pixel: int| false), ..self },
            ),
            Instruction::Return => if self.stack.len() > 0 {
                Ok(Machine { pc: self.stack.last(), stack: self.stack.drop_last(), ..self })
            } else {
                Err(Fault::StackUnderflow)
            },
            Instruction::Jump { target } => Ok(self.at(target)),
            Instruction::Call { target } => if self.stack.len() < STACK_DEPTH {
                Ok(Machine { pc: target, stack: self.stack.push(self.pc), ..self })
            } else {
                Err(Fault::StackOverflow)
            },
            Instruction::SkipIfEqual { x, value } => Ok(self.skip_when(self.register(x) == value)),
            Instruction::SkipIfNotEqual { x, value } => Ok(
                self.skip_when(self.register(x) != value),
            ),
            Instruction::SkipIfSame { x, y } => Ok(
                self.skip_when(self.register(x) == self.register(y)),
            ),
            Instruction::Load { x, value } => Ok(self.with_register(x, value)),
            Instruction::AddImmediate { x, value } => Ok(
                self.with_register(x, ((self.register(x) + value) % 256) as u8),
            ),
            Instruction::Move { x, y } => Ok(self.with_register(x, self.register(y))),
            Instruction::Or { x, y } => Ok(
                self.with_register(x, self.register(x) | self.register(y)),
            ),
            Instruction::And { x, y } => Ok(
                self.with_register(x, self.register(x) & self.register(y)),
            ),
            Instruction::Xor { x, y } => Ok(
                self.with_register(x, self.register(x) ^ self.register(y)),
            ),
            Instruction::Add { x, y } => {
                let sum = self.register(x) + self.register(y);
                Ok(self.with_result(x, (sum % 256) as u8, sum > 255))
            },
            Instruction::Subtract { x, y } => {
                let difference = self.register(x) - self.register(y);
                Ok(self.with_result(x, (difference % 256) as u8, difference >= 0))
            },
            Instruction::ShiftRight { x } => Ok(
                self.with_result(x, (self.register(x) / 2) as u8, self.register(x) % 2 == 1),
            ),
            Instruction::SubtractFrom { x, y } => {
                let difference = self.register(y) - self.register(x);
                Ok(self.with_result(x, (difference % 256) as u8, difference >= 0))
            },
            Instruction::ShiftLeft { x } => Ok(
                self.with_result(x, (self.register(x) * 2 % 256) as u8, self.register(x) >= 128),
            ),
            Instruction::SkipIfDifferent { x, y } => Ok(
                self.skip_when(self.register(x) != self.register(y)),
            ),
            Instruction::LoadIndex { address } => Ok(self.with_index(address)),
            Instruction::JumpOffset { base } => Ok(self.at((base + self.register(0)) as u16)),
            Instruction::Random { x, mask } => Ok(self.with_register(x, random & mask)),
            Instruction::Draw { x, y, rows } => if rows == 0 || self.index + rows <= MEMORY_SIZE {
                let sprite = sprite_at(self.memory, self.index as int, rows as int);
                let left = self.register(x) as int;
                let top = self.register(y) as int;
                Ok(
                    Machine {
                        screen: drawn(self.screen, sprite, left, top),
                        ..self.with_register(
                            0xF,
                            if collides(self.screen, sprite, left, top) {
                                1u8
                            } else {
                                0u8
                            },
                        )
                    },
                )
            } else {
                Err(Fault::MemoryOutOfBounds)
            },
            Instruction::SkipIfKey { x } => if self.register(x) < KEY_COUNT {
                Ok(self.skip_when(self.keys[self.register(x) as int]))
            } else {
                Err(Fault::KeyOutOfRange)
            },
            Instruction::SkipIfNoKey { x } => if self.register(x) < KEY_COUNT {
                Ok(self.skip_when(!self.keys[self.register(x) as int]))
            } else {
                Err(Fault::KeyOutOfRange)
            },
            Instruction::ReadDelay { x } => Ok(self.with_register(x, self.delay)),
            Instruction::WaitKey { x } => if any_pressed(self.keys) {
                Ok(self.with_register(x, lowest_pressed(self.keys) as u8))
            } else {
                Ok(self.at((self.pc - 2) as u16))
            },
            Instruction::SetDelay { x } => Ok(Machine { delay: self.register(x), ..self }),
            Instruction::SetSound { x } => Ok(Machine { sound: self.register(x), ..self }),
            Instruction::AddIndex { x } => Ok(
                self.with_index(((self.index + self.register(x)) % 0x10000) as u16),
            ),
            Instruction::Glyph { x } => Ok(
                self.with_index(glyph_address(self.register(x) as int) as u16),
            ),
            Instruction::Decimal { x } => if self.index + 2 < MEMORY_SIZE {
                let value = self.register(x);
                Ok(
                    Machine {
                        memory: self.memory.update(self.index as int, value / 100).update(
                            self.index + 1,
                            value / 10 % 10,
                        ).update(self.index + 2, value % 10),
                        ..self
                    },
                )
            } else {
                Err(Fault::MemoryOutOfBounds)
            },
            Instruction::Store { x } => if self.index + x < MEMORY_SIZE {
                Ok(
                    Machine {
                        memory: Seq::new(
                            MEMORY_SIZE as nat,
                            |at: int|
                                if self.index <= at <= self.index + x {
                                    self.registers[at - self.index]
                                } else {
                                    self.memory[at]
                                },
                        ),
                        ..self
                    },
                )
            } else {
                Err(Fault::MemoryOutOfBounds)
            },
            Instruction::Fill { x } => if self.index + x < MEMORY_SIZE {
                Ok(
                    Machine {
                        registers: Seq::new(
                            REGISTER_COUNT as nat,
                            |i: int|
                                if i <= x {
                                    self.memory[self.index + i]
                                } else {
                                    self.registers[i]
                                },
                        ),
                        ..self
                    },
                )
            } else {
                Err(Fault::MemoryOutOfBounds)
            },
            Instruction::Unknown { word } => Err(Fault::UnknownInstruction(word)),
        }
    }

    /// The machine after one fetch, decode and execute cycle, or why the
    /// cycle is refused.
    pub open spec fn step(self, random: u8) -> Result<Machine, Fault> {
        match self.fetch() {
            Ok((fetched, word)) => fetched.execute(decoded(word), random),
            Err(fault) => Err(fault),
        }
    }

    /// Whether the next cycle draws a random byte.
    pub open spec fn draws_random(self) -> bool {
        match self.fetch() {
            Ok((_, word)) => decoded(word) is Random,
            Err(_) => false,
        }
    }

    /// A cycle that is not refused keeps the sizes of the machine's parts.
    pub proof fn lemma_step_keeps_wf(self, random: u8)
        requires
            self.wf(),
        ensures
            self.step(random) matches Ok(next) ==> next.wf(),
    {
    }
}

} // verus!
