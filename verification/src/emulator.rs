//! The executable machine.

use vstd::prelude::*;

use crate::fault::Fault;
use crate::font::{FONTSET, GLYPH_HEIGHT};
use crate::instruction::{decode, decoded, Instruction};
use crate::machine::{agrees, any_pressed, is_lowest_pressed, lowest_pressed, Machine};
use crate::random::random;
use crate::sprite::draw_sprite;
use crate::text::{dump_registers, register_dump};
use crate::{KEY_COUNT, MEMORY_SIZE, REGISTER_COUNT, SCREEN_SIZE, STACK_DEPTH, START_ADDRESS};

verus! {

/// The executable machine. Its view is the [`Machine`] it stands for.
#[derive(Clone, Copy, Debug)]
pub struct Emulator {
    ram: [u8; MEMORY_SIZE],
    reg: [u8; REGISTER_COUNT],
    i_reg: u16,
    pc: u16,
    screen: [bool; SCREEN_SIZE],
    keys: [bool; KEY_COUNT],
    sp: u16,
    stack: [u16; STACK_DEPTH],
    dt: u8,
    st: u8,
}

impl View for Emulator {
    type V = Machine;

    closed spec fn view(&self) -> Machine {
        Machine {
            memory: self.ram@,
            registers: self.reg@,
            index: self.i_reg,
            pc: self.pc,
            stack: self.stack@.take(
                if self.sp <= STACK_DEPTH {
                    self.sp as int
                } else {
                    STACK_DEPTH as int
                },
            ),
            delay: self.dt,
            sound: self.st,
            screen: self.screen@,
            keys: self.keys@,
        }
    }
}

impl Emulator {
    #[verifier::type_invariant]
    spec fn stack_pointer_in_range(self) -> bool {
        self.sp <= STACK_DEPTH
    }

    /// The view of every emulator has its parts at their fixed sizes.
    pub proof fn lemma_view_wf(self)
        ensures
            self@.wf(),
    {
    }

    /// A machine with the font loaded and everything else zero.
    pub fn new() -> (emulator: Emulator)
        ensures
            emulator@ == Machine::initial(),
    {
        let mut emulator = Emulator {
            pc: START_ADDRESS,
            ram: [0u8; MEMORY_SIZE],
            screen: [false; SCREEN_SIZE],
            reg: [0u8; REGISTER_COUNT],
            i_reg: 0,
            keys: [false; KEY_COUNT],
            sp: 0,
            stack: [0u16; STACK_DEPTH],
            dt: 0,
            st: 0,
        };
        let mut at: usize = 0;
        while at < FONTSET.len()
            invariant
                at <= FONTSET@.len() == 80,
                emulator.pc == START_ADDRESS,
                emulator.i_reg == 0,
                emulator.sp == 0,
                emulator.dt == 0,
                emulator.st == 0,
                forall|i: int| 0 <= i < 16 ==> emulator.reg@[i] == 0,
                forall|i: int| 0 <= i < 16 ==> !emulator.keys@[i],
                forall|i: int| 0 <= i < SCREEN_SIZE ==> !emulator.screen@[i],
                forall|i: int| 0 <= i < at ==> emulator.ram@[i] == FONTSET@[i],
                forall|i: int| at <= i < MEMORY_SIZE ==> emulator.ram@[i] == 0,
            decreases FONTSET@.len() - at,
        {
            emulator.ram[at] = FONTSET[at];
            at += 1;
        }
        proof {
            let initial = Machine::initial();
            assert(emulator@.memory =~= initial.memory);
            assert(emulator@.registers =~= initial.registers);
            assert(emulator@.stack =~= initial.stack);
            assert(emulator@.screen =~= initial.screen);
            assert(emulator@.keys =~= initial.keys);
        }
        emulator
    }

    /// Puts the machine back into the state in which it was constructed,
    /// discarding any loaded program.
    pub fn reset(&mut self)
        ensures
            final(self)@ == Machine::initial(),
    {
        *self = Emulator::new();
    }

    /// An independent copy of the whole machine.
    pub fn snapshot(&self) -> (copy: Emulator)
        ensures
            copy == *self,
            copy@ == self@.snapshot(),
    {
        *self
    }

    /// Replaces the whole machine by `saved`.
    pub fn restore(&mut self, saved: &Emulator)
        ensures
            *final(self) == *saved,
            final(self)@ == old(self)@.restore(saved@),
    {
        *self = *saved;
    }

    /// The sixteen registers as four lines of text, for a person to read.
    pub fn state_string(&self) -> (text: String)
        ensures
            text@ == register_dump(self@.registers),
    {
        dump_registers(&self.reg)
    }

    /// The sixteen general registers.
    pub fn registers(&self) -> (registers: [u8; REGISTER_COUNT])
        ensures
            registers@ == self@.registers,
    {
        self.reg
    }

    /// The bytes of memory.
    pub fn memory(&self) -> (bytes: &[u8])
        ensures
            bytes@ == self@.memory,
            bytes@.len() == MEMORY_SIZE,
    {
        &self.ram
    }

    /// The index register.
    pub fn index_register(&self) -> (index: u16)
        ensures
            index == self@.index,
    {
        self.i_reg
    }

    /// The program counter.
    pub fn program_counter(&self) -> (pc: u16)
        ensures
            pc == self@.pc,
    {
        self.pc
    }

    /// The number of calls in progress.
    pub fn stack_depth(&self) -> (depth: usize)
        ensures
            depth == self@.stack.len(),
            depth <= STACK_DEPTH,
    {
        proof {
            use_type_invariant(self);
        }
        self.sp as usize
    }

    /// The delay timer.
    pub fn delay_timer(&self) -> (value: u8)
        ensures
            value == self@.delay,
    {
        self.dt
    }

    /// The sound timer; the host sounds its tone while this is not zero.
    pub fn sound_timer(&self) -> (value: u8)
        ensures
            value == self@.sound,
    {
        self.st
    }

    /// The pixels of the display, row by row from the top left.
    pub fn display(&self) -> (pixels: &[bool])
        ensures
            pixels@ == self@.screen,
            pixels@.len() == SCREEN_SIZE,
    {
        &self.screen
    }

    /// Records that key `index` is held down or released.
    pub fn keypress(&mut self, index: usize, pressed: bool)
        requires
            index < KEY_COUNT,
        ensures
            final(self)@ == old(self)@.press(index as int, pressed),
    {
        proof {
            use_type_invariant(&*self);
        }
        self.keys[index] = pressed;
    }

    /// Copies `rom` into memory from the start address on. A `rom` that does
    /// not fit is refused before anything is written.
    pub fn load_rom(&mut self, rom: &[u8]) -> (outcome: Result<(), Fault>)
        ensures
            agrees(old(self)@.load(rom@), old(self)@, final(self)@, outcome),
    {
        proof {
            use_type_invariant(&*self);
        }
        let start = START_ADDRESS as usize;
        if rom.len() > MEMORY_SIZE - start {
            return Err(Fault::ProgramTooLarge);
        }
        let mut i: usize = 0;
        while i < rom.len()
            invariant
                start == START_ADDRESS,
                i <= rom.len() <= MEMORY_SIZE - start,
                self.reg == old(self).reg,
                self.i_reg == old(self).i_reg,
                self.pc == old(self).pc,
                self.screen == old(self).screen,
                self.keys == old(self).keys,
                self.sp == old(self).sp,
                self.sp <= STACK_DEPTH,
                self.stack == old(self).stack,
                self.dt == old(self).dt,
                self.st == old(self).st,
                forall|at: int| start <= at < start + i ==> self.ram@[at] == rom@[at - start],
                forall|at: int|
                    0 <= at < MEMORY_SIZE && !(start <= at < start + i) ==> self.ram@[at]
                        == old(self).ram@[at],
            decreases rom.len() - i,
        {
            self.ram[start + i] = rom[i];
            i += 1;
        }
        proof {
            assert(self@.memory =~= old(self)@.load(rom@)->Ok_0.memory);
        }
        Ok(())
    }

    /// One tick of the timers: each goes down by one unless it is zero.
    pub fn timers_step(&mut self)
        ensures
            final(self)@ == old(self)@.tick(),
    {
        proof {
            use_type_invariant(&*self);
        }
        if self.dt > 0 {
            self.dt -= 1;
        }
        if self.st > 0 {
            self.st -= 1;
        }
    }

    /// One fetch, decode and execute cycle. Where the instruction asks for a
    /// random byte, one is drawn from the thread's generator. A cycle that
    /// is refused leaves the machine as it was, program counter included.
    pub fn step(&mut self) -> (outcome: Result<(), Fault>)
        ensures
            exists|random: u8| agrees(old(self)@.step(random), old(self)@, final(self)@, outcome),
            forall|random: u8|
                !old(self)@.draws_random() ==> agrees(
                    #[trigger] old(self)@.step(random),
                    old(self)@,
                    final(self)@,
                    outcome,
                ),
    {
        proof {
            use_type_invariant(&*self);
        }
        let ghost before = self@;
        let saved = self.pc;
        match self.fetch() {
            Err(fault) => Err(fault),
            Ok(word) => {
                let ghost fetched = self@;
                let outcome = self.execute(word);
                let ghost drawn_byte = choose|random: u8|
                    agrees(fetched.execute(decoded(word), random), fetched, self@, outcome);
                proof {
                    use_type_invariant(&*self);
                }
                if outcome.is_err() {
                    self.pc = saved;
                }
                proof {
                    assert(agrees(before.step(drawn_byte), before, self@, outcome));
                }
                outcome
            },
        }
    }

    /// One fetch, decode and execute cycle in which `random` is the byte
    /// that a random instruction draws. A cycle that is refused leaves the
    /// machine as it was, program counter included.
    pub fn step_with(&mut self, random: u8) -> (outcome: Result<(), Fault>)
        ensures
            agrees(old(self)@.step(random), old(self)@, final(self)@, outcome),
    {
        proof {
            use_type_invariant(&*self);
        }
        let saved = self.pc;
        match self.fetch() {
            Err(fault) => Err(fault),
            Ok(word) => {
                let outcome = self.perform(decode(word), random);
                proof {
                    use_type_invariant(&*self);
                }
                if outcome.is_err() {
                    self.pc = saved;
                }
                outcome
            },
        }
    }

    /// Reads the big-endian word at the program counter and moves the
    /// program counter past it.
    fn fetch(&mut self) -> (outcome: Result<u16, Fault>)
        ensures
            match old(self)@.fetch() {
                Ok((fetched, word)) => outcome == Ok::<u16, Fault>(word) && final(self)@
                    == fetched,
                Err(fault) => outcome == Err::<u16, Fault>(fault) && final(self)@ == old(self)@,
            },
    {
        proof {
            use_type_invariant(&*self);
        }
        if self.pc as usize + 1 >= MEMORY_SIZE {
            return Err(Fault::MemoryOutOfBounds);
        }
        let hi = self.ram[self.pc as usize] as u16;
        let lo = self.ram[self.pc as usize + 1] as u16;
        self.pc += 2;
        assert((hi << 8) | lo == hi * 256 + lo) by (bit_vector)
            requires
                hi < 256,
                lo < 256,
        ;
        Ok((hi << 8) | lo)
    }

    /// Decodes `op` and carries it out, drawing a random byte where the
    /// instruction asks for one.
    fn execute(&mut self, op: u16) -> (outcome: Result<(), Fault>)
        requires
            2 <= old(self)@.pc <= MEMORY_SIZE,
        ensures
            exists|random: u8|
                agrees(
                    old(self)@.execute(decoded(op), random),
                    old(self)@,
                    final(self)@,
                    outcome,
                ),
            forall|random: u8|
                !(decoded(op) is Random) ==> agrees(
                    #[trigger] old(self)@.execute(decoded(op), random),
                    old(self)@,
                    final(self)@,
                    outcome,
                ),
    {
        let instruction = decode(op);
        let random = match instruction {
            Instruction::Random { .. } => random(),
            _ => 0,
        };
        self.perform(instruction, random)
    }

    /// Puts `value` on top of the call stack.
    fn push(&mut self, value: u16)
        requires
            old(self)@.stack.len() < STACK_DEPTH,
        ensures
            final(self)@ == (Machine { stack: old(self)@.stack.push(value), ..old(self)@ }),
    {
        proof {
            use_type_invariant(&*self);
        }
        self.stack[self.sp as usize] = value;
        self.sp += 1;
        assert(self@.stack =~= old(self)@.stack.push(value));
    }

    /// Takes the top of the call stack off.
    fn pop(&mut self) -> (value: u16)
        requires
            old(self)@.stack.len() > 0,
        ensures
            value == old(self)@.stack.last(),
            final(self)@ == (Machine { stack: old(self)@.stack.drop_last(), ..old(self)@ }),
    {
        proof {
            use_type_invariant(&*self);
        }
        self.sp -= 1;
        assert(self@.stack =~= old(self)@.stack.drop_last());
        self.stack[self.sp as usize]
    }

    /// Writes `value` to register `x`.
    fn set_register(&mut self, x: u8, value: u8)
        requires
            x < 16,
        ensures
            final(self)@ == old(self)@.with_register(x, value),
    {
        proof {
            use_type_invariant(&*self);
        }
        self.reg[x as usize] = value;
    }

    /// Writes `value` to register `x` and then the flag to register 15.
    fn set_result(&mut self, x: u8, value: u8, flag: bool)
        requires
            x < 16,
        ensures
            final(self)@ == old(self)@.with_result(x, value, flag),
    {
        self.set_register(x, value);
        self.set_register(0xF, if flag { 1 } else { 0 });
    }

    /// Continues at `target`.
    fn jump(&mut self, target: u16)
        ensures
            final(self)@ == old(self)@.at(target),
    {
        proof {
            use_type_invariant(&*self);
        }
        self.pc = target;
    }

    /// Points the index register at `index`.
    fn set_index(&mut self, index: u16)
        ensures
            final(self)@ == old(self)@.with_index(index),
    {
        proof {
            use_type_invariant(&*self);
        }
        self.i_reg = index;
    }

    /// Sets the delay timer.
    fn set_delay(&mut self, value: u8)
        ensures
            final(self)@ == (Machine { delay: value, ..old(self)@ }),
    {
        proof {
            use_type_invariant(&*self);
        }
        self.dt = value;
    }

    /// Sets the sound timer.
    fn set_sound(&mut self, value: u8)
        ensures
            final(self)@ == (Machine { sound: value, ..old(self)@ }),
    {
        proof {
            use_type_invariant(&*self);
        }
        self.st = value;
    }

    /// Turns every pixel off.
    fn clear_screen(&mut self)
        ensures
            final(self)@ == (Machine {
                screen: Seq::new(SCREEN_SIZE as nat, |pixel: int| false),
                ..old(self)@
            }),
    {
        proof {
            use_type_invariant(&*self);
        }
        self.screen = [false; SCREEN_SIZE];
        assert(self@.screen =~= Seq::new(SCREEN_SIZE as nat, |pixel: int| false));
    }

    /// Writes the hundreds, tens and ones of `value` to the three bytes of
    /// memory at the index register.
    fn store_decimal(&mut self, value: u8) -> (outcome: Result<(), Fault>)
        ensures
            outcome is Ok <==> old(self)@.index + 2 < MEMORY_SIZE,
            outcome is Err ==> outcome == Err::<(), Fault>(Fault::MemoryOutOfBounds)
                && final(self)@ == old(self)@,
            outcome is Ok ==> final(self)@ == (Machine {
                memory: old(self)@.memory.update(old(self)@.index as int, value / 100).update(
                    old(self)@.index + 1,
                    value / 10 % 10,
                ).update(old(self)@.index + 2, value % 10),
                ..old(self)@
            }),
    {
        proof {
            use_type_invariant(&*self);
        }
        if self.i_reg as usize + 2 >= MEMORY_SIZE {
            return Err(Fault::MemoryOutOfBounds);
        }
        let at = self.i_reg as usize;
        self.ram[at] = value / 100;
        self.ram[at + 1] = value / 10 % 10;
        self.ram[at + 2] = value % 10;
        Ok(())
    }

    /// Moves the program counter past the next instruction if `condition`
    /// holds.
    fn skip_if(&mut self, condition: bool)
        requires
            old(self)@.pc <= MEMORY_SIZE,
        ensures
            final(self)@ == old(self)@.skip_when(condition),
    {
        proof {
            use_type_invariant(&*self);
        }
        if condition {
            self.pc += 2;
        }
    }

    /// Carries out one decoded instruction.
    fn perform(&mut self, instruction: Instruction, random: u8) -> (outcome: Result<(), Fault>)
        requires
            instruction.wf(),
            2 <= old(self)@.pc <= MEMORY_SIZE,
        ensures
            agrees(old(self)@.execute(instruction, random), old(self)@, final(self)@, outcome),
    {
        proof {
            use_type_invariant(&*self);
        }
        match instruction {
            Instruction::ClearScreen => {
                self.clear_screen();
                Ok(())
            },
            Instruction::Return => {
                if self.sp == 0 {
                    return Err(Fault::StackUnderflow);
                }
                let target = self.pop();
                self.jump(target);
                Ok(())
            },
            Instruction::Jump { target } => {
                self.jump(target);
                Ok(())
            },
            Instruction::Call { target } => {
                if self.sp as usize >= STACK_DEPTH {
                    return Err(Fault::StackOverflow);
                }
                self.push(self.pc);
                self.jump(target);
                Ok(())
            },
            Instruction::SkipIfEqual { x, value } => {
                self.skip_if(self.reg[x as usize] == value);
                Ok(())
            },
            Instruction::SkipIfNotEqual { x, value } => {
                self.skip_if(self.reg[x as usize] != value);
                Ok(())
            },
            Instruction::SkipIfSame { x, y } => {
                self.skip_if(self.reg[x as usize] == self.reg[y as usize]);
                Ok(())
            },
            Instruction::Load { x, value } => {
                self.set_register(x, value);
                Ok(())
            },
            Instruction::AddImmediate { x, value } => {
                self.set_register(x, self.reg[x as usize].wrapping_add(value));
                Ok(())
            },
            Instruction::Move { x, y } => {
                self.set_register(x, self.reg[y as usize]);
                Ok(())
            },
            Instruction::Or { x, y } => {
                self.set_register(x, self.reg[x as usize] | self.reg[y as usize]);
                Ok(())
            },
            Instruction::And { x, y } => {
                self.set_register(x, self.reg[x as usize] & self.reg[y as usize]);
                Ok(())
            },
            Instruction::Xor { x, y } => {
                self.set_register(x, self.reg[x as usize] ^ self.reg[y as usize]);
                Ok(())
            },
            Instruction::Add { x, y } => {
                let sum = self.reg[x as usize] as u16 + self.reg[y as usize] as u16;
                self.set_result(x, (sum % 256) as u8, sum > 255);
                Ok(())
            },
            Instruction::Subtract { x, y } => {
                let minuend = self.reg[x as usize];
                let subtrahend = self.reg[y as usize];
                self.set_result(x, minuend.wrapping_sub(subtrahend), minuend >= subtrahend);
                Ok(())
            },
            Instruction::ShiftRight { x } => {
                let value = self.reg[x as usize];
                assert(value >> 1 == value / 2 && (value & 1 == 1) == (value % 2 == 1))
                    by (bit_vector);
                self.set_result(x, value >> 1, value & 1 == 1);
                Ok(())
            },
            Instruction::SubtractFrom { x, y } => {
                let minuend = self.reg[y as usize];
                let subtrahend = self.reg[x as usize];
                self.set_result(x, minuend.wrapping_sub(subtrahend), minuend >= subtrahend);
                Ok(())
            },
            Instruction::ShiftLeft { x } => {
                let value = self.reg[x as usize];
                assert(value << 1 == value * 2 % 256 && ((value >> 7) & 1 == 1) == (value >= 128))
                    by (bit_vector);
                self.set_result(x, value << 1, (value >> 7) & 1 == 1);
                Ok(())
            },
            Instruction::SkipIfDifferent { x, y } => {
                self.skip_if(self.reg[x as usize] != self.reg[y as usize]);
                Ok(())
            },
            Instruction::LoadIndex { address } => {
                self.set_index(address);
                Ok(())
            },
            Instruction::JumpOffset { base } => {
                self.jump(self.reg[0] as u16 + base);
                Ok(())
            },
            Instruction::Random { x, mask } => {
                self.set_register(x, random & mask);
                Ok(())
            },
            Instruction::Draw { x, y, rows } => self.draw(x, y, rows),
            Instruction::SkipIfKey { x } => {
                let key = self.reg[x as usize];
                if key as usize >= KEY_COUNT {
                    return Err(Fault::KeyOutOfRange);
                }
                self.skip_if(self.keys[key as usize]);
                Ok(())
            },
            Instruction::SkipIfNoKey { x } => {
                let key = self.reg[x as usize];
                if key as usize >= KEY_COUNT {
                    return Err(Fault::KeyOutOfRange);
                }
                self.skip_if(!self.keys[key as usize]);
                Ok(())
            },
            Instruction::ReadDelay { x } => {
                self.set_register(x, self.dt);
                Ok(())
            },
            Instruction::WaitKey { x } => {
                self.wait_key(x);
                Ok(())
            },
            Instruction::SetDelay { x } => {
                self.set_delay(self.reg[x as usize]);
                Ok(())
            },
            Instruction::SetSound { x } => {
                self.set_sound(self.reg[x as usize]);
                Ok(())
            },
            Instruction::AddIndex { x } => {
                self.set_index(self.i_reg.wrapping_add(self.reg[x as usize] as u16));
                Ok(())
            },
            Instruction::Glyph { x } => {
                self.set_index(self.reg[x as usize] as u16 * GLYPH_HEIGHT);
                Ok(())
            },
            Instruction::Decimal { x } => self.store_decimal(self.reg[x as usize]),
            Instruction::Store { x } => self.store_registers(x),
            Instruction::Fill { x } => self.fill_registers(x),
            Instruction::Unknown { word } => Err(Fault::UnknownInstruction(word)),
        }
    }

    /// Waits for a key: the lowest key held down goes to register `x`, and
    /// with no key down the program counter goes back to this instruction.
    fn wait_key(&mut self, x: u8)
        requires
            x < 16,
            old(self)@.pc >= 2,
        ensures
            final(self)@ == old(self)@.execute(Instruction::WaitKey { x }, 0)->Ok_0,
    {
        proof {
            use_type_invariant(&*self);
        }
        let mut key: usize = 0;
        while key < KEY_COUNT
            invariant
                key <= KEY_COUNT,
                *self == *old(self),
                x < 16,
                forall|lower: int| 0 <= lower < key ==> !self.keys@[lower],
            decreases KEY_COUNT - key,
        {
            if self.keys[key] {
                assert(is_lowest_pressed(self@.keys, key as int));
                assert(lowest_pressed(self@.keys) == key);
                self.set_register(x, key as u8);
                return ;
            }
            key += 1;
        }
        assert(!any_pressed(self@.keys));
        self.pc -= 2;
    }

    /// Copies registers 0 through `x` to memory at the index register.
    fn store_registers(&mut self, x: u8) -> (outcome: Result<(), Fault>)
        requires
            x < 16,
        ensures
            agrees(
                old(self)@.execute(Instruction::Store { x }, 0),
                old(self)@,
                final(self)@,
                outcome,
            ),
    {
        proof {
            use_type_invariant(&*self);
        }
        let base = self.i_reg as usize;
        if base + x as usize >= MEMORY_SIZE {
            return Err(Fault::MemoryOutOfBounds);
        }
        let mut i: usize = 0;
        while i <= x as usize
            invariant
                i <= x + 1,
                x < 16,
                base == old(self).i_reg,
                base + x < MEMORY_SIZE,
                self.reg == old(self).reg,
                self.i_reg == old(self).i_reg,
                self.pc == old(self).pc,
                self.screen == old(self).screen,
                self.keys == old(self).keys,
                self.sp == old(self).sp,
                self.sp <= STACK_DEPTH,
                self.stack == old(self).stack,
                self.dt == old(self).dt,
                self.st == old(self).st,
                forall|at: int|
                    0 <= at < MEMORY_SIZE ==> self.ram@[at] == if base <= at < base + i {
                        old(self).reg@[at - base]
                    } else {
                        old(self).ram@[at]
                    },
            decreases x + 1 - i,
        {
            self.ram[base + i] = self.reg[i];
            i += 1;
        }
        assert(self@.memory =~= old(self)@.execute(Instruction::Store { x }, 0)->Ok_0.memory);
        Ok(())
    }

    /// Copies memory at the index register to registers 0 through `x`.
    fn fill_registers(&mut self, x: u8) -> (outcome: Result<(), Fault>)
        requires
            x < 16,
        ensures
            agrees(
                old(self)@.execute(Instruction::Fill { x }, 0),
                old(self)@,
                final(self)@,
                outcome,
            ),
    {
        proof {
            use_type_invariant(&*self);
        }
        let base = self.i_reg as usize;
        if base + x as usize >= MEMORY_SIZE {
            return Err(Fault::MemoryOutOfBounds);
        }
        let mut i: usize = 0;
        while i <= x as usize
            invariant
                i <= x + 1,
                x < 16,
                base == old(self).i_reg,
                base + x < MEMORY_SIZE,
                self.ram == old(self).ram,
                self.i_reg == old(self).i_reg,
                self.pc == old(self).pc,
                self.screen == old(self).screen,
                self.keys == old(self).keys,
                self.sp == old(self).sp,
                self.sp <= STACK_DEPTH,
                self.stack == old(self).stack,
                self.dt == old(self).dt,
                self.st == old(self).st,
                forall|r: int|
                    0 <= r < REGISTER_COUNT ==> self.reg@[r] == if r < i {
                        old(self).ram@[base + r]
                    } else {
                        old(self).reg@[r]
                    },
            decreases x + 1 - i,
        {
            self.reg[i] = self.ram[base + i];
            i += 1;
        }
        assert(self@.registers =~= old(self)@.execute(Instruction::Fill { x }, 0)->Ok_0.registers);
        Ok(())
    }

    /// Draws the sprite of `rows` rows at the index register with its corner
    /// at the column in register `x` and the row in register `y`, and sets
    /// the flag register to whether a pixel went off.
    fn draw(&mut self, x: u8, y: u8, rows: u8) -> (outcome: Result<(), Fault>)
        requires
            x < 16,
            y < 16,
            rows < 16,
        ensures
            agrees(
                old(self)@.execute(Instruction::Draw { x, y, rows }, 0),
                old(self)@,
                final(self)@,
                outcome,
            ),
    {
        proof {
            use_type_invariant(&*self);
        }
        if rows > 0 && self.i_reg as usize + rows as usize > MEMORY_SIZE {
            return Err(Fault::MemoryOutOfBounds);
        }
        let left = self.reg[x as usize];
        let top = self.reg[y as usize];
        let collision = draw_sprite(
            &mut self.screen,
            &self.ram,
            self.i_reg as usize,
            rows as usize,
            left,
            top,
        );
        self.reg[0xF] = if collision {
            1
        } else {
            0
        };
        Ok(())
    }
}

} // verus!
