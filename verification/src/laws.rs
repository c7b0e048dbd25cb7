//! Laws of the machine: what holds of the model for every state and every
//! instruction word, proved from the definitions in [`crate::machine`] and
//! [`crate::sprite`].

use vstd::prelude::*;

use crate::fault::Fault;
use crate::font::{FONTSET, GLYPH_HEIGHT};
use crate::instruction::{decoded, nibble, Instruction};
use crate::machine::{any_pressed, is_lowest_pressed, Machine};
use crate::sprite::{
    collides, column_through, covers, drawn, lemma_covered_is_target, lemma_target_is_covered, lit,
    row_through, sprite_at, target,
};
use crate::{MEMORY_SIZE, SCREEN_HEIGHT, SCREEN_SIZE, SCREEN_WIDTH, STACK_DEPTH, START_ADDRESS};

verus! {

/// Adding one register to another (`8XY4`) always succeeds and leaves the
/// flag at 1 exactly when the two values sum to more than 255. Unless the
/// destination is the flag register itself, it then holds the sum modulo
/// 256.
pub proof fn law_add_carries(machine: Machine, word: u16, random: u8)
    requires
        machine.wf(),
        nibble(word, 0) == 0x8,
        nibble(word, 3) == 0x4,
    ensures
        ({
            let x = nibble(word, 1);
            let y = nibble(word, 2);
            let sum = machine.register(x) + machine.register(y);
            &&& machine.execute(decoded(word), random) matches Ok(next)
            &&& next.register(0xF) == (if sum > 255 { 1u8 } else { 0u8 })
            &&& x != 0xF ==> next.register(x) == sum % 256
        }),
{
}

/// Subtracting one register from another (`8XY5`) always succeeds and
/// leaves the flag at 1 exactly when the first value is at least the second,
/// that is when nothing is borrowed. Unless the destination is the flag
/// register itself, it then holds the difference modulo 256.
pub proof fn law_subtract_borrows(machine: Machine, word: u16, random: u8)
    requires
        machine.wf(),
        nibble(word, 0) == 0x8,
        nibble(word, 3) == 0x5,
    ensures
        ({
            let x = nibble(word, 1);
            let y = nibble(word, 2);
            let minuend = machine.register(x);
            let subtrahend = machine.register(y);
            &&& machine.execute(decoded(word), random) matches Ok(next)
            &&& next.register(0xF) == (if minuend >= subtrahend { 1u8 } else { 0u8 })
            &&& x != 0xF && minuend >= subtrahend ==> next.register(x) == minuend - subtrahend
            &&& x != 0xF && minuend < subtrahend ==> next.register(x) == minuend - subtrahend + 256
        }),
{
}

/// Combining a sprite into the screen twice at one place gives the screen
/// back, and the second time collides exactly when the sprite covers a pixel
/// that was off at first.
pub proof fn law_drawn_twice(screen: Seq<bool>, sprite: Seq<u8>, left: int, top: int)
    ensures
        drawn(drawn(screen, sprite, left, top), sprite, left, top) == screen,
        collides(drawn(screen, sprite, left, top), sprite, left, top) <==> exists|pixel: int|
            0 <= pixel < screen.len() && !#[trigger] screen[pixel] && covers(
                sprite,
                left,
                top,
                pixel,
            ),
{
    let once = drawn(screen, sprite, left, top);
    assert(drawn(once, sprite, left, top) =~= screen);
    if collides(once, sprite, left, top) {
        let pixel = choose|pixel: int|
            0 <= pixel < once.len() && #[trigger] once[pixel] && covers(sprite, left, top, pixel);
        assert(!screen[pixel]);
    }
    if exists|pixel: int|
        0 <= pixel < screen.len() && !#[trigger] screen[pixel] && covers(sprite, left, top, pixel) {
        let pixel = choose|pixel: int|
            0 <= pixel < screen.len() && !#[trigger] screen[pixel] && covers(
                sprite,
                left,
                top,
                pixel,
            );
        assert(once[pixel]);
    }
}

/// Drawing a sprite (`DXYN`) twice in a row, with coordinates taken from
/// registers other than the flag register, leaves the screen as it was
/// before the first draw. The flag after the second draw is 1 exactly when
/// the sprite covers a pixel that was off before the first; so where the
/// first draw lit at least one pixel, the second reports a collision.
pub proof fn law_draw_twice(machine: Machine, word: u16, random: u8)
    requires
        machine.wf(),
        nibble(word, 0) == 0xD,
        nibble(word, 1) != 0xF,
        nibble(word, 2) != 0xF,
        nibble(word, 3) == 0 || machine.index + nibble(word, 3) <= MEMORY_SIZE,
    ensures
        ({
            let sprite = sprite_at(machine.memory, machine.index as int, nibble(word, 3) as int);
            let left = machine.register(nibble(word, 1)) as int;
            let top = machine.register(nibble(word, 2)) as int;
            &&& machine.execute(decoded(word), random) matches Ok(once)
            &&& once.execute(decoded(word), random) matches Ok(twice)
            &&& twice.screen == machine.screen
            &&& twice.register(0xF) == 1 <==> exists|pixel: int|
                0 <= pixel < SCREEN_SIZE && !#[trigger] machine.screen[pixel] && covers(
                    sprite,
                    left,
                    top,
                    pixel,
                )
        }),
{
    let sprite = sprite_at(machine.memory, machine.index as int, nibble(word, 3) as int);
    let left = machine.register(nibble(word, 1)) as int;
    let top = machine.register(nibble(word, 2)) as int;
    law_drawn_twice(machine.screen, sprite, left, top);
}

/// Drawing wraps around the edges of the screen: the sprite bit at `row`
/// and `column`, if it is set, flips the pixel in column `left + column`
/// modulo 64 of row `top + row` modulo 32, which is a pixel of the screen;
/// a pixel that no set bit falls on stays as it was.
pub proof fn law_draw_wraps(machine: Machine, word: u16, random: u8)
    requires
        machine.wf(),
        nibble(word, 0) == 0xD,
        nibble(word, 3) == 0 || machine.index + nibble(word, 3) <= MEMORY_SIZE,
    ensures
        ({
            let sprite = sprite_at(machine.memory, machine.index as int, nibble(word, 3) as int);
            let left = machine.register(nibble(word, 1)) as int;
            let top = machine.register(nibble(word, 2)) as int;
            &&& machine.execute(decoded(word), random) matches Ok(next)
            &&& next.screen.len() == SCREEN_SIZE
            &&& forall|row: int, column: int|
                lit(sprite, row, column) ==> {
                    let pixel = #[trigger] target(left, top, row, column);
                    &&& 0 <= pixel < SCREEN_SIZE
                    &&& pixel / (SCREEN_WIDTH as int) == (top + row) % (SCREEN_HEIGHT as int)
                    &&& pixel % (SCREEN_WIDTH as int) == (left + column) % (SCREEN_WIDTH as int)
                    &&& next.screen[pixel] == !machine.screen[pixel]
                }
            &&& forall|pixel: int|
                0 <= pixel < SCREEN_SIZE && !(exists|row: int, column: int|
                    lit(sprite, row, column) && #[trigger] target(left, top, row, column) == pixel)
                    ==> #[trigger] next.screen[pixel] == machine.screen[pixel]
        }),
{
    let sprite = sprite_at(machine.memory, machine.index as int, nibble(word, 3) as int);
    let left = machine.register(nibble(word, 1)) as int;
    let top = machine.register(nibble(word, 2)) as int;
    assert forall|row: int, column: int| lit(sprite, row, column) implies {
        let pixel = #[trigger] target(left, top, row, column);
        &&& 0 <= pixel < SCREEN_SIZE
        &&& pixel / (SCREEN_WIDTH as int) == (top + row) % (SCREEN_HEIGHT as int)
        &&& pixel % (SCREEN_WIDTH as int) == (left + column) % (SCREEN_WIDTH as int)
        &&& covers(sprite, left, top, pixel)
    } by {
        lemma_target_is_covered(left, top, row, column);
    }
    assert forall|pixel: int|
        0 <= pixel < SCREEN_SIZE && covers(sprite, left, top, pixel) implies exists|
        row: int,
        column: int,
    |
        lit(sprite, row, column) && #[trigger] target(left, top, row, column) == pixel by {
        lemma_covered_is_target(left, top, pixel);
        let row = row_through(top, pixel);
        let column = column_through(left, pixel);
        assert(lit(sprite, row, column) && target(left, top, row, column) == pixel);
    }
}

/// A return (`00EE`) undoes a call (`2NNN`). Let a cycle of `caller` be a
/// call, and let `callee` be the machine at some later time when the call
/// stack is again as the call left it. Then a return in `callee` continues
/// at the instruction that follows the call, with the call stack as it was
/// before the call.
pub proof fn law_return_follows_call(caller: Machine, callee: Machine, random: u8)
    requires
        caller.wf(),
        caller.stack.len() < STACK_DEPTH,
        caller.fetch() matches Ok((_, word)) && decoded(word) is Call,
        caller.step(random) matches Ok(called) && callee.stack == called.stack,
    ensures
        callee.execute(Instruction::Return, random) matches Ok(back) && back.pc == caller.pc + 2
            && back.stack == caller.stack,
{
    let called = caller.step(random)->Ok_0;
    assert(called.stack.drop_last() =~= caller.stack);
}

/// A call cycle is refused only when the call stack is full, and a call
/// that is not refused makes the stack one deeper.
pub proof fn law_call_deepens_stack(caller: Machine, random: u8)
    requires
        caller.wf(),
        caller.fetch() matches Ok((_, word)) && decoded(word) is Call,
    ensures
        caller.step(random) is Ok <==> caller.stack.len() < STACK_DEPTH,
        caller.step(random) matches Ok(called) ==> called.stack.len() == caller.stack.len() + 1,
{
}

/// Loading a program writes nothing below the start address, so the font
/// stays where it was.
pub proof fn law_load_keeps_low_memory(machine: Machine, rom: Seq<u8>, at: int)
    requires
        machine.wf(),
        0 <= at < START_ADDRESS,
    ensures
        machine.load(rom) matches Ok(loaded) ==> loaded.memory[at] == machine.memory[at],
{
}

/// A cycle writes memory only where a decimal or store instruction puts its
/// bytes: within sixteen bytes from the index register on. Every other byte,
/// the font included while the index register points elsewhere, stays as it
/// was.
pub proof fn law_step_writes_only_at_index(machine: Machine, random: u8, at: int)
    requires
        machine.wf(),
        0 <= at < MEMORY_SIZE,
        !(machine.index <= at < machine.index + 16),
    ensures
        machine.step(random) matches Ok(next) ==> next.memory[at] == machine.memory[at],
{
}

/// Only the host moves the keys and only a timer instruction sets a timer:
/// a cycle leaves the keypad as it was, and leaves each timer as it was
/// unless the instruction is the one that sets that timer.
pub proof fn law_step_keeps_keys_and_timers(machine: Machine, random: u8)
    requires
        machine.wf(),
    ensures
        machine.step(random) matches Ok(next) ==> {
            &&& next.keys == machine.keys
            &&& machine.fetch() matches Ok((_, word))
            &&& !(decoded(word) is SetDelay) ==> next.delay == machine.delay
            &&& !(decoded(word) is SetSound) ==> next.sound == machine.sound
        },
{
}

/// A timer tick never raises a timer, lowers it by one at most, and leaves
/// a timer at zero where it is.
pub proof fn law_tick_floors_at_zero(machine: Machine)
    ensures
        machine.tick().delay <= machine.delay <= machine.tick().delay + 1,
        machine.tick().sound <= machine.sound <= machine.tick().sound + 1,
        machine.delay == 0 ==> machine.tick().delay == 0,
        machine.sound == 0 ==> machine.tick().sound == 0,
        machine.delay > 0 ==> machine.tick().delay == machine.delay - 1,
        machine.sound > 0 ==> machine.tick().sound == machine.sound - 1,
{
}

/// The glyph instruction (`FX29`) with a digit in its register points the
/// index register at that digit's five rows of the font, as a new machine
/// holds them.
pub proof fn law_glyph_points_into_font(machine: Machine, word: u16, random: u8, row: int)
    requires
        machine.wf(),
        nibble(word, 0) == 0xF,
        word % 0x100 == 0x29,
        machine.register(nibble(word, 1)) < 16,
        0 <= row < GLYPH_HEIGHT,
    ensures
        ({
            let digit = machine.register(nibble(word, 1));
            &&& machine.execute(decoded(word), random) matches Ok(next)
            &&& next.index == GLYPH_HEIGHT * digit
            &&& Machine::initial().memory[next.index + row] == FONTSET@[GLYPH_HEIGHT * digit
                + row]
        }),
{
}

/// The decimal instruction (`FX33`) writes three decimal digits that make up
/// the value of its register: hundreds first, ones last.
pub proof fn law_decimal_digits_make_the_value(machine: Machine, word: u16, random: u8)
    requires
        machine.wf(),
        nibble(word, 0) == 0xF,
        word % 0x100 == 0x33,
        machine.index + 2 < MEMORY_SIZE,
    ensures
        ({
            let value = machine.register(nibble(word, 1));
            let at = machine.index as int;
            &&& machine.execute(decoded(word), random) matches Ok(next)
            &&& next.memory[at] < 10 && next.memory[at + 1] < 10 && next.memory[at + 2] < 10
            &&& 100 * next.memory[at] + 10 * next.memory[at + 1] + next.memory[at + 2] == value
        }),
{
}

/// Waiting for a key (`FX0A`) is polling. With no key down, the cycle
/// succeeds and leaves the whole machine as it was, program counter
/// included, so the next cycle waits again. With keys down, the cycle moves
/// past the instruction with the lowest of them in the register.
pub proof fn law_wait_key_polls(machine: Machine, random: u8, key: int)
    requires
        machine.wf(),
        machine.fetch() matches Ok((_, word)) && decoded(word) is WaitKey,
    ensures
        !any_pressed(machine.keys) ==> machine.step(random) == Ok::<Machine, Fault>(machine),
        is_lowest_pressed(machine.keys, key) ==> ({
            let x = nibble(machine.fetch()->Ok_0.1, 1);
            &&& machine.step(random) matches Ok(next)
            &&& next.pc == machine.pc + 2
            &&& next.register(x) == key
        }),
{
    let fetched = machine.fetch()->Ok_0.0;
    if !any_pressed(machine.keys) {
        assert(fetched.at((fetched.pc - 2) as u16) == machine);
    }
}

/// A snapshot is a value of its own: whatever cycles the machine runs after
/// the snapshot was taken, restoring it brings back the machine as it was
/// when it was taken.
pub proof fn law_snapshot_is_independent(machine: Machine, randoms: Seq<u8>)
    ensures
        machine.run(randoms).restore(machine.snapshot()) == machine,
{
}

/// Running cycles keeps the sizes of the machine's parts.
pub proof fn law_run_keeps_wf(machine: Machine, randoms: Seq<u8>)
    requires
        machine.wf(),
    ensures
        machine.run(randoms).wf(),
    decreases randoms.len(),
{
    if randoms.len() > 0 {
        machine.lemma_step_keeps_wf(randoms.first());
        let next = match machine.step(randoms.first()) {
            Ok(next) => next,
            Err(_) => machine,
        };
        law_run_keeps_wf(next, randoms.drop_first());
    }
}

} // verus!
