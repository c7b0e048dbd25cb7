//! Sprite drawing. A sprite is at most fifteen rows of eight pixels and the
//! screen is 64 by 32, so through each pixel passes exactly one position of
//! the sprite, wrapped around the edges. The drawn screen is therefore stated
//! pixel by pixel: a pixel flips exactly when the sprite bit that passes
//! through it is set.

use vstd::prelude::*;

use crate::{MEMORY_SIZE, SCREEN_HEIGHT, SCREEN_SIZE, SCREEN_WIDTH};

verus! {

/// The bytes of `rows` sprite rows stored from address `index` on.
pub open spec fn sprite_at(memory: Seq<u8>, index: int, rows: int) -> Seq<u8> {
    Seq::new(rows as nat, |row: int| memory[index + row])
}

/// Whether the sprite has a set bit at `row` and `column`. A row is one
/// byte, and its most significant bit is the leftmost column.
pub open spec fn lit(sprite: Seq<u8>, row: int, column: int) -> bool {
    &&& 0 <= row < sprite.len()
    &&& 0 <= column < 8
    &&& sprite[row] & (0x80u8 >> (column as u8)) != 0
}

/// The pixel, in row-major order, on which the sprite bit at `row` and
/// `column` falls when the sprite's corner is at column `left` and row
/// `top`: both coordinates wrap around the edges of the screen.
pub open spec fn target(left: int, top: int, row: int, column: int) -> int {
    (top + row) % (SCREEN_HEIGHT as int) * SCREEN_WIDTH + (left + column) % (SCREEN_WIDTH as int)
}

/// The sprite row that passes through `pixel`.
pub open spec fn row_through(top: int, pixel: int) -> int {
    (pixel / (SCREEN_WIDTH as int) - top) % (SCREEN_HEIGHT as int)
}

/// The sprite column that passes through `pixel`.
pub open spec fn column_through(left: int, pixel: int) -> int {
    (pixel % (SCREEN_WIDTH as int) - left) % (SCREEN_WIDTH as int)
}

/// Whether a set bit of the sprite falls on `pixel`.
pub open spec fn covers(sprite: Seq<u8>, left: int, top: int, pixel: int) -> bool {
    lit(sprite, row_through(top, pixel), column_through(left, pixel))
}

/// The screen after the sprite is combined into it by exclusive or.
pub open spec fn drawn(screen: Seq<bool>, sprite: Seq<u8>, left: int, top: int) -> Seq<bool> {
    Seq::new(screen.len(), |pixel: int| screen[pixel] ^ covers(sprite, left, top, pixel))
}

/// Whether drawing the sprite turns off a pixel that was on.
pub open spec fn collides(screen: Seq<bool>, sprite: Seq<u8>, left: int, top: int) -> bool {
    exists|pixel: int|
        0 <= pixel < screen.len() && #[trigger] screen[pixel] && covers(sprite, left, top, pixel)
}

/// A sprite bit and the pixel it falls on determine each other: the bit at
/// `row` and `column` falls on a pixel of the screen, and the row and column
/// that pass through that pixel are `row` and `column` again.
pub proof fn lemma_target_is_covered(left: int, top: int, row: int, column: int)
    requires
        0 <= row < SCREEN_HEIGHT,
        0 <= column < SCREEN_WIDTH,
    ensures
        0 <= target(left, top, row, column) < SCREEN_SIZE,
        row_through(top, target(left, top, row, column)) == row,
        column_through(left, target(left, top, row, column)) == column,
{
}

/// The pixel through which a sprite bit passes is the target of that bit.
pub proof fn lemma_covered_is_target(left: int, top: int, pixel: int)
    requires
        0 <= pixel < SCREEN_SIZE,
    ensures
        0 <= row_through(top, pixel) < SCREEN_HEIGHT,
        0 <= column_through(left, pixel) < SCREEN_WIDTH,
        target(left, top, row_through(top, pixel), column_through(left, pixel)) == pixel,
{
}

/// Whether the sprite bit that passes through `pixel` is set and has been
/// combined into the screen once the rows above `row` and, of row `row`, the
/// columns left of `column` are done.
spec fn combined(sprite: Seq<u8>, left: int, top: int, row: int, column: int, pixel: int) -> bool {
    &&& covers(sprite, left, top, pixel)
    &&& row_through(top, pixel) < row || (row_through(top, pixel) == row && column_through(
        left,
        pixel,
    ) < column)
}

/// Whether a sprite bit combined so far fell on a pixel that was on.
spec fn struck(
    before: Seq<bool>,
    sprite: Seq<u8>,
    left: int,
    top: int,
    row: int,
    column: int,
) -> bool {
    exists|pixel: int|
        0 <= pixel < SCREEN_SIZE && #[trigger] before[pixel] && combined(
            sprite,
            left,
            top,
            row,
            column,
            pixel,
        )
}

/// Combines the `rows` sprite rows stored in `memory` from `index` on into
/// `screen` by exclusive or, the sprite's corner at column `left` and row
/// `top`, and tells whether a pixel that was on went off.
pub(crate) fn draw_sprite(
    screen: &mut [bool; SCREEN_SIZE],
    memory: &[u8; MEMORY_SIZE],
    index: usize,
    rows: usize,
    left: u8,
    top: u8,
) -> (collision: bool)
    requires
        rows < 16,
        rows > 0 ==> index + rows <= MEMORY_SIZE,
    ensures
        final(screen)@ == drawn(
            old(screen)@,
            sprite_at(memory@, index as int, rows as int),
            left as int,
            top as int,
        ),
        collision == collides(
            old(screen)@,
            sprite_at(memory@, index as int, rows as int),
            left as int,
            top as int,
        ),
    no_unwind
{
    let ghost sprite = sprite_at(memory@, index as int, rows as int);
    let ghost before = screen@;
    let mut collision = false;
    let mut row: usize = 0;
    while row < rows
        invariant
            row <= rows < 16,
            rows > 0 ==> index + rows <= MEMORY_SIZE,
            sprite == sprite_at(memory@, index as int, rows as int),
            before == old(screen)@,
            forall|pixel: int|
                0 <= pixel < SCREEN_SIZE ==> screen@[pixel] == (before[pixel] ^ combined(
                    sprite,
                    left as int,
                    top as int,
                    row as int,
                    0,
                    pixel,
                )),
            collision <==> struck(before, sprite, left as int, top as int, row as int, 0),
        decreases rows - row,
    {
        let bits = memory[index + row];
        let mut column: usize = 0;
        while column < 8
            invariant
                row < rows < 16,
                column <= 8,
                sprite.len() == rows,
                bits == sprite[row as int],
                before == old(screen)@,
                forall|pixel: int|
                    0 <= pixel < SCREEN_SIZE ==> screen@[pixel] == (before[pixel] ^ combined(
                        sprite,
                        left as int,
                        top as int,
                        row as int,
                        column as int,
                        pixel,
                    )),
                collision <==> struck(
                    before,
                    sprite,
                    left as int,
                    top as int,
                    row as int,
                    column as int,
                ),
            decreases 8 - column,
        {
            if bits & (0x80u8 >> (column as u8)) != 0 {
                let x = (left as usize + column) % SCREEN_WIDTH;
                let y = (top as usize + row) % SCREEN_HEIGHT;
                let pixel = x + SCREEN_WIDTH * y;
                proof {
                    lemma_target_is_covered(left as int, top as int, row as int, column as int);
                    assert(pixel == target(left as int, top as int, row as int, column as int));
                    assert(lit(sprite, row as int, column as int));
                    assert(screen@[pixel as int] == before[pixel as int]);
                    assert forall|other: int|
                        0 <= other < SCREEN_SIZE && other != pixel implies combined(
                        sprite,
                        left as int,
                        top as int,
                        row as int,
                        column + 1,
                        other,
                    ) == combined(
                        sprite,
                        left as int,
                        top as int,
                        row as int,
                        column as int,
                        other,
                    ) by {
                        lemma_covered_is_target(left as int, top as int, other);
                    }
                }
                collision = collision || screen[pixel];
                screen[pixel] = !screen[pixel];
                proof {
                    assert(combined(
                        sprite,
                        left as int,
                        top as int,
                        row as int,
                        column + 1,
                        pixel as int,
                    ));
                    assert(!combined(
                        sprite,
                        left as int,
                        top as int,
                        row as int,
                        column as int,
                        pixel as int,
                    ));
                }
            } else {
                proof {
                    assert(!lit(sprite, row as int, column as int));
                }
            }
            column += 1;
        }
        row += 1;
    }
    proof {
        assert(screen@ =~= drawn(before, sprite, left as int, top as int));
    }
    collision
}

} // verus!
