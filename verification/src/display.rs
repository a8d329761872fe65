//! The display surface: a grid of 64 by 32 pixels, and what drawing a
//! sprite does to it.
//!
//! A sprite is a sequence of bytes, one per row from the top; within a row
//! the most significant bit is the leftmost pixel. Drawing toggles every
//! pixel that a set bit of the sprite lands on, and positions wrap around
//! both edges of the grid.

use vstd::prelude::*;

verus! {

/// Width of the display in pixels.
pub const SCREEN_WIDTH: usize = 64;

/// Height of the display in pixels.
pub const SCREEN_HEIGHT: usize = 32;

/// Number of pixels of the display.
pub const SCREEN_SIZE: usize = 2048;

/// Whether the pixel in column `col` (0 is leftmost) of a sprite row is set.
pub open spec fn sprite_bit(row: u8, col: u8) -> bool {
    row & (0x80u8 >> col) != 0
}

/// Index of the pixel in column `px` of row `py`.
pub open spec fn pixel_index(px: int, py: int) -> int {
    px + SCREEN_WIDTH * py
}

/// Whether a set bit of `sprite`, drawn with its top left corner at
/// `(x, y)`, lands on pixel `p`.
///
/// The pixel lies `dx` columns right of `x` and `dy` rows below `y`, both
/// counted around the edges; it is covered if that offset lies inside the
/// sprite and the bit there is set.
pub open spec fn sprite_covers(sprite: Seq<u8>, x: int, y: int, p: int) -> bool {
    let dx = (p % 64 - x) % 64;
    let dy = (p / 64 - y) % 32;
    dx < 8 && dy < sprite.len() && sprite_bit(sprite[dy], dx as u8)
}

/// The display after `sprite` has been drawn at `(x, y)`: covered pixels
/// are toggled, all others keep their state.
pub open spec fn draw(display: Seq<bool>, sprite: Seq<u8>, x: int, y: int) -> Seq<bool> {
    Seq::new(SCREEN_SIZE as nat, |p: int| display[p] != sprite_covers(sprite, x, y, p))
}

/// Whether drawing `sprite` at `(x, y)` turns off a pixel that is lit in
/// `display`.
pub open spec fn collides(display: Seq<bool>, sprite: Seq<u8>, x: int, y: int) -> bool {
    exists|p: int| 0 <= p < SCREEN_SIZE && display[p] && #[trigger] sprite_covers(sprite, x, y, p)
}

/// The display with every pixel off.
pub open spec fn blank() -> Seq<bool> {
    Seq::new(SCREEN_SIZE as nat, |p: int| false)
}

/// The pixel that lies `col` columns right of `x` and `row` rows below
/// `y`, counted around the edges, is on the grid and has exactly these
/// offsets.
pub proof fn lemma_pixel_at_offset(x: int, y: int, row: int, col: int)
    requires
        0 <= row < 32,
        0 <= col < 64,
    ensures
        ({
            let p = pixel_index((x + col) % 64, (y + row) % 32);
            &&& 0 <= p < SCREEN_SIZE
            &&& p % 64 == (x + col) % 64
            &&& p / 64 == (y + row) % 32
            &&& (p % 64 - x) % 64 == col
            &&& (p / 64 - y) % 32 == row
        }),
{
}

/// A pixel is the one found at its own offsets from `(x, y)`.
pub proof fn lemma_offset_of_pixel(x: int, y: int, p: int)
    requires
        0 <= p < SCREEN_SIZE,
    ensures
        p == pixel_index((x + (p % 64 - x) % 64) % 64, (y + (p / 64 - y) % 32) % 32),
{
}

/// Whether `sprite`, drawn at `(x, y)`, covers pixel `p` with a bit that
/// comes before column `col` of row `row` when the sprite is walked row by
/// row, each row from the left.
pub open spec fn sprite_covers_before(
    sprite: Seq<u8>,
    x: int,
    y: int,
    row: int,
    col: int,
    p: int,
) -> bool {
    let dx = (p % 64 - x) % 64;
    let dy = (p / 64 - y) % 32;
    sprite_covers(sprite, x, y, p) && (dy < row || (dy == row && dx < col))
}

/// The display when the bits of `sprite` that come before column `col` of
/// row `row` have been drawn.
pub open spec fn draw_before(
    display: Seq<bool>,
    sprite: Seq<u8>,
    x: int,
    y: int,
    row: int,
    col: int,
) -> Seq<bool> {
    Seq::new(
        SCREEN_SIZE as nat,
        |p: int| display[p] != sprite_covers_before(sprite, x, y, row, col, p),
    )
}

/// Whether a bit of `sprite` that comes before column `col` of row `row`
/// lands on a pixel that is lit in `display`.
pub open spec fn collides_before(
    display: Seq<bool>,
    sprite: Seq<u8>,
    x: int,
    y: int,
    row: int,
    col: int,
) -> bool {
    exists|p: int|
        0 <= p < SCREEN_SIZE && display[p] && #[trigger] sprite_covers_before(
            sprite,
            x,
            y,
            row,
            col,
            p,
        )
}

/// Before the first bit nothing has been drawn.
pub proof fn lemma_draw_start(display: Seq<bool>, sprite: Seq<u8>, x: int, y: int)
    requires
        display.len() == SCREEN_SIZE,
    ensures
        draw_before(display, sprite, x, y, 0, 0) == display,
        !collides_before(display, sprite, x, y, 0, 0),
{
}

/// Drawing the bit in column `col` of row `row`: a set bit toggles the one
/// pixel it lands on, which no earlier bit of the sprite has touched, and
/// collides if that pixel was lit; a clear bit changes nothing.
pub proof fn lemma_draw_bit(
    display: Seq<bool>,
    sprite: Seq<u8>,
    x: int,
    y: int,
    row: int,
    col: int,
)
    requires
        display.len() == SCREEN_SIZE,
        0 <= row < sprite.len(),
        row < 32,
        0 <= col < 8,
    ensures
        ({
            let target = pixel_index((x + col) % 64, (y + row) % 32);
            let drawn = draw_before(display, sprite, x, y, row, col);
            let next = draw_before(display, sprite, x, y, row, col + 1);
            let collided = collides_before(display, sprite, x, y, row, col);
            let collides_next = collides_before(display, sprite, x, y, row, col + 1);
            &&& 0 <= target < SCREEN_SIZE
            &&& drawn[target] == display[target]
            &&& if sprite_bit(sprite[row], col as u8) {
                next == drawn.update(target, !drawn[target]) && collides_next == (collided
                    || display[target])
            } else {
                next == drawn && collides_next == collided
            }
        }),
{
    let target = pixel_index((x + col) % 64, (y + row) % 32);
    lemma_pixel_at_offset(x, y, row, col);
    assert forall|p: int| 0 <= p < SCREEN_SIZE && p != target implies sprite_covers_before(
        sprite,
        x,
        y,
        row,
        col + 1,
        p,
    ) == sprite_covers_before(sprite, x, y, row, col, p) by {
        lemma_offset_of_pixel(x, y, p);
    }
    assert(!sprite_covers_before(sprite, x, y, row, col, target));
    assert(sprite_covers_before(sprite, x, y, row, col + 1, target) == sprite_bit(
        sprite[row],
        col as u8,
    ));
    if collides_before(display, sprite, x, y, row, col) {
        let p = choose|p: int|
            0 <= p < SCREEN_SIZE && display[p] && #[trigger] sprite_covers_before(
                sprite,
                x,
                y,
                row,
                col,
                p,
            );
        assert(sprite_covers_before(sprite, x, y, row, col + 1, p));
    }
    if sprite_bit(sprite[row], col as u8) && display[target] {
        assert(sprite_covers_before(sprite, x, y, row, col + 1, target));
    }
    if collides_before(display, sprite, x, y, row, col + 1) {
        let p = choose|p: int|
            0 <= p < SCREEN_SIZE && display[p] && #[trigger] sprite_covers_before(
                sprite,
                x,
                y,
                row,
                col + 1,
                p,
            );
        if p != target {
            assert(sprite_covers_before(sprite, x, y, row, col, p));
        }
    }
    let drawn = draw_before(display, sprite, x, y, row, col);
    let next = draw_before(display, sprite, x, y, row, col + 1);
    if sprite_bit(sprite[row], col as u8) {
        assert(next =~= drawn.update(target, !drawn[target]));
    } else {
        assert(next =~= drawn);
    }
}

/// After the last bit of a row comes the first bit of the next row.
pub proof fn lemma_draw_row(display: Seq<bool>, sprite: Seq<u8>, x: int, y: int, row: int)
    ensures
        draw_before(display, sprite, x, y, row, 8) == draw_before(display, sprite, x, y, row + 1, 0),
        collides_before(display, sprite, x, y, row, 8) == collides_before(
            display,
            sprite,
            x,
            y,
            row + 1,
            0,
        ),
{
    assert forall|p: int|
        sprite_covers_before(sprite, x, y, row, 8, p) == sprite_covers_before(
            sprite,
            x,
            y,
            row + 1,
            0,
            p,
        ) by {}
    if collides_before(display, sprite, x, y, row, 8) {
        let p = choose|p: int|
            0 <= p < SCREEN_SIZE && display[p] && #[trigger] sprite_covers_before(
                sprite,
                x,
                y,
                row,
                8,
                p,
            );
        assert(sprite_covers_before(sprite, x, y, row + 1, 0, p));
    }
    if collides_before(display, sprite, x, y, row + 1, 0) {
        let p = choose|p: int|
            0 <= p < SCREEN_SIZE && display[p] && #[trigger] sprite_covers_before(
                sprite,
                x,
                y,
                row + 1,
                0,
                p,
            );
        assert(sprite_covers_before(sprite, x, y, row, 8, p));
    }
}

/// When every row has been walked the sprite is drawn.
pub proof fn lemma_draw_done(display: Seq<bool>, sprite: Seq<u8>, x: int, y: int)
    ensures
        draw_before(display, sprite, x, y, sprite.len() as int, 0) == draw(display, sprite, x, y),
        collides_before(display, sprite, x, y, sprite.len() as int, 0) == collides(
            display,
            sprite,
            x,
            y,
        ),
{
    let rows = sprite.len() as int;
    assert forall|p: int|
        sprite_covers_before(sprite, x, y, rows, 0, p) == sprite_covers(sprite, x, y, p) by {}
    if collides_before(display, sprite, x, y, rows, 0) {
        let p = choose|p: int|
            0 <= p < SCREEN_SIZE && display[p] && #[trigger] sprite_covers_before(
                sprite,
                x,
                y,
                rows,
                0,
                p,
            );
        assert(sprite_covers(sprite, x, y, p));
    }
    if collides(display, sprite, x, y) {
        let p = choose|p: int|
            0 <= p < SCREEN_SIZE && display[p] && #[trigger] sprite_covers(sprite, x, y, p);
        assert(sprite_covers_before(sprite, x, y, rows, 0, p));
    }
}

} // verus!
