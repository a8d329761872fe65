//! What follows from the machine's definition: facts about single
//! instructions and about the machine as a whole, each proved once for
//! every state.

use vstd::prelude::*;
use crate::display::{
    blank, collides, draw, lemma_offset_of_pixel, lemma_pixel_at_offset, pixel_index, sprite_bit,
    sprite_covers, SCREEN_SIZE,
};
use crate::font::{FONTSET_SIZE, GLYPH_ROWS};
use crate::instruction::{nibble, word_of, Instruction};
use crate::machine::{flag, is_lowest_pressed, lowest_pressed, Machine, FLAG, RAM_SIZE};

verus! {

/// A word put together from four nibbles decodes by those nibbles.
pub proof fn lemma_decode_word(d0: int, d1: int, d2: int, d3: int)
    requires
        0 <= d0 < 16,
        0 <= d1 < 16,
        0 <= d2 < 16,
        0 <= d3 < 16,
    ensures
        ({
            let word = word_of(d0, d1, d2, d3) as u16;
            &&& word == word_of(d0, d1, d2, d3)
            &&& nibble(word, 0) == d0
            &&& nibble(word, 1) == d1
            &&& nibble(word, 2) == d2
            &&& nibble(word, 3) == d3
            &&& word as int % 256 == 16 * d2 + d3
            &&& word as int % 4096 == 256 * d1 + 16 * d2 + d3
        }),
{
    let word = word_of(d0, d1, d2, d3);
    assert(word / 4096 == d0 && word % 4096 == 256 * d1 + 16 * d2 + d3);
    assert(word / 256 == 16 * d0 + d1 && word % 256 == 16 * d2 + d3);
    assert(word / 16 == 256 * d0 + 16 * d1 + d2 && word % 16 == d3);
    assert((16 * d0 + d1) % 16 == d1);
    assert((256 * d0 + 16 * d1 + d2) % 16 == d2);
}

/// Every instruction that a word decodes to has its operands in range.
pub proof fn lemma_decode_wf(word: u16)
    ensures
        Instruction::spec_decode(word) matches Some(instruction) ==> instruction.wf(),
{
}

/// Only the random-number instruction looks at the random byte.
pub proof fn lemma_random_only_for_random(
    m: Machine,
    instruction: Instruction,
    first: u8,
    second: u8,
)
    requires
        !(instruction is Random),
    ensures
        m.execute(instruction, first) == m.execute(instruction, second),
{
}

/// Carrying out an instruction that runs into no fault leaves every
/// component of the machine with its size.
pub proof fn lemma_execute_valid(m: Machine, instruction: Instruction, random: u8)
    requires
        m.valid(),
        instruction.wf(),
        m.execute_fault(instruction) is None,
    ensures
        m.execute(instruction, random).valid(),
{
}

/// A tick that runs into no fault leaves every component of the machine
/// with its size.
pub proof fn lemma_tick_valid(m: Machine, random: u8)
    requires
        m.valid(),
        m.fault() is None,
    ensures
        m.tick(random).valid(),
{
    let instruction = Instruction::spec_decode(m.opcode())->Some_0;
    lemma_decode_wf(m.opcode());
    lemma_execute_valid(m.advance(), instruction, random);
}

/// No tick changes which keys are held down: the machine only reads them.
pub proof fn lemma_tick_keeps_keys(m: Machine, random: u8)
    ensures
        m.tick(random).keys == m.keys,
{
}

/// Glyph, `Fx29`, with a hexadecimal digit in register `x`: the address
/// register points at five bytes that lie inside the font, five times the
/// digit from its start.
pub proof fn lemma_glyph_in_font(m: Machine, x: int, random: u8)
    requires
        m.valid(),
        0 <= x < 16,
        m.v[x] < 16,
    ensures
        ({
            let after = m.execute(Instruction::Glyph { x: x as usize }, random);
            &&& after.i == GLYPH_ROWS * m.v[x]
            &&& after.i + GLYPH_ROWS <= FONTSET_SIZE
            &&& after == (Machine { i: after.i, ..m })
        }),
{
}

/// Add with carry, `8xy4`: the flag becomes 1 exactly when the sum of the
/// two registers exceeds 255, and register `x` holds the sum modulo 256,
/// unless `x` is the flag register, which then holds the flag.
pub proof fn lemma_add_with_carry(m: Machine, x: int, y: int, random: u8)
    requires
        m.valid(),
        0 <= x < 16,
        0 <= y < 16,
        m.pc + 1 < RAM_SIZE,
        m.opcode() == word_of(0x8, x, y, 0x4),
    ensures
        m.fault() is None,
        ({
            let after = m.tick(random);
            let sum = m.v[x] + m.v[y];
            &&& after.v[FLAG as int] == flag(sum > 255)
            &&& x != FLAG ==> after.v[x] == sum % 256
            &&& forall|r: int| 0 <= r < 16 && r != x && r != FLAG ==> after.v[r] == m.v[r]
            &&& after.pc == m.pc + 2
        }),
{
    lemma_decode_word(0x8, x, y, 0x4);
    assert(Instruction::spec_decode(m.opcode()) == Some(
        Instruction::Add { x: x as usize, y: y as usize },
    ));
}

/// Subtract, `8xy5`: the flag becomes 1 exactly when register `x` is at
/// least register `y`, and register `x` holds the difference modulo 256,
/// unless `x` is the flag register, which then holds the flag.
pub proof fn lemma_subtract(m: Machine, x: int, y: int, random: u8)
    requires
        m.valid(),
        0 <= x < 16,
        0 <= y < 16,
        m.pc + 1 < RAM_SIZE,
        m.opcode() == word_of(0x8, x, y, 0x5),
    ensures
        m.fault() is None,
        ({
            let after = m.tick(random);
            let difference = m.v[x] - m.v[y];
            &&& after.v[FLAG as int] == flag(m.v[x] >= m.v[y])
            &&& x != FLAG ==> after.v[x] == difference % 256
            &&& forall|r: int| 0 <= r < 16 && r != x && r != FLAG ==> after.v[r] == m.v[r]
            &&& after.pc == m.pc + 2
        }),
{
    lemma_decode_word(0x8, x, y, 0x5);
    assert(Instruction::spec_decode(m.opcode()) == Some(
        Instruction::Sub { x: x as usize, y: y as usize },
    ));
}

/// Jump, `1nnn`: the program counter becomes `nnn` whatever it was, and
/// nothing else changes.
pub proof fn lemma_jump(m: Machine, addr: int, random: u8)
    requires
        m.valid(),
        0 <= addr < 4096,
        m.pc + 1 < RAM_SIZE,
        m.opcode() == 0x1000 + addr,
    ensures
        m.fault() is None,
        m.tick(random) == (Machine { pc: addr as u16, ..m }),
{
    assert(Instruction::spec_decode(m.opcode()) == Some(Instruction::Jump { addr: addr as u16 }));
}

/// Wait for key, `Fx0A`, with no key held down: the tick changes nothing,
/// so that the same instruction is met again at the next tick.
pub proof fn lemma_wait_key_idle(m: Machine, x: int, random: u8)
    requires
        m.valid(),
        0 <= x < 16,
        m.pc + 1 < RAM_SIZE,
        m.opcode() == word_of(0xF, x, 0x0, 0xA),
        forall|k: int| 0 <= k < 16 ==> !m.keys[k],
    ensures
        m.fault() is None,
        m.tick(random) == m,
{
    lemma_decode_word(0xF, x, 0x0, 0xA);
    assert(Instruction::spec_decode(m.opcode()) == Some(Instruction::WaitKey { x: x as usize }));
    assert(lowest_pressed(m.keys) is None);
}

/// Wait for key, `Fx0A`, with a key held down: register `x` takes the
/// lowest index of such a key and the program goes on with the next
/// instruction.
pub proof fn lemma_wait_key_pressed(m: Machine, x: int, k: int, random: u8)
    requires
        m.valid(),
        0 <= x < 16,
        m.pc + 1 < RAM_SIZE,
        m.opcode() == word_of(0xF, x, 0x0, 0xA),
        is_lowest_pressed(m.keys, k),
    ensures
        m.fault() is None,
        m.tick(random) == (Machine { pc: (m.pc + 2) as u16, v: m.v.update(x, k as u8), ..m }),
{
    lemma_decode_word(0xF, x, 0x0, 0xA);
    assert(Instruction::spec_decode(m.opcode()) == Some(Instruction::WaitKey { x: x as usize }));
    lemma_lowest_pressed_unique(m.keys, k);
}

/// The lowest index of a key held down is the one `lowest_pressed` names.
pub proof fn lemma_lowest_pressed_unique(keys: Seq<bool>, k: int)
    requires
        is_lowest_pressed(keys, k),
    ensures
        lowest_pressed(keys) == Some(k),
{
    let chosen = choose|j: int| is_lowest_pressed(keys, j);
    if chosen < k {
        assert(!keys[chosen]);
    } else if k < chosen {
        assert(!keys[k]);
    }
}

/// A call followed by a return comes back to the instruction after the
/// call, with the call stack as it was.
pub proof fn lemma_call_return(m: Machine, addr: u16, random: u8)
    ensures
        m.execute(Instruction::Call { addr }, random).execute(Instruction::Return, random) == m,
{
}

/// Storing registers 0 to `x` and filling them again from the same place
/// leaves them as they were.
pub proof fn lemma_store_load(m: Machine, x: int, random: u8)
    requires
        m.valid(),
        0 <= x < 16,
        m.i + x < RAM_SIZE,
    ensures
        ({
            let stored = m.execute(Instruction::Store { x: x as usize }, random);
            let loaded = stored.execute(Instruction::Load { x: x as usize }, random);
            &&& forall|r: int| 0 <= r <= x ==> stored.memory[m.i + r] == m.v[r]
            &&& loaded == stored
            &&& loaded.v == m.v
        }),
{
}

/// Timers at zero stay at zero.
pub proof fn lemma_timers_rest_at_zero(m: Machine)
    requires
        m.delay == 0,
        m.sound == 0,
    ensures
        m.tick_timers() == m,
{
}

/// A timer above zero loses exactly one at a tick of the timers, and
/// neither timer ever gains.
pub proof fn lemma_timers_count_down(m: Machine)
    ensures
        m.delay > 0 ==> m.tick_timers().delay == m.delay - 1,
        m.sound > 0 ==> m.tick_timers().sound == m.sound - 1,
        m.tick_timers().delay <= m.delay,
        m.tick_timers().sound <= m.sound,
{
}

/// The three digits that the decimal instruction stores are decimal
/// digits, and they make up the value.
pub proof fn lemma_bcd_digits(value: u8)
    ensures
        value / 100 < 10,
        (value / 10) % 10 < 10,
        value % 10 < 10,
        100 * (value / 100) + 10 * ((value / 10) % 10) + value % 10 == value,
{
}

/// A sprite covers exactly the pixels that its set bits land on when bit
/// `col` of row `row` goes `col` columns right of `x` and `row` rows below
/// `y`, around the edges of the grid.
pub proof fn lemma_covers_wrapped(sprite: Seq<u8>, x: int, y: int, p: int)
    requires
        sprite.len() <= 32,
        0 <= p < SCREEN_SIZE,
    ensures
        sprite_covers(sprite, x, y, p) <==> exists|row: int, col: int|
            0 <= row < sprite.len() && 0 <= col < 8 && sprite_bit(sprite[row], col as u8) && p
                == #[trigger] pixel_index((x + col) % 64, (y + row) % 32),
{
    if sprite_covers(sprite, x, y, p) {
        let col = (p % 64 - x) % 64;
        let row = (p / 64 - y) % 32;
        lemma_offset_of_pixel(x, y, p);
        assert(p == pixel_index((x + col) % 64, (y + row) % 32));
    }
    if exists|row: int, col: int|
        0 <= row < sprite.len() && 0 <= col < 8 && sprite_bit(sprite[row], col as u8) && p
            == #[trigger] pixel_index((x + col) % 64, (y + row) % 32) {
        let (row, col) = choose|row: int, col: int|
            0 <= row < sprite.len() && 0 <= col < 8 && sprite_bit(sprite[row], col as u8) && p
                == #[trigger] pixel_index((x + col) % 64, (y + row) % 32);
        lemma_pixel_at_offset(x, y, row, col);
    }
}

/// Drawing toggles the pixel that a bit of the sprite lands on exactly
/// when that bit is set.
pub proof fn lemma_draw_toggles(
    display: Seq<bool>,
    sprite: Seq<u8>,
    x: int,
    y: int,
    row: int,
    col: int,
)
    requires
        display.len() == SCREEN_SIZE,
        sprite.len() <= 32,
        0 <= row < sprite.len(),
        0 <= col < 8,
    ensures
        ({
            let p = pixel_index((x + col) % 64, (y + row) % 32);
            &&& 0 <= p < SCREEN_SIZE
            &&& draw(display, sprite, x, y)[p] == (display[p] != sprite_bit(sprite[row], col as u8))
        }),
{
    lemma_pixel_at_offset(x, y, row, col);
}

/// Drawing the same sprite twice at the same place gives the display back.
pub proof fn lemma_draw_twice(display: Seq<bool>, sprite: Seq<u8>, x: int, y: int)
    requires
        display.len() == SCREEN_SIZE,
    ensures
        draw(draw(display, sprite, x, y), sprite, x, y) == display,
{
}

/// On a blank display a first draw turns no pixel off; a second draw of
/// the same sprite at the same place leaves the display blank again, and
/// turns a pixel off exactly when the first draw had lit one.
pub proof fn lemma_draw_twice_on_blank(sprite: Seq<u8>, x: int, y: int)
    ensures
        !collides(blank(), sprite, x, y),
        draw(draw(blank(), sprite, x, y), sprite, x, y) == blank(),
        collides(draw(blank(), sprite, x, y), sprite, x, y) <==> draw(blank(), sprite, x, y)
            != blank(),
{
    let once = draw(blank(), sprite, x, y);
    if collides(once, sprite, x, y) {
        let p = choose|p: int|
            0 <= p < SCREEN_SIZE && once[p] && #[trigger] sprite_covers(sprite, x, y, p);
        assert(once[p] != blank()[p]);
    }
    if once != blank() {
        assert(!(once =~= blank()));
        let p = choose|p: int| 0 <= p < SCREEN_SIZE && once[p] != blank()[p];
        assert(sprite_covers(sprite, x, y, p));
    }
}

/// Clear, draw, draw again: where the instruction that clears the display
/// is followed by two copies of one draw instruction, the first draw
/// reports no collision, and the second turns every pixel off again and
/// reports a collision exactly when the first had lit a pixel. Nothing but
/// the program counter and the flag register differs from the state in
/// which the display was cleared. The position must not be held in the flag
/// register, which the first draw overwrites.
pub proof fn lemma_clear_draw_draw(m: Machine, x: int, y: int, rows: int, random: u8)
    requires
        m.valid(),
        0 <= x < 16,
        0 <= y < 16,
        0 <= rows < 16,
        x != FLAG,
        y != FLAG,
        m.pc + 5 < RAM_SIZE,
        m.opcode() == 0x00E0,
        m.advance().opcode() == word_of(0xD, x, y, rows),
        m.advance().advance().opcode() == word_of(0xD, x, y, rows),
        rows > 0 ==> m.i + rows <= RAM_SIZE,
    ensures
        ({
            let cleared = m.tick(random);
            let once = cleared.tick(random);
            let twice = once.tick(random);
            &&& m.fault() is None
            &&& cleared.fault() is None
            &&& once.fault() is None
            &&& cleared.display == blank()
            &&& once.v[FLAG as int] == 0
            &&& twice.display == blank()
            &&& twice.v[FLAG as int] == flag(once.display != blank())
            &&& twice == (Machine { pc: (m.pc + 6) as u16, v: twice.v, ..cleared })
            &&& forall|r: int| 0 <= r < 16 && r != FLAG ==> twice.v[r] == m.v[r]
        }),
{
    lemma_decode_word(0xD, x, y, rows);
    let cleared = m.tick(random);
    let once = cleared.tick(random);
    let sprite = m.sprite(rows as nat);
    assert(cleared.advance().sprite(rows as nat) == sprite);
    assert(once.advance().sprite(rows as nat) == sprite);
    lemma_draw_twice_on_blank(sprite, m.v[x] as int, m.v[y] as int);
}

/// Drawing a sprite twice in a row at a position not held in the flag
/// register gives the display back, whatever it showed.
pub proof fn lemma_draw_draw(m: Machine, x: int, y: int, rows: int, random: u8)
    requires
        m.valid(),
        0 <= x < 16,
        0 <= y < 16,
        0 <= rows < 16,
        x != FLAG,
        y != FLAG,
    ensures
        ({
            let instruction = Instruction::Draw { x: x as usize, y: y as usize, rows: rows as u16 };
            m.execute(instruction, random).execute(instruction, random).display == m.display
        }),
{
    let instruction = Instruction::Draw { x: x as usize, y: y as usize, rows: rows as u16 };
    let once = m.execute(instruction, random);
    let sprite = m.sprite(rows as nat);
    assert(once.sprite(rows as nat) == sprite);
    lemma_draw_twice(m.display, sprite, m.v[x] as int, m.v[y] as int);
}

} // verus!
