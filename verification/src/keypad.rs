//! The keypad: which key of a keyboard stands for which of the sixteen
//! keys of the machine.
//!
//! The machine's keys are laid out in four rows, `1 2 3 C`, `4 5 6 D`,
//! `7 8 9 E` and `A 0 B F`; the keyboard offers them as the block
//! `1 2 3 4`, `q w e r`, `a s d f`, `z x c v`.

use vstd::prelude::*;

verus! {

/// The keyboard keys, by the character each types, in the order of the
/// keypad indices 0 to F that they stand for.
pub open spec fn key_layout() -> Seq<char> {
    seq!['x', '1', '2', '3', 'q', 'w', 'e', 'a', 's', 'd', 'z', 'c', '4', 'r', 'f', 'v']
}

/// The keypad index that the keyboard key typing `key` stands for, if it
/// stands for one.
pub fn get_key_button(key: char) -> (index: Option<usize>)
    ensures
        match index {
            Some(i) => i < 16 && key_layout()[i as int] == key,
            None => forall|i: int| 0 <= i < 16 ==> key_layout()[i] != key,
        },
{
    match key {
        '1' => Some(0x1),
        '2' => Some(0x2),
        '3' => Some(0x3),
        '4' => Some(0xC),
        'q' => Some(0x4),
        'w' => Some(0x5),
        'e' => Some(0x6),
        'r' => Some(0xD),
        'a' => Some(0x7),
        's' => Some(0x8),
        'd' => Some(0x9),
        'f' => Some(0xE),
        'z' => Some(0xA),
        'x' => Some(0x0),
        'c' => Some(0xB),
        'v' => Some(0xF),
        _ => None,
    }
}

/// No two keypad indices share a keyboard key, so a key stands for at most
/// one index.
pub proof fn lemma_layout_distinct(i: int, j: int)
    requires
        0 <= i < 16,
        0 <= j < 16,
        i != j,
    ensures
        key_layout().len() == 16,
        key_layout()[i] != key_layout()[j],
{
}

} // verus!
