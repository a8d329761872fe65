//! The instruction set: the forms an instruction word can take, and how a
//! sixteen-bit word is decoded into one of them.

use vstd::prelude::*;

verus! {

/// One decoded instruction.
///
/// `x` and `y` name general-purpose registers, `addr` is a twelve-bit
/// address, `byte` an eight-bit operand taken from the instruction word.
#[derive(Clone, Copy, Debug, PartialEq, Eq, Structural)]
pub enum Instruction {
    /// `0000`: do nothing.
    Nop,
    /// `00E0`: turn every pixel off.
    ClearDisplay,
    /// `00EE`: return from a subroutine.
    Return,
    /// `1nnn`: continue at `addr`.
    Jump { addr: u16 },
    /// `2nnn`: call the subroutine at `addr`.
    Call { addr: u16 },
    /// `3xkk`: skip the next instruction if register `x` equals `byte`.
    SkipEqByte { x: usize, byte: u8 },
    /// `4xkk`: skip the next instruction if register `x` differs from `byte`.
    SkipNeByte { x: usize, byte: u8 },
    /// `5xy0`: skip the next instruction if registers `x` and `y` are equal.
    SkipEq { x: usize, y: usize },
    /// `6xkk`: set register `x` to `byte`.
    LoadByte { x: usize, byte: u8 },
    /// `7xkk`: add `byte` to register `x`, wrapping, without touching the flag.
    AddByte { x: usize, byte: u8 },
    /// `8xy0`: copy register `y` into register `x`.
    Move { x: usize, y: usize },
    /// `8xy1`: bitwise or of registers `x` and `y` into `x`.
    Or { x: usize, y: usize },
    /// `8xy2`: bitwise and of registers `x` and `y` into `x`.
    And { x: usize, y: usize },
    /// `8xy3`: bitwise exclusive or of registers `x` and `y` into `x`.
    Xor { x: usize, y: usize },
    /// `8xy4`: add register `y` to register `x`; the flag reports a carry.
    Add { x: usize, y: usize },
    /// `8xy5`: subtract register `y` from register `x`; the flag reports
    /// that nothing was borrowed.
    Sub { x: usize, y: usize },
    /// `8xy6`: shift register `x` right by one; the flag takes the bit
    /// shifted out.
    ShiftRight { x: usize },
    /// `8xy7`: set register `x` to register `y` minus register `x`; the
    /// flag reports that nothing was borrowed.
    SubFrom { x: usize, y: usize },
    /// `8xyE`: shift register `x` left by one; the flag takes the bit
    /// shifted out.
    ShiftLeft { x: usize },
    /// `9xy0`: skip the next instruction if registers `x` and `y` differ.
    SkipNe { x: usize, y: usize },
    /// `Annn`: set the address register to `addr`.
    LoadAddress { addr: u16 },
    /// `Bnnn`: continue at `addr` plus register 0.
    JumpOffset { addr: u16 },
    /// `Cxkk`: set register `x` to a random byte masked with `byte`.
    Random { x: usize, byte: u8 },
    /// `Dxyn`: draw the sprite of `rows` bytes found at the address
    /// register, at the position held in registers `x` and `y`.
    Draw { x: usize, y: usize, rows: u16 },
    /// `Ex9E`: skip the next instruction if the key named by register `x`
    /// is held down.
    SkipKey { x: usize },
    /// `ExA1`: skip the next instruction if the key named by register `x`
    /// is not held down.
    SkipNoKey { x: usize },
    /// `Fx07`: copy the delay timer into register `x`.
    ReadDelay { x: usize },
    /// `Fx0A`: wait until a key is held down and store its index in
    /// register `x`.
    WaitKey { x: usize },
    /// `Fx15`: set the delay timer to register `x`.
    SetDelay { x: usize },
    /// `Fx18`: set the sound timer to register `x`.
    SetSound { x: usize },
    /// `Fx1E`: add register `x` to the address register, wrapping.
    AddAddress { x: usize },
    /// `Fx29`: point the address register at the glyph of the digit in
    /// register `x`.
    Glyph { x: usize },
    /// `Fx33`: store the three decimal digits of register `x` at the
    /// address register.
    Bcd { x: usize },
    /// `Fx55`: store registers 0 to `x` at the address register.
    Store { x: usize },
    /// `Fx65`: fill registers 0 to `x` from the address register.
    Load { x: usize },
}

/// The four-bit field of `word` at position `k`, counted from the most
/// significant one, which is field 0.
pub open spec fn nibble(word: u16, k: int) -> int {
    if k == 0 {
        word as int / 4096
    } else if k == 1 {
        (word as int / 256) % 16
    } else if k == 2 {
        (word as int / 16) % 16
    } else {
        word as int % 16
    }
}

/// The instruction word made of the four given nibbles.
pub open spec fn word_of(d0: int, d1: int, d2: int, d3: int) -> int {
    4096 * d0 + 256 * d1 + 16 * d2 + d3
}

impl Instruction {
    /// The operands are in range: register indices below 16, addresses
    /// below 4096, sprite heights below 16.
    pub open spec fn wf(self) -> bool {
        match self {
            Instruction::Nop | Instruction::ClearDisplay | Instruction::Return => true,
            Instruction::Jump { addr }
            | Instruction::Call { addr }
            | Instruction::LoadAddress { addr }
            | Instruction::JumpOffset { addr } => addr < 4096,
            Instruction::SkipEqByte { x, .. }
            | Instruction::SkipNeByte { x, .. }
            | Instruction::LoadByte { x, .. }
            | Instruction::AddByte { x, .. }
            | Instruction::Random { x, .. }
            | Instruction::ShiftRight { x }
            | Instruction::ShiftLeft { x }
            | Instruction::SkipKey { x }
            | Instruction::SkipNoKey { x }
            | Instruction::ReadDelay { x }
            | Instruction::WaitKey { x }
            | Instruction::SetDelay { x }
            | Instruction::SetSound { x }
            | Instruction::AddAddress { x }
            | Instruction::Glyph { x }
            | Instruction::Bcd { x }
            | Instruction::Store { x }
            | Instruction::Load { x } => x < 16,
            Instruction::SkipEq { x, y }
            | Instruction::Move { x, y }
            | Instruction::Or { x, y }
            | Instruction::And { x, y }
            | Instruction::Xor { x, y }
            | Instruction::Add { x, y }
            | Instruction::Sub { x, y }
            | Instruction::SubFrom { x, y }
            | Instruction::SkipNe { x, y } => x < 16 && y < 16,
            Instruction::Draw { x, y, rows } => x < 16 && y < 16 && rows < 16,
        }
    }

    /// The instruction that `word` encodes, or `None` if it encodes none.
    ///
    /// The first nibble selects the family; within a family the remaining
    /// nibbles are either operands or must match exactly.
    pub open spec fn spec_decode(word: u16) -> Option<Instruction> {
        let family = nibble(word, 0);
        let x = nibble(word, 1) as usize;
        let y = nibble(word, 2) as usize;
        let last = nibble(word, 3);
        let low = word as int % 256;
        let addr = (word as int % 4096) as u16;
        let byte = low as u8;
        if family == 0x0 {
            if word == 0x0000 {
                Some(Instruction::Nop)
            } else if word == 0x00E0 {
                Some(Instruction::ClearDisplay)
            } else if word == 0x00EE {
                Some(Instruction::Return)
            } else {
                None
            }
        } else if family == 0x1 {
            Some(Instruction::Jump { addr })
        } else if family == 0x2 {
            Some(Instruction::Call { addr })
        } else if family == 0x3 {
            Some(Instruction::SkipEqByte { x, byte })
        } else if family == 0x4 {
            Some(Instruction::SkipNeByte { x, byte })
        } else if family == 0x5 {
            if last == 0x0 {
                Some(Instruction::SkipEq { x, y })
            } else {
                None
            }
        } else if family == 0x6 {
            Some(Instruction::LoadByte { x, byte })
        } else if family == 0x7 {
            Some(Instruction::AddByte { x, byte })
        } else if family == 0x8 {
            if last == 0x0 {
                Some(Instruction::Move { x, y })
            } else if last == 0x1 {
                Some(Instruction::Or { x, y })
            } else if last == 0x2 {
                Some(Instruction::And { x, y })
            } else if last == 0x3 {
                Some(Instruction::Xor { x, y })
            } else if last == 0x4 {
                Some(Instruction::Add { x, y })
            } else if last == 0x5 {
                Some(Instruction::Sub { x, y })
            } else if last == 0x6 {
                Some(Instruction::ShiftRight { x })
            } else if last == 0x7 {
                Some(Instruction::SubFrom { x, y })
            } else if last == 0xE {
                Some(Instruction::ShiftLeft { x })
            } else {
                None
            }
        } else if family == 0x9 {
            if last == 0x0 {
                Some(Instruction::SkipNe { x, y })
            } else {
                None
            }
        } else if family == 0xA {
            Some(Instruction::LoadAddress { addr })
        } else if family == 0xB {
            Some(Instruction::JumpOffset { addr })
        } else if family == 0xC {
            Some(Instruction::Random { x, byte })
        } else if family == 0xD {
            Some(Instruction::Draw { x, y, rows: last as u16 })
        } else if family == 0xE {
            if low == 0x9E {
                Some(Instruction::SkipKey { x })
            } else if low == 0xA1 {
                Some(Instruction::SkipNoKey { x })
            } else {
                None
            }
        } else {
            if low == 0x07 {
                Some(Instruction::ReadDelay { x })
            } else if low == 0x0A {
                Some(Instruction::WaitKey { x })
            } else if low == 0x15 {
                Some(Instruction::SetDelay { x })
            } else if low == 0x18 {
                Some(Instruction::SetSound { x })
            } else if low == 0x1E {
                Some(Instruction::AddAddress { x })
            } else if low == 0x29 {
                Some(Instruction::Glyph { x })
            } else if low == 0x33 {
                Some(Instruction::Bcd { x })
            } else if low == 0x55 {
                Some(Instruction::Store { x })
            } else if low == 0x65 {
                Some(Instruction::Load { x })
            } else {
                None
            }
        }
    }

    /// Decodes an instruction word.
    #[verifier::when_used_as_spec(spec_decode)]
    pub fn decode(word: u16) -> (r: Option<Instruction>)
        ensures
            r == Instruction::spec_decode(word),
            r matches Some(instruction) ==> instruction.wf(),
    {
        let digit1 = (word & 0xF000) >> 12;
        let digit2 = (word & 0x0F00) >> 8;
        let digit3 = (word & 0x00F0) >> 4;
        let digit4 = word & 0x000F;
        let nnn = word & 0x0FFF;
        let low = word & 0x00FF;
        proof {
            lemma_fields(word);
        }
        let x = digit2 as usize;
        let y = digit3 as usize;
        let byte = low as u8;
        match (digit1, digit2, digit3, digit4) {
            (0x0, 0x0, 0x0, 0x0) => Some(Instruction::Nop),
            (0x0, 0x0, 0xE, 0x0) => Some(Instruction::ClearDisplay),
            (0x0, 0x0, 0xE, 0xE) => Some(Instruction::Return),
            (0x1, _, _, _) => Some(Instruction::Jump { addr: nnn }),
            (0x2, _, _, _) => Some(Instruction::Call { addr: nnn }),
            (0x3, _, _, _) => Some(Instruction::SkipEqByte { x, byte }),
            (0x4, _, _, _) => Some(Instruction::SkipNeByte { x, byte }),
            (0x5, _, _, 0x0) => Some(Instruction::SkipEq { x, y }),
            (0x6, _, _, _) => Some(Instruction::LoadByte { x, byte }),
            (0x7, _, _, _) => Some(Instruction::AddByte { x, byte }),
            (0x8, _, _, 0x0) => Some(Instruction::Move { x, y }),
            (0x8, _, _, 0x1) => Some(Instruction::Or { x, y }),
            (0x8, _, _, 0x2) => Some(Instruction::And { x, y }),
            (0x8, _, _, 0x3) => Some(Instruction::Xor { x, y }),
            (0x8, _, _, 0x4) => Some(Instruction::Add { x, y }),
            (0x8, _, _, 0x5) => Some(Instruction::Sub { x, y }),
            (0x8, _, _, 0x6) => Some(Instruction::ShiftRight { x }),
            (0x8, _, _, 0x7) => Some(Instruction::SubFrom { x, y }),
            (0x8, _, _, 0xE) => Some(Instruction::ShiftLeft { x }),
            (0x9, _, _, 0x0) => Some(Instruction::SkipNe { x, y }),
            (0xA, _, _, _) => Some(Instruction::LoadAddress { addr: nnn }),
            (0xB, _, _, _) => Some(Instruction::JumpOffset { addr: nnn }),
            (0xC, _, _, _) => Some(Instruction::Random { x, byte }),
            (0xD, _, _, _) => Some(Instruction::Draw { x, y, rows: digit4 }),
            (0xE, _, 0x9, 0xE) => Some(Instruction::SkipKey { x }),
            (0xE, _, 0xA, 0x1) => Some(Instruction::SkipNoKey { x }),
            (0xF, _, 0x0, 0x7) => Some(Instruction::ReadDelay { x }),
            (0xF, _, 0x0, 0xA) => Some(Instruction::WaitKey { x }),
            (0xF, _, 0x1, 0x5) => Some(Instruction::SetDelay { x }),
            (0xF, _, 0x1, 0x8) => Some(Instruction::SetSound { x }),
            (0xF, _, 0x1, 0xE) => Some(Instruction::AddAddress { x }),
            (0xF, _, 0x2, 0x9) => Some(Instruction::Glyph { x }),
            (0xF, _, 0x3, 0x3) => Some(Instruction::Bcd { x }),
            (0xF, _, 0x5, 0x5) => Some(Instruction::Store { x }),
            (0xF, _, 0x6, 0x5) => Some(Instruction::Load { x }),
            _ => None,
        }
    }
}

/// Masking and shifting an instruction word yields its fields.
pub proof fn lemma_fields(word: u16)
    ensures
        (word & 0xF000) >> 12 == nibble(word, 0),
        (word & 0x0F00) >> 8 == nibble(word, 1),
        (word & 0x00F0) >> 4 == nibble(word, 2),
        word & 0x000F == nibble(word, 3),
        word & 0x0FFF == word as int % 4096,
        word & 0x00FF == word as int % 256,
        word as int % 256 == 16 * nibble(word, 2) + nibble(word, 3),
        word as int == word_of(nibble(word, 0), nibble(word, 1), nibble(word, 2), nibble(word, 3)),
{
    assert((word & 0xF000) >> 12 == word / 4096) by (bit_vector);
    assert((word & 0x0F00) >> 8 == (word / 256) % 16) by (bit_vector);
    assert((word & 0x00F0) >> 4 == (word / 16) % 16) by (bit_vector);
    assert(word & 0x000F == word % 16) by (bit_vector);
    assert(word & 0x0FFF == word % 4096) by (bit_vector);
    assert(word & 0x00FF == word % 256) by (bit_vector);
}

} // verus!
