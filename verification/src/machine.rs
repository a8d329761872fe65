//! The abstract machine: the state of the interpreter as plain mathematical
//! values, and the transitions that the executable code is proved to follow.

use vstd::prelude::*;
use crate::display::{blank, collides, draw, SCREEN_SIZE};
use crate::font::{FONTSET, GLYPH_ROWS};
use crate::instruction::Instruction;

verus! {

/// Number of bytes of memory.
pub const RAM_SIZE: usize = 4096;

/// Number of general-purpose registers.
pub const V_REGISTERS: usize = 16;

/// Number of return addresses that the call stack can hold.
pub const STACK_SIZE: usize = 16;

/// Number of keys on the keypad.
pub const NUM_KEYS: usize = 16;

/// Address at which programs are loaded and start.
pub const START_ADDR: u16 = 0x200;

/// Largest program, in bytes, that fits in memory above the start address.
pub const MAX_PROGRAM_SIZE: usize = 3584;

/// Index of the flag register.
pub const FLAG: usize = 0xF;

/// Why an instruction cannot be carried out.
#[derive(Clone, Copy, Debug, PartialEq, Eq, Structural)]
pub enum Fault {
    /// The program counter leaves no room in memory for an instruction word.
    FetchOutOfRange,
    /// The instruction word matches no known form.
    InvalidOpcode { opcode: u16 },
    /// A call with sixteen calls already in progress.
    StackOverflow,
    /// A return with no call in progress.
    StackUnderflow,
    /// The address register points at, or too close to, the end of memory
    /// for the bytes that the instruction reads or writes.
    MemoryOutOfRange,
    /// The register that should name a key holds a value above 15.
    KeyOutOfRange,
}

/// The state of the interpreter.
#[verifier::ext_equal]
pub struct Machine {
    /// Address of the next instruction word.
    pub pc: u16,
    /// The 4096 bytes of memory.
    pub memory: Seq<u8>,
    /// The pixels, row by row from the top left; `true` is lit.
    pub display: Seq<bool>,
    /// The sixteen general-purpose registers; the last one is the flag register.
    pub v: Seq<u8>,
    /// The address register.
    pub i: u16,
    /// The delay timer.
    pub delay: u8,
    /// The sound timer.
    pub sound: u8,
    /// The return addresses of the calls in progress, oldest first.
    pub stack: Seq<u16>,
    /// Which keys are held down.
    pub keys: Seq<bool>,
}

/// Whether `k` is the lowest index of a key that is held down.
pub open spec fn is_lowest_pressed(keys: Seq<bool>, k: int) -> bool {
    &&& 0 <= k < keys.len()
    &&& keys[k]
    &&& forall|j: int| 0 <= j < k ==> !keys[j]
}

/// The lowest index of a key that is held down, if any is.
pub open spec fn lowest_pressed(keys: Seq<bool>) -> Option<int> {
    if exists|k: int| is_lowest_pressed(keys, k) {
        Some(choose|k: int| is_lowest_pressed(keys, k))
    } else {
        None
    }
}

/// One step of a countdown timer.
pub open spec fn count_down(t: u8) -> u8 {
    if t > 0 {
        (t - 1) as u8
    } else {
        0
    }
}

/// `1` for true, `0` for false: the way the flag register reports a condition.
pub open spec fn flag(b: bool) -> u8 {
    if b {
        1
    } else {
        0
    }
}

impl Machine {
    /// Every component has the size that the machine fixes for it.
    pub open spec fn valid(self) -> bool {
        &&& self.memory.len() == RAM_SIZE
        &&& self.display.len() == SCREEN_SIZE
        &&& self.v.len() == V_REGISTERS
        &&& self.stack.len() <= STACK_SIZE
        &&& self.keys.len() == NUM_KEYS
    }

    /// The machine at power-on: the font in low memory, the program counter
    /// at the start address, everything else zero.
    pub open spec fn initial() -> Machine {
        Machine {
            pc: START_ADDR,
            memory: Seq::new(
                RAM_SIZE as nat,
                |a: int|
                    if a < FONTSET@.len() {
                        FONTSET@[a]
                    } else {
                        0u8
                    },
            ),
            display: blank(),
            v: Seq::new(V_REGISTERS as nat, |r: int| 0u8),
            i: 0,
            delay: 0,
            sound: 0,
            stack: Seq::empty(),
            keys: Seq::new(NUM_KEYS as nat, |k: int| false),
        }
    }

    /// The state after `data` has been copied into memory at the start
    /// address.
    pub open spec fn load(self, data: Seq<u8>) -> Machine {
        Machine {
            memory: Seq::new(
                RAM_SIZE as nat,
                |a: int|
                    if START_ADDR <= a < START_ADDR + data.len() {
                        data[a - START_ADDR]
                    } else {
                        self.memory[a]
                    },
            ),
            ..self
        }
    }

    /// The state after key `idx` has been pressed or released.
    pub open spec fn keypress(self, idx: int, pressed: bool) -> Machine {
        Machine { keys: self.keys.update(idx, pressed), ..self }
    }

    /// The state after both timers have counted down once.
    pub open spec fn tick_timers(self) -> Machine {
        Machine { delay: count_down(self.delay), sound: count_down(self.sound), ..self }
    }

    /// The instruction word at the program counter: two bytes, the high one
    /// first.
    pub open spec fn opcode(self) -> u16 {
        (256 * self.memory[self.pc as int] + self.memory[self.pc + 1]) as u16
    }

    /// The state with the program counter moved past one instruction word.
    pub open spec fn advance(self) -> Machine {
        Machine { pc: (self.pc + 2) as u16, ..self }
    }

    /// The state with the program counter moved past one more instruction
    /// if `condition` holds.
    pub open spec fn skip_if(self, condition: bool) -> Machine {
        if condition {
            self.advance()
        } else {
            self
        }
    }

    /// The state with register `x` set to `value`.
    pub open spec fn set_v(self, x: int, value: u8) -> Machine {
        Machine { v: self.v.update(x, value), ..self }
    }

    /// The state with register `x` set to `value` and then the flag
    /// register to `flag`: where `x` is the flag register the flag wins.
    pub open spec fn set_v_flag(self, x: int, value: u8, flag: u8) -> Machine {
        Machine { v: self.v.update(x, value).update(FLAG as int, flag), ..self }
    }

    /// The sprite of `rows` bytes that the address register points at.
    pub open spec fn sprite(self, rows: nat) -> Seq<u8> {
        Seq::new(rows, |r: int| self.memory[self.i + r])
    }

    /// The state after `instruction` has been carried out; `random` is the
    /// byte that the random-number instruction draws. The program counter
    /// already points past the instruction.
    pub open spec fn execute(self, instruction: Instruction, random: u8) -> Machine {
        let v = self.v;
        match instruction {
            Instruction::Nop => self,
            Instruction::ClearDisplay => Machine { display: blank(), ..self },
            Instruction::Return => Machine {
                pc: self.stack.last(),
                stack: self.stack.drop_last(),
                ..self
            },
            Instruction::Jump { addr } => Machine { pc: addr, ..self },
            Instruction::Call { addr } => Machine {
                pc: addr,
                stack: self.stack.push(self.pc),
                ..self
            },
            Instruction::SkipEqByte { x, byte } => self.skip_if(v[x as int] == byte),
            Instruction::SkipNeByte { x, byte } => self.skip_if(v[x as int] != byte),
            Instruction::SkipEq { x, y } => self.skip_if(v[x as int] == v[y as int]),
            Instruction::SkipNe { x, y } => self.skip_if(v[x as int] != v[y as int]),
            Instruction::LoadByte { x, byte } => self.set_v(x as int, byte),
            Instruction::AddByte { x, byte } => self.set_v(
                x as int,
                ((v[x as int] + byte) % 256) as u8,
            ),
            Instruction::Move { x, y } => self.set_v(x as int, v[y as int]),
            Instruction::Or { x, y } => self.set_v(x as int, v[x as int] | v[y as int]),
            Instruction::And { x, y } => self.set_v(x as int, v[x as int] & v[y as int]),
            Instruction::Xor { x, y } => self.set_v(x as int, v[x as int] ^ v[y as int]),
            Instruction::Add { x, y } => self.set_v_flag(
                x as int,
                ((v[x as int] + v[y as int]) % 256) as u8,
                flag(v[x as int] + v[y as int] > 255),
            ),
            Instruction::Sub { x, y } => self.set_v_flag(
                x as int,
                ((v[x as int] - v[y as int]) % 256) as u8,
                flag(v[x as int] >= v[y as int]),
            ),
            Instruction::SubFrom { x, y } => self.set_v_flag(
                x as int,
                ((v[y as int] - v[x as int]) % 256) as u8,
                flag(v[y as int] >= v[x as int]),
            ),
            Instruction::ShiftRight { x } => self.set_v_flag(
                x as int,
                v[x as int] / 2,
                v[x as int] % 2,
            ),
            Instruction::ShiftLeft { x } => self.set_v_flag(
                x as int,
                ((2 * v[x as int]) % 256) as u8,
                v[x as int] / 128,
            ),
            Instruction::LoadAddress { addr } => Machine { i: addr, ..self },
            Instruction::JumpOffset { addr } => Machine { pc: (addr + v[0]) as u16, ..self },
            Instruction::Random { x, byte } => self.set_v(x as int, random & byte),
            Instruction::Draw { x, y, rows } => {
                let sprite = self.sprite(rows as nat);
                let (left, top) = (v[x as int] as int, v[y as int] as int);
                Machine {
                    display: draw(self.display, sprite, left, top),
                    v: v.update(FLAG as int, flag(collides(self.display, sprite, left, top))),
                    ..self
                }
            },
            Instruction::SkipKey { x } => self.skip_if(self.keys[v[x as int] as int]),
            Instruction::SkipNoKey { x } => self.skip_if(!self.keys[v[x as int] as int]),
            Instruction::ReadDelay { x } => self.set_v(x as int, self.delay),
            Instruction::WaitKey { x } => match lowest_pressed(self.keys) {
                Some(k) => self.set_v(x as int, k as u8),
                None => Machine { pc: (self.pc - 2) as u16, ..self },
            },
            Instruction::SetDelay { x } => Machine { delay: v[x as int], ..self },
            Instruction::SetSound { x } => Machine { sound: v[x as int], ..self },
            Instruction::AddAddress { x } => Machine {
                i: ((self.i + v[x as int]) % 0x10000) as u16,
                ..self
            },
            Instruction::Glyph { x } => Machine { i: (GLYPH_ROWS * v[x as int]) as u16, ..self },
            Instruction::Bcd { x } => {
                let value = v[x as int];
                Machine {
                    memory: self.memory.update(self.i as int, value / 100).update(
                        self.i + 1,
                        (value / 10) % 10,
                    ).update(self.i + 2, value % 10),
                    ..self
                }
            },
            Instruction::Store { x } => Machine {
                memory: Seq::new(
                    RAM_SIZE as nat,
                    |a: int|
                        if self.i <= a <= self.i + x {
                            v[a - self.i]
                        } else {
                            self.memory[a]
                        },
                ),
                ..self
            },
            Instruction::Load { x } => Machine {
                v: Seq::new(
                    V_REGISTERS as nat,
                    |r: int|
                        if r <= x {
                            self.memory[self.i + r]
                        } else {
                            v[r]
                        },
                ),
                ..self
            },
        }
    }

    /// The fault that carrying out `instruction` would run into, if any.
    pub open spec fn execute_fault(self, instruction: Instruction) -> Option<Fault> {
        match instruction {
            Instruction::Return => if self.stack.len() == 0 {
                Some(Fault::StackUnderflow)
            } else {
                None
            },
            Instruction::Call { .. } => if self.stack.len() >= STACK_SIZE {
                Some(Fault::StackOverflow)
            } else {
                None
            },
            Instruction::Draw { rows, .. } => if rows > 0 && self.i + rows > RAM_SIZE {
                Some(Fault::MemoryOutOfRange)
            } else {
                None
            },
            Instruction::SkipKey { x } | Instruction::SkipNoKey { x } => if self.v[x as int]
                >= NUM_KEYS {
                Some(Fault::KeyOutOfRange)
            } else {
                None
            },
            Instruction::Bcd { .. } => if self.i + 2 >= RAM_SIZE {
                Some(Fault::MemoryOutOfRange)
            } else {
                None
            },
            Instruction::Store { x } | Instruction::Load { x } => if self.i + x >= RAM_SIZE {
                Some(Fault::MemoryOutOfRange)
            } else {
                None
            },
            _ => None,
        }
    }

    /// The fault that the next tick would run into, if any: in fetching
    /// the instruction word, in decoding it, or in carrying it out.
    pub open spec fn fault(self) -> Option<Fault> {
        if self.pc + 1 >= RAM_SIZE {
            Some(Fault::FetchOutOfRange)
        } else {
            match Instruction::spec_decode(self.opcode()) {
                None => Some(Fault::InvalidOpcode { opcode: self.opcode() }),
                Some(instruction) => self.advance().execute_fault(instruction),
            }
        }
    }

    /// The state after one tick: the instruction at the program counter is
    /// fetched, the program counter moves past it, and the instruction is
    /// carried out.
    pub open spec fn tick(self, random: u8) -> Machine
        recommends
            self.fault() is None,
    {
        self.advance().execute(Instruction::spec_decode(self.opcode())->Some_0, random)
    }
}

} // verus!
