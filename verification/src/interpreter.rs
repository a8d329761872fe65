//! The executable interpreter.

use vstd::prelude::*;
use crate::display::{
    blank, collides_before, draw_before, lemma_draw_bit, lemma_draw_done, lemma_draw_row,
    lemma_draw_start, SCREEN_HEIGHT, SCREEN_SIZE, SCREEN_WIDTH,
};
use crate::entropy::random_byte;
use crate::font::{FONTSET, FONTSET_SIZE};
use crate::instruction::Instruction;
use crate::machine::{
    is_lowest_pressed, lowest_pressed, Fault, Machine, FLAG, MAX_PROGRAM_SIZE, NUM_KEYS,
    RAM_SIZE, STACK_SIZE, START_ADDR, V_REGISTERS,
};

verus! {

/// A CHIP-8 virtual machine.
#[derive(Debug)]
pub struct Chip8 {
    program_counter: u16,
    ram: [u8; RAM_SIZE],
    screen: [bool; SCREEN_SIZE],
    v_registers: [u8; V_REGISTERS],
    i_register: u16,
    delay_timer_register: u8,
    sound_timer_register: u8,
    stack_pointer: u8,
    stack: [u16; STACK_SIZE],
    key_states: [bool; NUM_KEYS],
}

impl View for Chip8 {
    type V = Machine;

    /// The machine state that the interpreter holds. Of the stack only the
    /// entries below the stack pointer count.
    closed spec fn view(&self) -> Machine {
        Machine {
            pc: self.program_counter,
            memory: self.ram@,
            display: self.screen@,
            v: self.v_registers@,
            i: self.i_register,
            delay: self.delay_timer_register,
            sound: self.sound_timer_register,
            stack: self.stack@.take(self.stack_pointer as int),
            keys: self.key_states@,
        }
    }
}

impl Chip8 {
    /// The stack pointer stays within the stack.
    pub closed spec fn wf(&self) -> bool {
        self.stack_pointer <= STACK_SIZE
    }

    /// A well-formed interpreter stands for a valid machine.
    pub proof fn lemma_wf_valid(&self)
        requires
            self.wf(),
        ensures
            self@.valid(),
    {
    }

    /// A machine at power-on: the font in low memory, the program counter
    /// at the start address, everything else zero.
    pub fn new() -> (chip8: Self)
        ensures
            chip8.wf(),
            chip8@ == Machine::initial(),
    {
        let mut chip8 = Self {
            program_counter: START_ADDR,
            ram: [0; RAM_SIZE],
            screen: [false; SCREEN_SIZE],
            v_registers: [0; V_REGISTERS],
            i_register: 0,
            delay_timer_register: 0,
            sound_timer_register: 0,
            stack_pointer: 0,
            stack: [0; STACK_SIZE],
            key_states: [false; NUM_KEYS],
        };
        for i in 0..FONTSET_SIZE
            invariant
                chip8.program_counter == START_ADDR,
                chip8.screen@ == blank(),
                chip8.v_registers@ == Seq::new(V_REGISTERS as nat, |r: int| 0u8),
                chip8.i_register == 0,
                chip8.delay_timer_register == 0,
                chip8.sound_timer_register == 0,
                chip8.stack_pointer == 0,
                chip8.key_states@ == Seq::new(NUM_KEYS as nat, |k: int| false),
                forall|a: int| 0 <= a < i ==> chip8.ram@[a] == FONTSET@[a],
                forall|a: int| i <= a < RAM_SIZE ==> chip8.ram@[a] == 0,
        {
            chip8.ram[i] = FONTSET[i];
        }
        chip8
    }

    /// Copies a program into memory at the start address.
    pub fn load(&mut self, data: &[u8])
        requires
            old(self).wf(),
            data@.len() <= MAX_PROGRAM_SIZE,
        ensures
            final(self).wf(),
            final(self)@ == old(self)@.load(data@),
    {
        let start = START_ADDR as usize;
        for i in 0..data.len()
            invariant
                data@.len() <= MAX_PROGRAM_SIZE,
                start == START_ADDR,
                self.wf(),
                self@ == old(self)@.load(data@.take(i as int)),
        {
            self.ram[start + i] = data[i];
        }
    }

    /// Records that key `idx` has been pressed or released.
    pub fn keypress(&mut self, idx: usize, pressed: bool)
        requires
            old(self).wf(),
            idx < NUM_KEYS,
        ensures
            final(self).wf(),
            final(self)@ == old(self)@.keypress(idx as int, pressed),
    {
        self.key_states[idx] = pressed;
    }

    /// The pixels of the display, row by row from the top left.
    pub fn get_display(&self) -> (display: &[bool])
        ensures
            display@ == self@.display,
    {
        &self.screen
    }

    /// The address of the next instruction.
    pub fn program_counter(&self) -> (pc: u16)
        ensures
            pc == self@.pc,
    {
        self.program_counter
    }

    /// The value of general-purpose register `x`.
    pub fn v_register(&self, x: usize) -> (value: u8)
        requires
            x < V_REGISTERS,
        ensures
            value == self@.v[x as int],
    {
        self.v_registers[x]
    }

    /// The value of the address register.
    pub fn i_register(&self) -> (i: u16)
        ensures
            i == self@.i,
    {
        self.i_register
    }

    /// The value of the delay timer.
    pub fn delay_timer(&self) -> (delay: u8)
        ensures
            delay == self@.delay,
    {
        self.delay_timer_register
    }

    /// The value of the sound timer; a tone sounds while it is above zero.
    pub fn sound_timer(&self) -> (sound: u8)
        ensures
            sound == self@.sound,
    {
        self.sound_timer_register
    }

    /// The byte of memory at `addr`.
    pub fn read_memory(&self, addr: usize) -> (byte: u8)
        requires
            addr < RAM_SIZE,
        ensures
            byte == self@.memory[addr as int],
    {
        self.ram[addr]
    }

    /// The number of calls in progress.
    pub fn stack_depth(&self) -> (depth: usize)
        requires
            self.wf(),
        ensures
            depth == self@.stack.len(),
    {
        self.stack_pointer as usize
    }

    /// The fault that carrying out `instruction` would run into, if any.
    fn execute_fault(&self, instruction: Instruction) -> (fault: Option<Fault>)
        requires
            self.wf(),
            instruction.wf(),
        ensures
            fault == self@.execute_fault(instruction),
    {
        match instruction {
            Instruction::Return => {
                if self.stack_pointer == 0 {
                    Some(Fault::StackUnderflow)
                } else {
                    None
                }
            },
            Instruction::Call { .. } => {
                if self.stack_pointer as usize >= STACK_SIZE {
                    Some(Fault::StackOverflow)
                } else {
                    None
                }
            },
            Instruction::Draw { rows, .. } => {
                if rows > 0 && self.i_register as usize + rows as usize > RAM_SIZE {
                    Some(Fault::MemoryOutOfRange)
                } else {
                    None
                }
            },
            Instruction::SkipKey { x } | Instruction::SkipNoKey { x } => {
                if self.v_registers[x] as usize >= NUM_KEYS {
                    Some(Fault::KeyOutOfRange)
                } else {
                    None
                }
            },
            Instruction::Bcd { .. } => {
                if self.i_register as usize + 2 >= RAM_SIZE {
                    Some(Fault::MemoryOutOfRange)
                } else {
                    None
                }
            },
            Instruction::Store { x } | Instruction::Load { x } => {
                if self.i_register as usize + x >= RAM_SIZE {
                    Some(Fault::MemoryOutOfRange)
                } else {
                    None
                }
            },
            _ => None,
        }
    }

    /// The fault that the next tick would run into, if any. A tick may be
    /// made exactly when this is `None`.
    pub fn pending_fault(&self) -> (fault: Option<Fault>)
        requires
            self.wf(),
        ensures
            fault == self@.fault(),
    {
        if self.program_counter as usize + 1 >= RAM_SIZE {
            return Some(Fault::FetchOutOfRange);
        }
        let opcode = self.peek();
        match Instruction::decode(opcode) {
            None => Some(Fault::InvalidOpcode { opcode }),
            Some(instruction) => self.execute_fault(instruction),
        }
    }

    /// Fetches and carries out one instruction. The random-number
    /// instruction draws its byte from the generator of the current
    /// thread, so the new state is the one that some byte leads to; for
    /// every other instruction the byte plays no part.
    pub fn tick(&mut self)
        requires
            old(self).wf(),
            old(self)@.fault() is None,
        ensures
            final(self).wf(),
            exists|random: u8| final(self)@ == old(self)@.tick(random),
    {
        let opcode = self.fetch();
        let ghost fetched = self@;
        self.execute(opcode);
        proof {
            let instruction = Instruction::spec_decode(opcode)->Some_0;
            let random = choose|random: u8| self@ == fetched.execute(instruction, random);
            assert(self@ == old(self)@.tick(random));
        }
    }

    /// Fetches and carries out one instruction, with `random` as the byte
    /// that the random-number instruction draws.
    pub fn tick_with(&mut self, random: u8)
        requires
            old(self).wf(),
            old(self)@.fault() is None,
        ensures
            final(self).wf(),
            final(self)@ == old(self)@.tick(random),
    {
        let opcode = self.fetch();
        if let Some(instruction) = Instruction::decode(opcode) {
            self.execute_with(instruction, random);
        }
    }

    /// Makes one tick if none of the faults stands in its way, and reports
    /// the fault otherwise, leaving the machine as it was.
    pub fn try_tick(&mut self) -> (result: Result<(), Fault>)
        requires
            old(self).wf(),
        ensures
            final(self).wf(),
            match result {
                Ok(()) => old(self)@.fault() is None && exists|random: u8|
                    final(self)@ == old(self)@.tick(random),
                Err(fault) => old(self)@.fault() == Some(fault) && final(self)@ == old(self)@,
            },
    {
        match self.pending_fault() {
            Some(fault) => Err(fault),
            None => {
                self.tick();
                Ok(())
            },
        }
    }

    /// Counts both timers down by one, stopping at zero.
    pub fn tick_timers(&mut self)
        requires
            old(self).wf(),
        ensures
            final(self).wf(),
            final(self)@ == old(self)@.tick_timers(),
    {
        if self.delay_timer_register > 0 {
            self.delay_timer_register -= 1;
        }
        if self.sound_timer_register > 0 {
            self.sound_timer_register -= 1;
        }
    }

    /// The instruction word at the program counter.
    fn peek(&self) -> (opcode: u16)
        requires
            self@.pc + 1 < RAM_SIZE,
        ensures
            opcode == self@.opcode(),
    {
        let high_byte = self.ram[self.program_counter as usize] as u16;
        let low_byte = self.ram[(self.program_counter + 1) as usize] as u16;
        assert((high_byte << 8) | low_byte == 256 * high_byte + low_byte) by (bit_vector)
            requires
                high_byte < 256,
                low_byte < 256,
        ;
        (high_byte << 8) | low_byte
    }

    /// Reads the instruction word at the program counter and moves the
    /// program counter past it.
    fn fetch(&mut self) -> (opcode: u16)
        requires
            old(self).wf(),
            old(self)@.pc + 1 < RAM_SIZE,
        ensures
            final(self).wf(),
            opcode == old(self)@.opcode(),
            final(self)@ == old(self)@.advance(),
    {
        let opcode = self.peek();
        self.program_counter += 2;
        opcode
    }

    /// Puts a return address on the call stack.
    fn push(&mut self, val: u16)
        requires
            old(self).wf(),
            old(self)@.stack.len() < STACK_SIZE,
        ensures
            final(self).wf(),
            final(self)@ == (Machine { stack: old(self)@.stack.push(val), ..old(self)@ }),
    {
        self.stack[self.stack_pointer as usize] = val;
        self.stack_pointer += 1
    }

    /// Takes the latest return address off the call stack.
    fn pop(&mut self) -> (val: u16)
        requires
            old(self).wf(),
            old(self)@.stack.len() > 0,
        ensures
            final(self).wf(),
            val == old(self)@.stack.last(),
            final(self)@ == (Machine { stack: old(self)@.stack.drop_last(), ..old(self)@ }),
    {
        self.stack_pointer -= 1;
        self.stack[self.stack_pointer as usize]
    }

    /// Draws the sprite of `rows` bytes at the address register, with its
    /// top left corner at the position held in registers `x` and `y`, and
    /// reports in the flag register whether a lit pixel was turned off.
    fn draw_sprite(&mut self, x: usize, y: usize, rows: u16)
        requires
            old(self).wf(),
            x < V_REGISTERS,
            y < V_REGISTERS,
            rows < 16,
            rows > 0 ==> old(self)@.i + rows <= RAM_SIZE,
        ensures
            final(self).wf(),
            final(self)@ == old(self)@.execute(Instruction::Draw { x, y, rows }, 0),
    {
        // The position is read before the flag register is written.
        let x_coord = self.v_registers[x] as usize;
        let y_coord = self.v_registers[y] as usize;
        let ghost before = self.screen@;
        let ghost sprite = self@.sprite(rows as nat);
        let ghost (left, top) = (x_coord as int, y_coord as int);
        proof {
            lemma_draw_start(before, sprite, left, top);
        }
        let mut flipped = false;
        let mut row: u16 = 0;
        while row < rows
            invariant
                row <= rows < 16,
                rows > 0 ==> self.i_register + rows <= RAM_SIZE,
                x_coord < 256,
                y_coord < 256,
                left == x_coord,
                top == y_coord,
                sprite == old(self)@.sprite(rows as nat),
                before == old(self)@.display,
                self@ == (Machine { display: self@.display, ..old(self)@ }),
                self.wf(),
                self.screen@ == draw_before(before, sprite, left, top, row as int, 0),
                flipped == collides_before(before, sprite, left, top, row as int, 0),
            decreases rows - row,
        {
            let addr = self.i_register + row;
            let pixels = self.ram[addr as usize];
            let mut col: u8 = 0;
            while col < 8
                invariant
                    col <= 8,
                    row < rows < 16,
                    x_coord < 256,
                    y_coord < 256,
                    left == x_coord,
                    top == y_coord,
                    sprite.len() == rows,
                    pixels == sprite[row as int],
                    before.len() == SCREEN_SIZE,
                    self@ == (Machine { display: self@.display, ..old(self)@ }),
                    self.wf(),
                    self.screen@ == draw_before(before, sprite, left, top, row as int, col as int),
                    flipped == collides_before(before, sprite, left, top, row as int, col as int),
                decreases 8 - col,
            {
                proof {
                    lemma_draw_bit(before, sprite, left, top, row as int, col as int);
                }
                // Only a set bit of the row toggles its pixel.
                if (pixels & (0x80u8 >> col)) != 0 {
                    // Sprites wrap around both edges of the screen.
                    let px = (x_coord + col as usize) % SCREEN_WIDTH;
                    let py = (y_coord + row as usize) % SCREEN_HEIGHT;
                    let idx = px + SCREEN_WIDTH * py;
                    // The pixel is tested before it is toggled.
                    let lit = self.screen[idx];
                    flipped = flipped || lit;
                    self.screen[idx] = !lit;
                }
                col += 1;
            }
            proof {
                lemma_draw_row(before, sprite, left, top, row as int);
            }
            row += 1;
        }
        proof {
            lemma_draw_done(before, sprite, left, top);
        }
        if flipped {
            self.v_registers[FLAG] = 1;
        } else {
            self.v_registers[FLAG] = 0;
        }
    }

    /// The lowest index of a key that is held down, if any is.
    fn first_pressed_key(&self) -> (key: Option<u8>)
        ensures
            match key {
                Some(k) => lowest_pressed(self@.keys) == Some(k as int),
                None => lowest_pressed(self@.keys) is None,
            },
    {
        let mut i: usize = 0;
        while i < self.key_states.len()
            invariant
                i <= NUM_KEYS,
                forall|j: int| 0 <= j < i ==> !self.key_states@[j],
            decreases NUM_KEYS - i,
        {
            if self.key_states[i] {
                assert(is_lowest_pressed(self@.keys, i as int));
                return Some(i as u8);
            }
            i += 1;
        }
        None
    }

    /// Copies registers 0 to `x` into memory at the address register.
    fn store_registers(&mut self, x: usize)
        requires
            old(self).wf(),
            x < V_REGISTERS,
            old(self)@.i + x < RAM_SIZE,
        ensures
            final(self).wf(),
            final(self)@ == old(self)@.execute(Instruction::Store { x }, 0),
    {
        let mut i: usize = 0;
        while i <= x
            invariant
                i <= x + 1,
                x < V_REGISTERS,
                self.i_register + x < RAM_SIZE,
                self.wf(),
                self@ == (Machine { memory: self@.memory, ..old(self)@ }),
                forall|a: int|
                    0 <= a < RAM_SIZE ==> self.ram@[a] == if self.i_register <= a
                        < self.i_register + i {
                        self.v_registers@[a - self.i_register]
                    } else {
                        old(self).ram@[a]
                    },
            decreases x + 1 - i,
        {
            self.ram[self.i_register as usize + i] = self.v_registers[i];
            i += 1;
        }
    }

    /// Fills registers 0 to `x` from memory at the address register.
    fn load_registers(&mut self, x: usize)
        requires
            old(self).wf(),
            x < V_REGISTERS,
            old(self)@.i + x < RAM_SIZE,
        ensures
            final(self).wf(),
            final(self)@ == old(self)@.execute(Instruction::Load { x }, 0),
    {
        let mut i: usize = 0;
        while i <= x
            invariant
                i <= x + 1,
                x < V_REGISTERS,
                self.i_register + x < RAM_SIZE,
                self.wf(),
                self@ == (Machine { v: self@.v, ..old(self)@ }),
                forall|r: int|
                    0 <= r < V_REGISTERS ==> self.v_registers@[r] == if r < i {
                        self.ram@[self.i_register + r]
                    } else {
                        old(self).v_registers@[r]
                    },
            decreases x + 1 - i,
        {
            self.v_registers[i] = self.ram[self.i_register as usize + i];
            i += 1;
        }
    }

    /// Decodes and carries out the instruction that `opcode` encodes,
    /// drawing a random byte where the instruction asks for one.
    fn execute(&mut self, opcode: u16)
        requires
            old(self).wf(),
            2 <= old(self)@.pc <= RAM_SIZE,
            Instruction::spec_decode(opcode) matches Some(instruction) && old(
                self,
            )@.execute_fault(instruction) is None,
        ensures
            final(self).wf(),
            exists|random: u8|
                final(self)@ == old(self)@.execute(
                    Instruction::spec_decode(opcode)->Some_0,
                    random,
                ),
    {
        if let Some(instruction) = Instruction::decode(opcode) {
            let random = match instruction {
                Instruction::Random { .. } => random_byte(),
                _ => 0,
            };
            self.execute_with(instruction, random);
        }
    }

    /// Carries out one instruction, with `random` as the byte that the
    /// random-number instruction draws.
    fn execute_with(&mut self, instruction: Instruction, random: u8)
        requires
            old(self).wf(),
            instruction.wf(),
            2 <= old(self)@.pc <= RAM_SIZE,
            old(self)@.execute_fault(instruction) is None,
        ensures
            final(self).wf(),
            final(self)@ == old(self)@.execute(instruction, random),
    {
        match instruction {
            Instruction::Nop => {},
            Instruction::ClearDisplay => {
                self.screen = [false; SCREEN_SIZE];
            },
            Instruction::Return => {
                let ret_addr = self.pop();
                self.program_counter = ret_addr;
            },
            Instruction::Jump { addr } => {
                self.program_counter = addr;
            },
            Instruction::Call { addr } => {
                self.push(self.program_counter);
                self.program_counter = addr;
            },
            Instruction::SkipEqByte { x, byte } => {
                if self.v_registers[x] == byte {
                    self.program_counter += 2;
                }
            },
            Instruction::SkipNeByte { x, byte } => {
                if self.v_registers[x] != byte {
                    self.program_counter += 2;
                }
            },
            Instruction::SkipEq { x, y } => {
                if self.v_registers[x] == self.v_registers[y] {
                    self.program_counter += 2;
                }
            },
            Instruction::LoadByte { x, byte } => {
                self.v_registers[x] = byte;
            },
            Instruction::AddByte { x, byte } => {
                self.v_registers[x] = self.v_registers[x].wrapping_add(byte);
            },
            Instruction::Move { x, y } => {
                self.v_registers[x] = self.v_registers[y];
            },
            Instruction::Or { x, y } => {
                self.v_registers[x] = self.v_registers[x] | self.v_registers[y];
            },
            Instruction::And { x, y } => {
                self.v_registers[x] = self.v_registers[x] & self.v_registers[y];
            },
            Instruction::Xor { x, y } => {
                self.v_registers[x] = self.v_registers[x] ^ self.v_registers[y];
            },
            Instruction::Add { x, y } => {
                let vx = self.v_registers[x];
                let vy = self.v_registers[y];
                let carry = vx as u16 + vy as u16 > 255;
                let new_vf: u8 = if carry { 1 } else { 0 };
                self.v_registers[x] = vx.wrapping_add(vy);
                self.v_registers[FLAG] = new_vf;
            },
            Instruction::Sub { x, y } => {
                let vx = self.v_registers[x];
                let vy = self.v_registers[y];
                let borrow = vx < vy;
                self.v_registers[x] = vx.wrapping_sub(vy);
                self.v_registers[FLAG] = if borrow { 0 } else { 1 };
            },
            Instruction::ShiftRight { x } => {
                let vx = self.v_registers[x];
                let lsb = vx & 1;
                assert(vx & 1 == vx % 2 && vx >> 1 == vx / 2) by (bit_vector);
                self.v_registers[x] = vx >> 1;
                self.v_registers[FLAG] = lsb;
            },
            Instruction::SubFrom { x, y } => {
                let vx = self.v_registers[x];
                let vy = self.v_registers[y];
                let borrow = vy < vx;
                self.v_registers[x] = vy.wrapping_sub(vx);
                self.v_registers[FLAG] = if borrow { 0 } else { 1 };
            },
            Instruction::ShiftLeft { x } => {
                let vx = self.v_registers[x];
                let msb = (vx >> 7) & 1;
                assert((vx >> 7) & 1 == vx / 128 && vx << 1 == (2 * vx) % 256) by (bit_vector);
                self.v_registers[x] = vx << 1;
                self.v_registers[FLAG] = msb;
            },
            Instruction::SkipNe { x, y } => {
                if self.v_registers[x] != self.v_registers[y] {
                    self.program_counter += 2;
                }
            },
            Instruction::LoadAddress { addr } => {
                self.i_register = addr;
            },
            Instruction::JumpOffset { addr } => {
                self.program_counter = addr + (self.v_registers[0] as u16);
            },
            Instruction::Random { x, byte } => {
                self.v_registers[x] = random & byte;
            },
            Instruction::Draw { x, y, rows } => {
                self.draw_sprite(x, y, rows);
            },
            Instruction::SkipKey { x } => {
                if self.key_states[self.v_registers[x] as usize] {
                    self.program_counter += 2;
                }
            },
            Instruction::SkipNoKey { x } => {
                if !self.key_states[self.v_registers[x] as usize] {
                    self.program_counter += 2;
                }
            },
            Instruction::ReadDelay { x } => {
                self.v_registers[x] = self.delay_timer_register;
            },
            Instruction::WaitKey { x } => {
                match self.first_pressed_key() {
                    Some(key) => {
                        self.v_registers[x] = key;
                    },
                    None => {
                        // Stay on this instruction until a key is held down.
                        self.program_counter -= 2;
                    },
                }
            },
            Instruction::SetDelay { x } => {
                self.delay_timer_register = self.v_registers[x];
            },
            Instruction::SetSound { x } => {
                self.sound_timer_register = self.v_registers[x];
            },
            Instruction::AddAddress { x } => {
                self.i_register = self.i_register.wrapping_add(self.v_registers[x] as u16);
            },
            Instruction::Glyph { x } => {
                let c = self.v_registers[x] as u16;
                self.i_register = c * 5;
            },
            Instruction::Bcd { x } => {
                let vx = self.v_registers[x];
                let hundreds = vx / 100;
                let tens = (vx / 10) % 10;
                let digits = vx % 10;
                self.ram[self.i_register as usize] = hundreds;
                self.ram[(self.i_register + 1) as usize] = tens;
                self.ram[(self.i_register + 2) as usize] = digits;
            },
            Instruction::Store { x } => {
                self.store_registers(x);
            },
            Instruction::Load { x } => {
                self.load_registers(x);
            },
        }
    }
}

} // verus!
