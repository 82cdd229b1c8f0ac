//! The executable machine: memory, registers, stack, timers, screen and
//! keypad, and the fetch-decode-execute cycle over them.
use vstd::prelude::*;
use crate::opcode::{field_n, field_x, field_y, Instruction, Opcode};
use crate::state::{
    bcd_spec, control_spec, draw_collides, draw_pixels, draw_spec, exec_spec, fetch_word,
    fill_spec, first_outside, follows, font_spec, initial_state, is_control, load_spec,
    memory_spec, register_flag, register_spec, register_value, set_reg, set_reg_flag,
    skip_condition, skip_if, sprite_covers, step_spec, store_spec, tick_spec, with_font,
    write_bytes, Chip8Error, CpuState, FONT_SET_SIZE, KEY_COUNT, MEMORY_SIZE, PROGRAM_START,
    REGISTER_COUNT, SCREEN_HEIGHT, SCREEN_PIXELS, SCREEN_WIDTH,
};

verus! {

/// The first address past the end of memory met by an access from `start`.
fn outside_from(start: u16) -> (r: u16)
    ensures
        r == first_outside(start as int),
{
    if start as usize >= MEMORY_SIZE {
        start
    } else {
        MEMORY_SIZE as u16
    }
}

/// The value that a register opcode writes to `Vx`.
fn compute_register(op: Opcode, vx: u8, vy: u8, nn: u8, delay: u8, random: u8) -> (r: u8)
    ensures
        r == register_value(op, vx, vy, nn, delay, random),
{
    match op {
        Opcode::LDN => nn,
        Opcode::ADDN => vx.wrapping_add(nn),
        Opcode::LDY => vy,
        Opcode::OR => vx | vy,
        Opcode::AND => vx & vy,
        Opcode::XOR => vx ^ vy,
        Opcode::ADDY => ((vx as u16 + vy as u16) % 256) as u8,
        Opcode::SUB => vx.wrapping_sub(vy),
        Opcode::SUBN => vy.wrapping_sub(vx),
        Opcode::SHR => vx / 2,
        Opcode::SHL => ((vx as u16 * 2) % 256) as u8,
        Opcode::RND => random & nn,
        _ => delay,
    }
}

/// The flag that a register opcode writes to VF, if any.
fn compute_flag(op: Opcode, vx: u8, vy: u8) -> (r: Option<u8>)
    ensures
        r == register_flag(op, vx, vy),
{
    match op {
        Opcode::ADDY => Some(if vx as u16 + vy as u16 > 255 { 1 } else { 0 }),
        Opcode::SUB => Some(if vx >= vy { 1 } else { 0 }),
        Opcode::SUBN => Some(if vy >= vx { 1 } else { 0 }),
        Opcode::SHR => Some(vx % 2),
        Opcode::SHL => Some(vx / 128),
        _ => None,
    }
}

/// Relies on rand::random: a byte drawn from the thread-local generator.
/// Any value may come back.
#[verifier::external_body]
fn random_byte() -> (r: u8) {
    rand::random::<u8>()
}

/// The built-in hexadecimal font.
fn font_set() -> (r: Vec<u8>)
    ensures
        r@ == font_spec(),
{
    let r = vec![
        0xF0, 0x90, 0x90, 0x90, 0xF0, 0x20, 0x60, 0x20, 0x20, 0x70,
        0xF0, 0x10, 0xF0, 0x80, 0xF0, 0xF0, 0x10, 0xF0, 0x10, 0xF0,
        0x90, 0x90, 0xF0, 0x10, 0x10, 0xF0, 0x80, 0xF0, 0x10, 0xF0,
        0xF0, 0x80, 0xF0, 0x90, 0xF0, 0xF0, 0x10, 0x20, 0x40, 0x40,
        0xF0, 0x90, 0xF0, 0x90, 0xF0, 0xF0, 0x90, 0xF0, 0x10, 0xF0,
        0xF0, 0x90, 0xF0, 0x90, 0x90, 0xE0, 0x90, 0xE0, 0x90, 0xE0,
        0xF0, 0x80, 0x80, 0x80, 0xF0, 0xE0, 0x90, 0x90, 0x90, 0xE0,
        0xF0, 0x80, 0xF0, 0x80, 0xF0, 0xF0, 0x80, 0xF0, 0x80, 0x80,
    ];
    assert(r@ =~= font_spec());
    r
}

/// The emulated machine.
pub struct Cpu {
    memory: Vec<u8>,
    registers: Vec<u8>,
    index: u16,
    pc: u16,
    stack: Vec<u16>,
    delay: u8,
    sound: u8,
    display: Vec<bool>,
    keys: Vec<bool>,
}

impl View for Cpu {
    type V = CpuState;

    closed spec fn view(&self) -> CpuState {
        CpuState {
            memory: self.memory@,
            registers: self.registers@,
            index: self.index,
            pc: self.pc,
            stack: self.stack@,
            delay: self.delay,
            sound: self.sound,
            display: self.display@,
            keys: self.keys@,
        }
    }
}

impl Cpu {
    /// The sizes of memory, registers, stack, screen and keypad are kept.
    pub open spec fn wf(&self) -> bool {
        self@.wf()
    }

    /// A machine at power-on: memory, registers, timers, screen and keys all
    /// zero, an empty stack, and `pc` at the program load address.
    pub fn initialize() -> (r: Cpu)
        ensures
            r.wf(),
            r@ == initial_state(),
    {
        let r = Cpu {
            memory: vec![0u8; MEMORY_SIZE],
            registers: vec![0u8; REGISTER_COUNT],
            index: 0,
            pc: PROGRAM_START as u16,
            stack: Vec::new(),
            delay: 0,
            sound: 0,
            display: vec![false; SCREEN_PIXELS],
            keys: vec![false; KEY_COUNT],
        };
        assert(r@.memory =~= initial_state().memory);
        assert(r@.registers =~= initial_state().registers);
        assert(r@.stack =~= initial_state().stack);
        assert(r@.display =~= initial_state().display);
        assert(r@.keys =~= initial_state().keys);
        r
    }

    /// Writes the hexadecimal font at address 0.
    pub fn load_font_set(&mut self)
        requires
            old(self).wf(),
        ensures
            final(self).wf(),
            final(self)@ == with_font(old(self)@),
    {
        let ghost s0 = self@;
        let font = font_set();
        assert(write_bytes(s0.memory, 0, font_spec().take(0)) =~= s0.memory);
        let mut i: usize = 0;
        while i < FONT_SET_SIZE
            invariant
                i <= FONT_SET_SIZE,
                font@ == font_spec(),
                s0.wf(),
                self@ == (CpuState { memory: write_bytes(s0.memory, 0, font_spec().take(i as int)), ..s0 }),
            decreases FONT_SET_SIZE - i,
        {
            self.memory.set(i, font[i]);
            i += 1;
            assert(self.memory@ =~= write_bytes(s0.memory, 0, font_spec().take(i as int)));
        }
        assert(font_spec().take(FONT_SET_SIZE as int) =~= font_spec());
    }

    /// Copies a program image into memory at the load address. An image
    /// longer than the memory after that address is refused, and nothing
    /// is written.
    pub fn load_game(&mut self, program: &Vec<u8>) -> (r: Result<(), Chip8Error>)
        requires
            old(self).wf(),
        ensures
            final(self).wf(),
            follows(load_spec(old(self)@, program@), r, old(self)@, final(self)@),
    {
        let ghost s0 = self@;
        if program.len() > MEMORY_SIZE - PROGRAM_START {
            return Err(Chip8Error::ProgramTooLarge { size: program.len() });
        }
        assert(write_bytes(s0.memory, PROGRAM_START as int, program@.take(0)) =~= s0.memory);
        let mut i: usize = 0;
        while i < program.len()
            invariant
                i <= program.len(),
                program.len() <= MEMORY_SIZE - PROGRAM_START,
                s0.wf(),
                self@ == (CpuState {
                    memory: write_bytes(s0.memory, PROGRAM_START as int, program@.take(i as int)),
                    ..s0
                }),
            decreases program.len() - i,
        {
            self.memory.set(PROGRAM_START + i, program[i]);
            i += 1;
            assert(self.memory@ =~= write_bytes(
                s0.memory,
                PROGRAM_START as int,
                program@.take(i as int),
            ));
        }
        assert(program@.take(program.len() as int) =~= program@);
        Ok(())
    }

    /// One fetch-decode-execute cycle, with `random` as the byte that `RND`
    /// uses. On an error nothing changes.
    pub fn step(&mut self, random: u8) -> (r: Result<(), Chip8Error>)
        requires
            old(self).wf(),
        ensures
            final(self).wf(),
            follows(step_spec(old(self)@, random), r, old(self)@, final(self)@),
    {
        let pc = self.pc as usize;
        if pc + 2 > MEMORY_SIZE {
            return Err(Chip8Error::MemoryOutOfBounds { address: outside_from(self.pc) });
        }
        let hi = self.memory[pc];
        let lo = self.memory[pc + 1];
        let word = hi as u16 * 256 + lo as u16;
        assert(word == fetch_word(self@));
        let inst = Instruction(word);
        match Instruction::decode_instruction(&inst) {
            Ok(op) => self.run_opcode(op, inst, random),
            Err(e) => Err(Chip8Error::Decode(e)),
        }
    }

    /// One cycle with a byte from the random source for `RND`. Whatever
    /// that byte was, the machine moved as `step` does with it.
    pub fn cycle(&mut self) -> (r: Result<(), Chip8Error>)
        requires
            old(self).wf(),
        ensures
            final(self).wf(),
            exists|b: u8| follows(step_spec(old(self)@, b), r, old(self)@, final(self)@),
    {
        let random = random_byte();
        self.step(random)
    }

    /// One timer tick: each timer goes down by one, but not below zero.
    pub fn tick(&mut self)
        requires
            old(self).wf(),
        ensures
            final(self).wf(),
            final(self)@ == tick_spec(old(self)@),
    {
        if self.delay > 0 {
            self.delay = self.delay - 1;
        }
        if self.sound > 0 {
            self.sound = self.sound - 1;
        }
    }

    /// The delay timer.
    pub fn get_delay(&self) -> (r: u8)
        ensures
            r == self@.delay,
    {
        self.delay
    }

    /// Sets the delay timer.
    pub fn set_delay(&mut self, v: u8)
        requires
            old(self).wf(),
        ensures
            final(self).wf(),
            final(self)@ == (CpuState { delay: v, ..old(self)@ }),
    {
        self.delay = v;
    }

    /// The sound timer.
    pub fn get_sound(&self) -> (r: u8)
        ensures
            r == self@.sound,
    {
        self.sound
    }

    /// Sets the sound timer.
    pub fn set_sound(&mut self, v: u8)
        requires
            old(self).wf(),
        ensures
            final(self).wf(),
            final(self)@ == (CpuState { sound: v, ..old(self)@ }),
    {
        self.sound = v;
    }

    /// Records whether key `k` (0 to F) is down.
    pub fn set_key(&mut self, k: usize, down: bool)
        requires
            old(self).wf(),
            k < KEY_COUNT,
        ensures
            final(self).wf(),
            final(self)@ == (CpuState { keys: old(self)@.keys.update(k as int, down), ..old(self)@ }),
    {
        self.keys.set(k, down);
    }

    /// Whether key `k` is down.
    pub fn key(&self, k: usize) -> (r: bool)
        requires
            self.wf(),
            k < KEY_COUNT,
        ensures
            r == self@.keys[k as int],
    {
        self.keys[k]
    }

    /// Register `Vx`.
    pub fn register(&self, x: usize) -> (r: u8)
        requires
            self.wf(),
            x < REGISTER_COUNT,
        ensures
            r == self@.registers[x as int],
    {
        self.registers[x]
    }

    /// The index register.
    pub fn index(&self) -> (r: u16)
        ensures
            r == self@.index,
    {
        self.index
    }

    /// The program counter.
    pub fn pc(&self) -> (r: u16)
        ensures
            r == self@.pc,
    {
        self.pc
    }

    /// How many return addresses are saved.
    pub fn stack_depth(&self) -> (r: usize)
        ensures
            r == self@.stack.len(),
    {
        self.stack.len()
    }

    /// The byte at `address`.
    pub fn memory_byte(&self, address: usize) -> (r: u8)
        requires
            self.wf(),
            address < MEMORY_SIZE,
        ensures
            r == self@.memory[address as int],
    {
        self.memory[address]
    }

    /// Whether the pixel at column `x`, row `y` is on.
    pub fn pixel(&self, x: usize, y: usize) -> (r: bool)
        requires
            self.wf(),
            x < SCREEN_WIDTH,
            y < SCREEN_HEIGHT,
        ensures
            r == self@.display[(y * SCREEN_WIDTH + x) as int],
    {
        self.display[y * SCREEN_WIDTH + x]
    }

    /// The screen, row by row, for a renderer to read.
    pub fn display(&self) -> (r: &Vec<bool>)
        ensures
            r@ == self@.display,
    {
        &self.display
    }

    /// Draws the sprite of `Dxyn` onto the screen and sets VF to the collision flag.
    fn draw(&mut self, inst: Instruction) -> (r: Result<(), Chip8Error>)
        requires
            old(self).wf(),
            old(self)@.pc < MEMORY_SIZE - 1,
        ensures
            final(self).wf(),
            follows(draw_spec(old(self)@, inst.0), r, old(self)@, final(self)@),
    {
        let ghost s0 = self@;
        let rows = inst.n() as usize;
        let x0 = (self.registers[inst.x()] % 64) as usize;
        let y0 = (self.registers[inst.y()] % 32) as usize;
        let base = self.index as usize;
        if rows > 0 && base + rows > MEMORY_SIZE {
            return Err(Chip8Error::MemoryOutOfBounds { address: outside_from(self.index) });
        }
        let mut collided = false;
        let mut p: usize = 0;
        while p < SCREEN_PIXELS
            invariant
                p <= SCREEN_PIXELS,
                s0.wf(),
                self.memory@ == s0.memory,
                self.registers@ == s0.registers,
                self.index == s0.index,
                self.pc == s0.pc,
                self.stack@ == s0.stack,
                self.delay == s0.delay,
                self.sound == s0.sound,
                self.keys@ == s0.keys,
                self.display@.len() == SCREEN_PIXELS,
                rows == field_n(inst.0),
                x0 == s0.registers[field_x(inst.0)] as int % SCREEN_WIDTH as int,
                y0 == s0.registers[field_y(inst.0)] as int % SCREEN_HEIGHT as int,
                base == s0.index,
                rows == 0 || base + rows <= MEMORY_SIZE,
                x0 < SCREEN_WIDTH,
                forall|q: int|
                    0 <= q < p ==> self.display@[q] == (s0.display[q] != sprite_covers(
                        s0.memory,
                        base as int,
                        rows as int,
                        x0 as int,
                        y0 as int,
                        q,
                    )),
                forall|q: int| p <= q < SCREEN_PIXELS ==> self.display@[q] == s0.display[q],
                collided == exists|q: int|
                    0 <= q < p && s0.display[q] && #[trigger] sprite_covers(
                        s0.memory,
                        base as int,
                        rows as int,
                        x0 as int,
                        y0 as int,
                        q,
                    ),
            decreases SCREEN_PIXELS - p,
        {
            let px = p % SCREEN_WIDTH;
            let py = p / SCREEN_WIDTH;
            let mut covered = false;
            if py >= y0 && py - y0 < rows {
                let c = ((px + SCREEN_WIDTH - x0) % SCREEN_WIDTH) as u8;
                if c < 8 {
                    let row = self.memory[base + (py - y0)];
                    covered = (row >> (7 - c)) & 1 == 1;
                }
            }
            assert(covered == sprite_covers(s0.memory, base as int, rows as int, x0 as int, y0 as int, p as int));
            let lit = self.display[p];
            if lit && covered {
                collided = true;
            }
            self.display.set(p, lit != covered);
            p += 1;
        }
        let flag: u8 = if collided { 1 } else { 0 };
        self.registers.set(15, flag);
        self.pc = self.pc + 2;
        proof {
            assert(self.display@ =~= draw_pixels(s0, rows as int, x0 as int, y0 as int));
            assert(collided == draw_collides(s0, rows as int, x0 as int, y0 as int));
        }
        Ok(())
    }

    /// Stores the decimal digits of `Vx` at `I`, `I+1`, `I+2`.
    fn store_bcd(&mut self, x: usize) -> (r: Result<(), Chip8Error>)
        requires
            old(self).wf(),
            old(self)@.pc < MEMORY_SIZE - 1,
            x < 16,
        ensures
            final(self).wf(),
            follows(bcd_spec(old(self)@, x as int), r, old(self)@, final(self)@),
    {
        let ghost s0 = self@;
        let base = self.index as usize;
        if base + 3 > MEMORY_SIZE {
            return Err(Chip8Error::MemoryOutOfBounds { address: outside_from(self.index) });
        }
        let v = self.registers[x];
        self.memory.set(base, v / 100);
        self.memory.set(base + 1, (v / 10) % 10);
        self.memory.set(base + 2, v % 10);
        self.pc = self.pc + 2;
        proof {
            let v = s0.registers[x as int] as int;
            let digits = seq![(v / 100) as u8, ((v / 10) % 10) as u8, (v % 10) as u8];
            assert(self.memory@ =~= write_bytes(s0.memory, base as int, digits));
        }
        Ok(())
    }

    /// Stores `V0..=Vx` in memory from `I` on.
    fn store_registers(&mut self, x: usize) -> (r: Result<(), Chip8Error>)
        requires
            old(self).wf(),
            old(self)@.pc < MEMORY_SIZE - 1,
            x < 16,
        ensures
            final(self).wf(),
            follows(store_spec(old(self)@, x as int), r, old(self)@, final(self)@),
    {
        let ghost s0 = self@;
        let base = self.index as usize;
        if base + x + 1 > MEMORY_SIZE {
            return Err(Chip8Error::MemoryOutOfBounds { address: outside_from(self.index) });
        }
        let mut i: usize = 0;
        while i <= x
            invariant
                i <= x + 1,
                x < 16,
                base == s0.index,
                base + x + 1 <= MEMORY_SIZE,
                s0.wf(),
                self.memory@ == write_bytes(s0.memory, base as int, s0.registers.take(i as int)),
                self.registers@ == s0.registers,
                self.index == s0.index,
                self.pc == s0.pc,
                self.stack@ == s0.stack,
                self.delay == s0.delay,
                self.sound == s0.sound,
                self.display@ == s0.display,
                self.keys@ == s0.keys,
            decreases x + 1 - i,
        {
            let v = self.registers[i];
            self.memory.set(base + i, v);
            i += 1;
            assert(self.memory@ =~= write_bytes(
                s0.memory,
                base as int,
                s0.registers.take(i as int),
            ));
        }
        self.pc = self.pc + 2;
        Ok(())
    }

    /// Loads `V0..=Vx` from memory from `I` on.
    fn load_registers(&mut self, x: usize) -> (r: Result<(), Chip8Error>)
        requires
            old(self).wf(),
            old(self)@.pc < MEMORY_SIZE - 1,
            x < 16,
        ensures
            final(self).wf(),
            follows(fill_spec(old(self)@, x as int), r, old(self)@, final(self)@),
    {
        let ghost s0 = self@;
        let base = self.index as usize;
        if base + x + 1 > MEMORY_SIZE {
            return Err(Chip8Error::MemoryOutOfBounds { address: outside_from(self.index) });
        }
        let mut i: usize = 0;
        while i <= x
            invariant
                i <= x + 1,
                x < 16,
                base == s0.index,
                base + x + 1 <= MEMORY_SIZE,
                s0.wf(),
                self.registers@ == write_bytes(
                    s0.registers,
                    0,
                    s0.memory.subrange(base as int, base + i),
                ),
                self.memory@ == s0.memory,
                self.index == s0.index,
                self.pc == s0.pc,
                self.stack@ == s0.stack,
                self.delay == s0.delay,
                self.sound == s0.sound,
                self.display@ == s0.display,
                self.keys@ == s0.keys,
            decreases x + 1 - i,
        {
            let v = self.memory[base + i];
            self.registers.set(i, v);
            i += 1;
            assert(self.registers@ =~= write_bytes(
                s0.registers,
                0,
                s0.memory.subrange(base as int, base + i),
            ));
        }
        self.pc = self.pc + 2;
        Ok(())
    }

    /// Turns every pixel off.
    fn clear_screen(&mut self)
        requires
            old(self).wf(),
        ensures
            final(self)@ == (CpuState {
                display: Seq::new(SCREEN_PIXELS as nat, |p: int| false),
                ..old(self)@
            }),
    {
        let ghost s0 = self@;
        let mut p: usize = 0;
        while p < SCREEN_PIXELS
            invariant
                p <= SCREEN_PIXELS,
                s0.wf(),
                self.display@.len() == SCREEN_PIXELS,
                forall|q: int| 0 <= q < p ==> !self.display@[q],
                self.memory@ == s0.memory,
                self.registers@ == s0.registers,
                self.index == s0.index,
                self.pc == s0.pc,
                self.stack@ == s0.stack,
                self.delay == s0.delay,
                self.sound == s0.sound,
                self.keys@ == s0.keys,
            decreases SCREEN_PIXELS - p,
        {
            self.display.set(p, false);
            p += 1;
        }
        assert(self.display@ =~= Seq::new(SCREEN_PIXELS as nat, |p: int| false));
    }

    /// Moves `pc` on by two, or by four when `cond` holds.
    fn skip_when(&mut self, cond: bool)
        requires
            old(self).wf(),
            old(self)@.pc < MEMORY_SIZE - 1,
        ensures
            final(self)@ == skip_if(old(self)@, cond),
    {
        if cond {
            self.pc = self.pc + 4;
        } else {
            self.pc = self.pc + 2;
        }
    }

    /// `Vx = v`, then on to the next instruction.
    fn set_and_advance(&mut self, x: usize, v: u8)
        requires
            old(self).wf(),
            old(self)@.pc < MEMORY_SIZE - 1,
            x < 16,
        ensures
            final(self)@ == set_reg(old(self)@, x as int, v),
    {
        self.registers.set(x, v);
        self.pc = self.pc + 2;
    }

    /// `Vx = v` and then `VF = flag`, then on to the next instruction.
    fn set_with_flag(&mut self, x: usize, v: u8, flag: u8)
        requires
            old(self).wf(),
            old(self)@.pc < MEMORY_SIZE - 1,
            x < 16,
        ensures
            final(self)@ == set_reg_flag(old(self)@, x as int, v, flag),
    {
        self.registers.set(x, v);
        self.registers.set(15, flag);
        self.pc = self.pc + 2;
    }

    /// Jumps, calls, returns, the no-op system call and the screen clear.
    fn run_control(&mut self, op: Opcode, instruction: Instruction) -> (r: Result<(), Chip8Error>)
        requires
            old(self).wf(),
            old(self)@.pc < MEMORY_SIZE - 1,
            is_control(op),
        ensures
            final(self).wf(),
            follows(control_spec(old(self)@, op, instruction.0), r, old(self)@, final(self)@),
    {
        let nnn = instruction.nnn();
        match op {
            Opcode::JP => {
                self.pc = nnn;
            },
            Opcode::CALL => {
                if self.stack.len() >= 16 {
                    return Err(Chip8Error::StackOverflow);
                }
                self.stack.push(self.pc);
                self.pc = nnn;
            },
            Opcode::RET => {
                match self.stack.pop() {
                    Some(top) => {
                        self.pc = ((top as u32 + 2) % 0x10000) as u16;
                    },
                    None => {
                        return Err(Chip8Error::StackUnderflow);
                    },
                }
            },
            Opcode::JPV => {
                self.pc = nnn + self.registers[0] as u16;
            },
            Opcode::CLS => {
                self.clear_screen();
                self.pc = self.pc + 2;
            },
            _ => {
                self.pc = self.pc + 2;
            },
        }
        Ok(())
    }

    /// Whether a conditional-skip opcode skips the next instruction.
    fn skips(&self, op: Opcode, instruction: Instruction) -> (r: bool)
        requires
            self.wf(),
        ensures
            r == skip_condition(self@, op, instruction.0),
    {
        let vx = self.registers[instruction.x()];
        let vy = self.registers[instruction.y()];
        let nn = instruction.nn();
        match op {
            Opcode::SEN => vx == nn,
            Opcode::SNEN => vx != nn,
            Opcode::SEY => vx == vy,
            Opcode::SNEY => vx != vy,
            Opcode::SKIP => self.keys[(vx % 16) as usize],
            _ => !self.keys[(vx % 16) as usize],
        }
    }

    /// Loads into `Vx`, and the arithmetic and logic on registers.
    fn run_register_op(&mut self, op: Opcode, instruction: Instruction, random: u8)
        requires
            old(self).wf(),
            old(self)@.pc < MEMORY_SIZE - 1,
        ensures
            final(self)@ == register_spec(old(self)@, op, instruction.0, random),
    {
        let x = instruction.x();
        let vx = self.registers[x];
        let vy = self.registers[instruction.y()];
        let v = compute_register(op, vx, vy, instruction.nn(), self.delay, random);
        match compute_flag(op, vx, vy) {
            Some(f) => self.set_with_flag(x, v, f),
            None => self.set_and_advance(x, v),
        }
    }

    /// The index register, the timers, drawing and the memory transfers.
    fn run_memory_op(&mut self, op: Opcode, instruction: Instruction) -> (r: Result<(), Chip8Error>)
        requires
            old(self).wf(),
            old(self)@.pc < MEMORY_SIZE - 1,
        ensures
            final(self).wf(),
            follows(memory_spec(old(self)@, op, instruction.0), r, old(self)@, final(self)@),
    {
        let x = instruction.x();
        let vx = self.registers[x];
        match op {
            Opcode::LDI => {
                self.index = instruction.nnn();
            },
            Opcode::ADDI => {
                self.index = self.index.wrapping_add(vx as u16);
            },
            Opcode::LDF => {
                self.index = (vx % 16) as u16 * 5;
            },
            Opcode::LDDT => {
                self.delay = vx;
            },
            Opcode::LDST => {
                self.sound = vx;
            },
            Opcode::DRW => {
                return self.draw(instruction);
            },
            Opcode::BCD => {
                return self.store_bcd(x);
            },
            Opcode::MEMI => {
                return self.store_registers(x);
            },
            Opcode::MEMX => {
                return self.load_registers(x);
            },
            _ => {
                return Err(Chip8Error::UnimplementedOpcode { tag: op });
            },
        }
        self.pc = self.pc + 2;
        Ok(())
    }

    /// Applies one decoded opcode; `random` stands for the byte drawn by `RND`.
    fn run_opcode(&mut self, op: Opcode, instruction: Instruction, random: u8) -> (r: Result<
        (),
        Chip8Error,
    >)
        requires
            old(self).wf(),
            old(self)@.pc < MEMORY_SIZE - 1,
        ensures
            final(self).wf(),
            follows(exec_spec(old(self)@, op, instruction.0, random), r, old(self)@, final(self)@),
    {
        match op {
            Opcode::JP | Opcode::CALL | Opcode::RET | Opcode::JPV | Opcode::SYS | Opcode::CLS => {
                self.run_control(op, instruction)
            },
            Opcode::SEN | Opcode::SNEN | Opcode::SEY | Opcode::SNEY | Opcode::SKIP | Opcode::SKNP => {
                let cond = self.skips(op, instruction);
                self.skip_when(cond);
                Ok(())
            },
            Opcode::LDN | Opcode::ADDN | Opcode::LDY | Opcode::OR | Opcode::AND | Opcode::XOR
            | Opcode::ADDY | Opcode::SUB | Opcode::SUBN | Opcode::SHR | Opcode::SHL | Opcode::RND
            | Opcode::SET => {
                self.run_register_op(op, instruction, random);
                Ok(())
            },
            _ => self.run_memory_op(op, instruction),
        }
    }
}

} // verus!
