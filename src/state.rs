//! The mathematical model of the machine and the meaning of each operation
//! on it. The executable `Cpu` is proved to follow these definitions.
use vstd::prelude::*;
use crate::opcode::{
    decode_spec, field_n, field_nn, field_nnn, field_x, field_y, DecodeError, Opcode,
};

verus! {

/// Bytes of emulated memory.
pub const MEMORY_SIZE: usize = 4096;

/// Where a program image is loaded, and where execution starts.
pub const PROGRAM_START: usize = 0x200;

/// Number of general registers `V0`..`VF`.
pub const REGISTER_COUNT: usize = 16;

/// Deepest nesting of subroutine calls.
pub const STACK_DEPTH: usize = 16;

/// Screen width in pixels.
pub const SCREEN_WIDTH: usize = 64;

/// Screen height in pixels.
pub const SCREEN_HEIGHT: usize = 32;

/// Pixels on the screen, row by row.
pub const SCREEN_PIXELS: usize = 2048;

/// Number of keys on the hexadecimal keypad.
pub const KEY_COUNT: usize = 16;

/// Bytes in the built-in font: five rows for each of the sixteen digits.
pub const FONT_SET_SIZE: usize = 80;

/// Everything that can make an operation fail.
#[derive(Clone, Copy, Debug, PartialEq, Eq, Structural)]
pub enum Chip8Error {
    /// The fetched word has no opcode.
    Decode(DecodeError),
    /// An access reached `address`, the first address past the end of memory.
    MemoryOutOfBounds { address: u16 },
    /// A call with sixteen return addresses already saved.
    StackOverflow,
    /// A return with no return address saved.
    StackUnderflow,
    /// A program image of `size` bytes does not fit after the load address.
    ProgramTooLarge { size: usize },
    /// An opcode that this interpreter gives no meaning to.
    UnimplementedOpcode { tag: Opcode },
}

/// The machine as a mathematical value.
pub struct CpuState {
    pub memory: Seq<u8>,
    pub registers: Seq<u8>,
    pub index: u16,
    pub pc: u16,
    pub stack: Seq<u16>,
    pub delay: u8,
    pub sound: u8,
    pub display: Seq<bool>,
    pub keys: Seq<bool>,
}

impl CpuState {
    /// The sizes that every state keeps.
    pub open spec fn wf(self) -> bool {
        &&& self.memory.len() == MEMORY_SIZE
        &&& self.registers.len() == REGISTER_COUNT
        &&& self.stack.len() <= STACK_DEPTH
        &&& self.display.len() == SCREEN_PIXELS
        &&& self.keys.len() == KEY_COUNT
    }
}

/// The standard hexadecimal font, five rows per digit.
pub open spec fn font_spec() -> Seq<u8> {
    seq![
        0xF0, 0x90, 0x90, 0x90, 0xF0, 0x20, 0x60, 0x20, 0x20, 0x70,
        0xF0, 0x10, 0xF0, 0x80, 0xF0, 0xF0, 0x10, 0xF0, 0x10, 0xF0,
        0x90, 0x90, 0xF0, 0x10, 0x10, 0xF0, 0x80, 0xF0, 0x10, 0xF0,
        0xF0, 0x80, 0xF0, 0x90, 0xF0, 0xF0, 0x10, 0x20, 0x40, 0x40,
        0xF0, 0x90, 0xF0, 0x90, 0xF0, 0xF0, 0x90, 0xF0, 0x10, 0xF0,
        0xF0, 0x90, 0xF0, 0x90, 0x90, 0xE0, 0x90, 0xE0, 0x90, 0xE0,
        0xF0, 0x80, 0x80, 0x80, 0xF0, 0xE0, 0x90, 0x90, 0x90, 0xE0,
        0xF0, 0x80, 0xF0, 0x80, 0xF0, 0xF0, 0x80, 0xF0, 0x80, 0x80,
    ]
}

/// The state right after power-on: everything zero, `pc` at the load address.
pub open spec fn initial_state() -> CpuState {
    CpuState {
        memory: Seq::new(MEMORY_SIZE as nat, |a: int| 0u8),
        registers: Seq::new(REGISTER_COUNT as nat, |r: int| 0u8),
        index: 0,
        pc: PROGRAM_START as u16,
        stack: Seq::empty(),
        delay: 0,
        sound: 0,
        display: Seq::new(SCREEN_PIXELS as nat, |p: int| false),
        keys: Seq::new(KEY_COUNT as nat, |k: int| false),
    }
}

/// `mem` with `bytes` written from `base` on.
pub open spec fn write_bytes(mem: Seq<u8>, base: int, bytes: Seq<u8>) -> Seq<u8> {
    Seq::new(
        mem.len(),
        |a: int|
            if base <= a < base + bytes.len() {
                bytes[a - base]
            } else {
                mem[a]
            },
    )
}

/// The state with the font written at address 0.
pub open spec fn with_font(s: CpuState) -> CpuState {
    CpuState { memory: write_bytes(s.memory, 0, font_spec()), ..s }
}

/// Loading a program image: it fits iff it ends within memory.
pub open spec fn load_spec(s: CpuState, program: Seq<u8>) -> Result<CpuState, Chip8Error> {
    if program.len() > MEMORY_SIZE - PROGRAM_START {
        Err(Chip8Error::ProgramTooLarge { size: program.len() as usize })
    } else {
        Ok(CpuState { memory: write_bytes(s.memory, PROGRAM_START as int, program), ..s })
    }
}

/// The state a fresh machine is in once the font and `program` are loaded.
pub open spec fn boot_spec(program: Seq<u8>) -> Result<CpuState, Chip8Error> {
    load_spec(with_font(initial_state()), program)
}

/// The first address past the end of memory met by an access from `start`.
pub open spec fn first_outside(start: int) -> u16 {
    if start >= MEMORY_SIZE {
        start as u16
    } else {
        MEMORY_SIZE as u16
    }
}

/// An access of `len` bytes from `start` stays within memory.
pub open spec fn in_memory(start: int, len: int) -> bool {
    start + len <= MEMORY_SIZE
}

/// `pc` moved on by `k` bytes.
pub open spec fn advance(s: CpuState, k: int) -> CpuState {
    CpuState { pc: (s.pc + k) as u16, ..s }
}

/// Skip the next instruction when `cond` holds.
pub open spec fn skip_if(s: CpuState, cond: bool) -> CpuState {
    advance(s, if cond { 4 } else { 2 })
}

/// `Vx = v`, then on to the next instruction.
pub open spec fn set_reg(s: CpuState, x: int, v: u8) -> CpuState {
    advance(CpuState { registers: s.registers.update(x, v), ..s }, 2)
}

/// `Vx = v` and then `VF = flag`, then on to the next instruction.
pub open spec fn set_reg_flag(s: CpuState, x: int, v: u8, flag: u8) -> CpuState {
    advance(CpuState { registers: s.registers.update(x, v).update(0xF, flag), ..s }, 2)
}

/// Bit `c` of a sprite row, counted from the left (the most significant bit).
pub open spec fn row_bit(row: u8, c: int) -> bool {
    (row >> ((7 - c) as u8)) & 1u8 == 1u8
}

/// Whether the sprite of `rows` rows at `base`, placed at `(x0, y0)`, covers
/// pixel `p`. Columns wrap around the right edge; rows past the bottom are cut.
pub open spec fn sprite_covers(mem: Seq<u8>, base: int, rows: int, x0: int, y0: int, p: int) -> bool {
    let px = p % SCREEN_WIDTH as int;
    let py = p / SCREEN_WIDTH as int;
    let r = py - y0;
    let c = (px + SCREEN_WIDTH - x0) % SCREEN_WIDTH as int;
    0 <= r < rows && c < 8 && row_bit(mem[base + r], c)
}

/// The screen after XOR-ing the sprite onto it.
pub open spec fn draw_pixels(s: CpuState, rows: int, x0: int, y0: int) -> Seq<bool> {
    Seq::new(
        s.display.len(),
        |p: int| s.display[p] != sprite_covers(s.memory, s.index as int, rows, x0, y0, p),
    )
}

/// Whether drawing turns off a pixel that was on.
pub open spec fn draw_collides(s: CpuState, rows: int, x0: int, y0: int) -> bool {
    exists|p: int|
        0 <= p < s.display.len() && s.display[p] && #[trigger] sprite_covers(
            s.memory,
            s.index as int,
            rows,
            x0,
            y0,
            p,
        )
}

/// The `Dxyn` operation.
pub open spec fn draw_spec(s: CpuState, w: u16) -> Result<CpuState, Chip8Error> {
    let rows = field_n(w);
    let x0 = s.registers[field_x(w)] as int % SCREEN_WIDTH as int;
    let y0 = s.registers[field_y(w)] as int % SCREEN_HEIGHT as int;
    if rows > 0 && !in_memory(s.index as int, rows) {
        Err(Chip8Error::MemoryOutOfBounds { address: first_outside(s.index as int) })
    } else {
        let flag: u8 = if draw_collides(s, rows, x0, y0) { 1 } else { 0 };
        Ok(
            advance(
                CpuState {
                    display: draw_pixels(s, rows, x0, y0),
                    registers: s.registers.update(0xF, flag),
                    ..s
                },
                2,
            ),
        )
    }
}

/// The `Fx33` operation: hundreds, tens and units of `Vx` at `I`.
pub open spec fn bcd_spec(s: CpuState, x: int) -> Result<CpuState, Chip8Error> {
    let v = s.registers[x] as int;
    if !in_memory(s.index as int, 3) {
        Err(Chip8Error::MemoryOutOfBounds { address: first_outside(s.index as int) })
    } else {
        let digits = seq![(v / 100) as u8, ((v / 10) % 10) as u8, (v % 10) as u8];
        Ok(advance(CpuState { memory: write_bytes(s.memory, s.index as int, digits), ..s }, 2))
    }
}

/// The `Fx55` operation: `V0..=Vx` stored at `I`.
pub open spec fn store_spec(s: CpuState, x: int) -> Result<CpuState, Chip8Error> {
    if !in_memory(s.index as int, x + 1) {
        Err(Chip8Error::MemoryOutOfBounds { address: first_outside(s.index as int) })
    } else {
        Ok(
            advance(
                CpuState {
                    memory: write_bytes(s.memory, s.index as int, s.registers.take(x + 1)),
                    ..s
                },
                2,
            ),
        )
    }
}

/// The `Fx65` operation: `V0..=Vx` loaded from `I`.
pub open spec fn fill_spec(s: CpuState, x: int) -> Result<CpuState, Chip8Error> {
    if !in_memory(s.index as int, x + 1) {
        Err(Chip8Error::MemoryOutOfBounds { address: first_outside(s.index as int) })
    } else {
        let loaded = s.memory.subrange(s.index as int, s.index as int + x + 1);
        Ok(advance(CpuState { registers: write_bytes(s.registers, 0, loaded), ..s }, 2))
    }
}

/// Jumps, calls, returns, the no-op system call and the screen clear.
pub open spec fn control_spec(s: CpuState, op: Opcode, w: u16) -> Result<CpuState, Chip8Error> {
    let nnn = field_nnn(w) as u16;
    match op {
        Opcode::JP => Ok(CpuState { pc: nnn, ..s }),
        Opcode::CALL => if s.stack.len() >= STACK_DEPTH {
            Err(Chip8Error::StackOverflow)
        } else {
            Ok(CpuState { stack: s.stack.push(s.pc), pc: nnn, ..s })
        },
        Opcode::RET => if s.stack.len() == 0 {
            Err(Chip8Error::StackUnderflow)
        } else {
            Ok(
                CpuState {
                    pc: ((s.stack.last() + 2) % 0x10000) as u16,
                    stack: s.stack.drop_last(),
                    ..s
                },
            )
        },
        Opcode::JPV => Ok(CpuState { pc: (nnn + s.registers[0]) as u16, ..s }),
        Opcode::CLS => Ok(
            advance(CpuState { display: Seq::new(SCREEN_PIXELS as nat, |p: int| false), ..s }, 2),
        ),
        _ => Ok(advance(s, 2)),
    }
}

/// When a conditional-skip opcode skips the next instruction.
pub open spec fn skip_condition(s: CpuState, op: Opcode, w: u16) -> bool {
    let vx = s.registers[field_x(w)];
    let vy = s.registers[field_y(w)];
    let nn = field_nn(w) as u8;
    match op {
        Opcode::SEN => vx == nn,
        Opcode::SNEN => vx != nn,
        Opcode::SEY => vx == vy,
        Opcode::SNEY => vx != vy,
        Opcode::SKIP => s.keys[vx as int % 16],
        _ => !s.keys[vx as int % 16],
    }
}

/// The value that a register opcode writes to `Vx`, from `Vx`, `Vy`, the
/// immediate `nn`, the delay timer and the random byte.
pub open spec fn register_value(op: Opcode, vx: u8, vy: u8, nn: u8, delay: u8, random: u8) -> u8 {
    match op {
        Opcode::LDN => nn,
        Opcode::ADDN => ((vx + nn) % 256) as u8,
        Opcode::LDY => vy,
        Opcode::OR => vx | vy,
        Opcode::AND => vx & vy,
        Opcode::XOR => vx ^ vy,
        Opcode::ADDY => ((vx + vy) % 256) as u8,
        Opcode::SUB => ((vx - vy + 256) % 256) as u8,
        Opcode::SUBN => ((vy - vx + 256) % 256) as u8,
        Opcode::SHR => (vx / 2) as u8,
        Opcode::SHL => ((vx * 2) % 256) as u8,
        Opcode::RND => random & nn,
        _ => delay,
    }
}

/// The flag that a register opcode writes to VF afterwards, if any: the
/// carry of an add, "no borrow" of a subtraction, the bit shifted out.
pub open spec fn register_flag(op: Opcode, vx: u8, vy: u8) -> Option<u8> {
    match op {
        Opcode::ADDY => Some(if vx + vy > 255 { 1u8 } else { 0u8 }),
        Opcode::SUB => Some(if vx >= vy { 1u8 } else { 0u8 }),
        Opcode::SUBN => Some(if vy >= vx { 1u8 } else { 0u8 }),
        Opcode::SHR => Some((vx % 2) as u8),
        Opcode::SHL => Some((vx / 128) as u8),
        _ => None,
    }
}

/// Loads into `Vx`, and the arithmetic and logic on registers.
pub open spec fn register_spec(s: CpuState, op: Opcode, w: u16, random: u8) -> CpuState {
    let x = field_x(w);
    let vx = s.registers[x];
    let vy = s.registers[field_y(w)];
    let v = register_value(op, vx, vy, field_nn(w) as u8, s.delay, random);
    match register_flag(op, vx, vy) {
        Some(f) => set_reg_flag(s, x, v, f),
        None => set_reg(s, x, v),
    }
}

/// The index register, the timers, drawing and the memory transfers.
pub open spec fn memory_spec(s: CpuState, op: Opcode, w: u16) -> Result<CpuState, Chip8Error> {
    let x = field_x(w);
    let vx = s.registers[x];
    match op {
        Opcode::LDI => Ok(advance(CpuState { index: field_nnn(w) as u16, ..s }, 2)),
        Opcode::ADDI => Ok(advance(CpuState { index: ((s.index + vx) % 0x10000) as u16, ..s }, 2)),
        Opcode::LDF => Ok(advance(CpuState { index: ((vx % 16) * 5) as u16, ..s }, 2)),
        Opcode::LDDT => Ok(advance(CpuState { delay: vx, ..s }, 2)),
        Opcode::LDST => Ok(advance(CpuState { sound: vx, ..s }, 2)),
        Opcode::DRW => draw_spec(s, w),
        Opcode::BCD => bcd_spec(s, x),
        Opcode::MEMI => store_spec(s, x),
        Opcode::MEMX => fill_spec(s, x),
        _ => Err(Chip8Error::UnimplementedOpcode { tag: op }),
    }
}

/// The opcodes that jump, call, return, clear the screen or do nothing.
pub open spec fn is_control(op: Opcode) -> bool {
    op == Opcode::JP || op == Opcode::CALL || op == Opcode::RET || op == Opcode::JPV
        || op == Opcode::SYS || op == Opcode::CLS
}

/// The conditional skips.
pub open spec fn is_skip(op: Opcode) -> bool {
    op == Opcode::SEN || op == Opcode::SNEN || op == Opcode::SEY || op == Opcode::SNEY
        || op == Opcode::SKIP || op == Opcode::SKNP
}

/// The opcodes that only write a register (and perhaps VF).
pub open spec fn is_register_op(op: Opcode) -> bool {
    op == Opcode::LDN || op == Opcode::ADDN || op == Opcode::LDY || op == Opcode::OR
        || op == Opcode::AND || op == Opcode::XOR || op == Opcode::ADDY || op == Opcode::SUB
        || op == Opcode::SUBN || op == Opcode::SHR || op == Opcode::SHL || op == Opcode::RND
        || op == Opcode::SET
}

/// The meaning of opcode `op`, decoded from word `w`, with `random` as the
/// byte that the random source gave. `LDKEY` (wait for a key) has no meaning
/// here and is reported as unimplemented.
pub open spec fn exec_spec(s: CpuState, op: Opcode, w: u16, random: u8) -> Result<CpuState, Chip8Error> {
    if is_control(op) {
        control_spec(s, op, w)
    } else if is_skip(op) {
        Ok(skip_if(s, skip_condition(s, op, w)))
    } else if is_register_op(op) {
        Ok(register_spec(s, op, w, random))
    } else {
        memory_spec(s, op, w)
    }
}

/// How an operation's result and the state after it match what the model
/// gives: success with the model's state, or its error with nothing changed.
pub open spec fn follows(
    model: Result<CpuState, Chip8Error>,
    r: Result<(), Chip8Error>,
    before: CpuState,
    after: CpuState,
) -> bool {
    match model {
        Ok(t) => r == Ok::<(), Chip8Error>(()) && after == t,
        Err(e) => r == Err::<(), Chip8Error>(e) && after == before,
    }
}

/// Decoding and executing one word.
pub open spec fn run_word(s: CpuState, w: u16, random: u8) -> Result<CpuState, Chip8Error> {
    match decode_spec(w) {
        Ok(op) => exec_spec(s, op, w, random),
        Err(e) => Err(Chip8Error::Decode(e)),
    }
}

/// The word stored big-endian at `pc`.
pub open spec fn fetch_word(s: CpuState) -> u16 {
    (s.memory[s.pc as int] as int * 256 + s.memory[s.pc as int + 1] as int) as u16
}

/// One fetch-decode-execute cycle.
pub open spec fn step_spec(s: CpuState, random: u8) -> Result<CpuState, Chip8Error> {
    if !in_memory(s.pc as int, 2) {
        Err(Chip8Error::MemoryOutOfBounds { address: first_outside(s.pc as int) })
    } else {
        run_word(s, fetch_word(s), random)
    }
}

/// One timer tick: each counter goes down by one, but not below zero.
pub open spec fn tick_spec(s: CpuState) -> CpuState {
    CpuState {
        delay: if s.delay > 0 { (s.delay - 1) as u8 } else { 0 },
        sound: if s.sound > 0 { (s.sound - 1) as u8 } else { 0 },
        ..s
    }
}

/// `k` timer ticks in a row.
pub open spec fn ticks(s: CpuState, k: nat) -> CpuState
    decreases k,
{
    if k == 0 {
        s
    } else {
        tick_spec(ticks(s, (k - 1) as nat))
    }
}

} // verus!
