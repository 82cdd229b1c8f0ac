//! A CHIP-8 interpreter core: instruction decoding, opcode semantics and the
//! emulated machine state, each stated over a mathematical model and proved.
use vstd::prelude::*;

pub mod opcode;
pub mod state;
pub mod cpu;
pub mod machine;
pub mod lemmas;

pub use cpu::Cpu;
pub use machine::Chip8;
pub use opcode::{DecodeError, Instruction, Opcode};
pub use state::Chip8Error;

verus! {

} // verus!
