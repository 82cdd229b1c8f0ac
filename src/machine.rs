//! The emulator as a whole: a machine booted with the font and a program.
use vstd::prelude::*;
use crate::cpu::Cpu;
use crate::state::{boot_spec, follows, step_spec, tick_spec, Chip8Error, CpuState, KEY_COUNT};

verus! {

/// A booted CHIP-8 machine.
pub struct Chip8 {
    cpu: Cpu,
}

impl View for Chip8 {
    type V = CpuState;

    closed spec fn view(&self) -> CpuState {
        self.cpu@
    }
}

impl Chip8 {
    /// Well-formed machine state.
    pub open spec fn wf(&self) -> bool {
        self@.wf()
    }

    /// A fresh machine with the font at address 0 and `game`, a program
    /// image, at the load address; refused when the image does not fit.
    pub fn new(game: &Vec<u8>) -> (r: Result<Chip8, Chip8Error>)
        ensures
            match boot_spec(game@) {
                Ok(t) => r matches Ok(c) && c.wf() && c@ == t,
                Err(e) => r == Err::<Chip8, Chip8Error>(e),
            },
    {
        let mut cpu = Cpu::initialize();
        cpu.load_font_set();
        match cpu.load_game(game) {
            Ok(()) => Ok(Chip8 { cpu }),
            Err(e) => Err(e),
        }
    }

    /// The machine, for reading its state.
    pub fn cpu(&self) -> (r: &Cpu)
        ensures
            r@ == self@,
    {
        &self.cpu
    }

    /// One fetch-decode-execute cycle with `random` as the byte for `RND`.
    pub fn step(&mut self, random: u8) -> (r: Result<(), Chip8Error>)
        requires
            old(self).wf(),
        ensures
            final(self).wf(),
            follows(step_spec(old(self)@, random), r, old(self)@, final(self)@),
    {
        self.cpu.step(random)
    }

    /// One cycle with a byte from the random source.
    pub fn cycle(&mut self) -> (r: Result<(), Chip8Error>)
        requires
            old(self).wf(),
        ensures
            final(self).wf(),
            exists|b: u8| follows(step_spec(old(self)@, b), r, old(self)@, final(self)@),
    {
        self.cpu.cycle()
    }

    /// One timer tick.
    pub fn tick(&mut self)
        requires
            old(self).wf(),
        ensures
            final(self).wf(),
            final(self)@ == tick_spec(old(self)@),
    {
        self.cpu.tick()
    }

    /// Records whether key `k` (0 to F) is down.
    pub fn set_key(&mut self, k: usize, down: bool)
        requires
            old(self).wf(),
            k < KEY_COUNT,
        ensures
            final(self).wf(),
            final(self)@ == (CpuState { keys: old(self)@.keys.update(k as int, down), ..old(self)@ }),
    {
        self.cpu.set_key(k, down)
    }
}

} // verus!
