//! Instruction words, the closed set of opcodes and the decoder.
use vstd::prelude::*;

verus! {

/// A raw 16-bit instruction word, formed big-endian from two program bytes.
#[derive(Clone, Copy, Debug, PartialEq, Eq, Structural)]
pub struct Instruction(pub u16);

/// The operation selected by an instruction word; operands stay in the word.
#[derive(Clone, Copy, Debug, PartialEq, Eq, Structural)]
pub enum Opcode {
    /// `1nnn`: jump to `nnn`.
    JP,
    /// `2nnn`: call the subroutine at `nnn`.
    CALL,
    /// `3xnn`: skip if `Vx == nn`.
    SEN,
    /// `4xnn`: skip if `Vx != nn`.
    SNEN,
    /// `5xy0`: skip if `Vx == Vy`.
    SEY,
    /// `6xnn`: `Vx = nn`.
    LDN,
    /// `7xnn`: `Vx += nn`, wrapping, no flag.
    ADDN,
    /// `8xy0`: `Vx = Vy`.
    LDY,
    /// `8xy1`: `Vx |= Vy`.
    OR,
    /// `8xy2`: `Vx &= Vy`.
    AND,
    /// `8xy3`: `Vx ^= Vy`.
    XOR,
    /// `8xy4`: `Vx += Vy`, carry into VF.
    ADDY,
    /// `8xy5`: `Vx -= Vy`, VF = no borrow.
    SUB,
    /// `8xy6`: `Vx >>= 1`, VF = the bit shifted out.
    SHR,
    /// `8xy7`: `Vx = Vy - Vx`, VF = no borrow.
    SUBN,
    /// `8xyE`: `Vx <<= 1`, VF = the bit shifted out.
    SHL,
    /// `9xy0`: skip if `Vx != Vy`.
    SNEY,
    /// `Annn`: `I = nnn`.
    LDI,
    /// `Bnnn`: jump to `nnn + V0`.
    JPV,
    /// `Cxnn`: `Vx = random & nn`.
    RND,
    /// `Dxyn`: draw an `n`-row sprite from `I` at `(Vx, Vy)`.
    DRW,
    /// `Ex9E`: skip if the key `Vx` is down.
    SKIP,
    /// `ExA1`: skip if the key `Vx` is up.
    SKNP,
    /// `Fx07`: `Vx = delay timer`.
    SET,
    /// `Fx0A`: wait for a key press into `Vx`; the machine reports it as unimplemented.
    LDKEY,
    /// `Fx15`: `delay timer = Vx`.
    LDDT,
    /// `Fx18`: `sound timer = Vx`.
    LDST,
    /// `Fx1E`: `I += Vx`, wrapping at 16 bits.
    ADDI,
    /// `Fx29`: `I = address of the font sprite for digit Vx`.
    LDF,
    /// `Fx33`: store the decimal digits of `Vx` at `I`, `I+1`, `I+2`.
    BCD,
    /// `Fx55`: store `V0..=Vx` at `I`.
    MEMI,
    /// `Fx65`: load `V0..=Vx` from `I`.
    MEMX,
    /// `0nnn` other than the two below: a native routine call, here a no-op.
    SYS,
    /// `00E0`: clear the screen.
    CLS,
    /// `00EE`: return from a subroutine.
    RET,
}

/// Why an instruction word could not be decoded.
#[derive(Clone, Copy, Debug, PartialEq, Eq, Structural)]
pub enum DecodeError {
    UnknownOpcode { word: u16 },
}

/// The top four bits of a word.
pub open spec fn family(w: u16) -> int {
    w as int / 0x1000
}

/// The register field `x` (bits 8..12).
pub open spec fn field_x(w: u16) -> int {
    (w as int / 0x100) % 0x10
}

/// The register field `y` (bits 4..8).
pub open spec fn field_y(w: u16) -> int {
    (w as int / 0x10) % 0x10
}

/// The 4-bit immediate `n`.
pub open spec fn field_n(w: u16) -> int {
    w as int % 0x10
}

/// The 8-bit immediate `nn`.
pub open spec fn field_nn(w: u16) -> int {
    w as int % 0x100
}

/// The 12-bit address `nnn`.
pub open spec fn field_nnn(w: u16) -> int {
    w as int % 0x1000
}

/// The opcode table: what each word decodes to.
pub open spec fn decode_spec(w: u16) -> Result<Opcode, DecodeError> {
    let unknown = Err(DecodeError::UnknownOpcode { word: w });
    let f = family(w);
    if f == 0x0 {
        if field_nnn(w) == 0x0E0 {
            Ok(Opcode::CLS)
        } else if field_nnn(w) == 0x0EE {
            Ok(Opcode::RET)
        } else {
            Ok(Opcode::SYS)
        }
    } else if f == 0x1 {
        Ok(Opcode::JP)
    } else if f == 0x2 {
        Ok(Opcode::CALL)
    } else if f == 0x3 {
        Ok(Opcode::SEN)
    } else if f == 0x4 {
        Ok(Opcode::SNEN)
    } else if f == 0x5 {
        Ok(Opcode::SEY)
    } else if f == 0x6 {
        Ok(Opcode::LDN)
    } else if f == 0x7 {
        Ok(Opcode::ADDN)
    } else if f == 0x8 {
        let n = field_n(w);
        if n == 0x0 {
            Ok(Opcode::LDY)
        } else if n == 0x1 {
            Ok(Opcode::OR)
        } else if n == 0x2 {
            Ok(Opcode::AND)
        } else if n == 0x3 {
            Ok(Opcode::XOR)
        } else if n == 0x4 {
            Ok(Opcode::ADDY)
        } else if n == 0x5 {
            Ok(Opcode::SUB)
        } else if n == 0x6 {
            Ok(Opcode::SHR)
        } else if n == 0x7 {
            Ok(Opcode::SUBN)
        } else if n == 0xE {
            Ok(Opcode::SHL)
        } else {
            unknown
        }
    } else if f == 0x9 {
        Ok(Opcode::SNEY)
    } else if f == 0xA {
        Ok(Opcode::LDI)
    } else if f == 0xB {
        Ok(Opcode::JPV)
    } else if f == 0xC {
        Ok(Opcode::RND)
    } else if f == 0xD {
        Ok(Opcode::DRW)
    } else if f == 0xE {
        let nn = field_nn(w);
        if nn == 0x9E {
            Ok(Opcode::SKIP)
        } else if nn == 0xA1 {
            Ok(Opcode::SKNP)
        } else {
            unknown
        }
    } else {
        let nn = field_nn(w);
        if nn == 0x07 {
            Ok(Opcode::SET)
        } else if nn == 0x0A {
            Ok(Opcode::LDKEY)
        } else if nn == 0x15 {
            Ok(Opcode::LDDT)
        } else if nn == 0x18 {
            Ok(Opcode::LDST)
        } else if nn == 0x1E {
            Ok(Opcode::ADDI)
        } else if nn == 0x29 {
            Ok(Opcode::LDF)
        } else if nn == 0x33 {
            Ok(Opcode::BCD)
        } else if nn == 0x55 {
            Ok(Opcode::MEMI)
        } else if nn == 0x65 {
            Ok(Opcode::MEMX)
        } else {
            unknown
        }
    }
}

impl Instruction {
    /// The register index `x`.
    pub fn x(&self) -> (r: usize)
        ensures
            r == field_x(self.0),
            r < 16,
    {
        ((self.0 / 0x100) % 0x10) as usize
    }

    /// The register index `y`.
    pub fn y(&self) -> (r: usize)
        ensures
            r == field_y(self.0),
            r < 16,
    {
        ((self.0 / 0x10) % 0x10) as usize
    }

    /// The 4-bit immediate `n`.
    pub fn n(&self) -> (r: u8)
        ensures
            r == field_n(self.0),
            r < 16,
    {
        (self.0 % 0x10) as u8
    }

    /// The 8-bit immediate `nn`.
    pub fn nn(&self) -> (r: u8)
        ensures
            r == field_nn(self.0),
    {
        (self.0 % 0x100) as u8
    }

    /// The 12-bit address `nnn`.
    pub fn nnn(&self) -> (r: u16)
        ensures
            r == field_nnn(self.0),
            r < 0x1000,
    {
        self.0 % 0x1000
    }

    /// Decodes a word into its opcode, or reports the word when no opcode
    /// has that encoding.
    pub fn decode_instruction(instruction: &Instruction) -> (r: Result<Opcode, DecodeError>)
        ensures
            r == decode_spec(instruction.0),
    {
        let inst = instruction.0;
        let unknown = Err(DecodeError::UnknownOpcode { word: inst });
        match inst / 0x1000 {
            0x0 => match inst % 0x1000 {
                0x0E0 => Ok(Opcode::CLS),
                0x0EE => Ok(Opcode::RET),
                _ => Ok(Opcode::SYS),
            },
            0x1 => Ok(Opcode::JP),
            0x2 => Ok(Opcode::CALL),
            0x3 => Ok(Opcode::SEN),
            0x4 => Ok(Opcode::SNEN),
            0x5 => Ok(Opcode::SEY),
            0x6 => Ok(Opcode::LDN),
            0x7 => Ok(Opcode::ADDN),
            0x8 => match inst % 0x10 {
                0x0 => Ok(Opcode::LDY),
                0x1 => Ok(Opcode::OR),
                0x2 => Ok(Opcode::AND),
                0x3 => Ok(Opcode::XOR),
                0x4 => Ok(Opcode::ADDY),
                0x5 => Ok(Opcode::SUB),
                0x6 => Ok(Opcode::SHR),
                0x7 => Ok(Opcode::SUBN),
                0xE => Ok(Opcode::SHL),
                _ => unknown,
            },
            0x9 => Ok(Opcode::SNEY),
            0xA => Ok(Opcode::LDI),
            0xB => Ok(Opcode::JPV),
            0xC => Ok(Opcode::RND),
            0xD => Ok(Opcode::DRW),
            0xE => match inst % 0x100 {
                0x9E => Ok(Opcode::SKIP),
                0xA1 => Ok(Opcode::SKNP),
                _ => unknown,
            },
            _ => match inst % 0x100 {
                0x07 => Ok(Opcode::SET),
                0x0A => Ok(Opcode::LDKEY),
                0x15 => Ok(Opcode::LDDT),
                0x18 => Ok(Opcode::LDST),
                0x1E => Ok(Opcode::ADDI),
                0x29 => Ok(Opcode::LDF),
                0x33 => Ok(Opcode::BCD),
                0x55 => Ok(Opcode::MEMI),
                0x65 => Ok(Opcode::MEMX),
                _ => unknown,
            },
        }
    }
}

/// Every word of the families `1`..`7` and `9`..`D` decodes; a word of family
/// `8` whose low nibble is `8`..`D` or `F` is reported as unknown.
pub proof fn lemma_decode_families(w: u16)
    ensures
        (1 <= family(w) <= 7 || 9 <= family(w) <= 0xD) ==> decode_spec(w) is Ok,
        (family(w) == 8 && ((8 <= field_n(w) <= 0xD) || field_n(w) == 0xF)) ==> decode_spec(w)
            == Err::<Opcode, DecodeError>(DecodeError::UnknownOpcode { word: w }),
{
}

} // verus!
