//! The instruction table: which decoded words name an instruction, and which
//! one.

use vstd::prelude::*;
use crate::decode::{Fields, fields_of, decode, lemma_fields_compose};

verus! {

/// One instruction of the machine, with its operands.
///
/// `x` and `y` number registers, `kk` is a byte operand, `addr` a twelve-bit
/// address and `n` a sprite height.
#[derive(Clone, Copy, Debug, PartialEq, Eq, Structural)]
pub enum Instruction {
    /// `0000`: do nothing.
    Nop,
    /// `00E0`: clear the framebuffer.
    Cls,
    /// `00EE`: return from a subroutine.
    Ret,
    /// `1nnn`: jump to `addr`.
    Jp { addr: u16 },
    /// `2nnn`: call the subroutine at `addr`.
    Call { addr: u16 },
    /// `3xkk`: skip the next instruction if `Vx == kk`.
    SeVxKk { x: u8, kk: u8 },
    /// `4xkk`: skip the next instruction if `Vx != kk`.
    SneVxKk { x: u8, kk: u8 },
    /// `5xy0`: skip the next instruction if `Vx == Vy`.
    SeVxVy { x: u8, y: u8 },
    /// `6xkk`: `Vx = kk`.
    LdVxKk { x: u8, kk: u8 },
    /// `7xkk`: `Vx = Vx + kk` modulo 256, flag untouched.
    AddVxKk { x: u8, kk: u8 },
    /// `8xy0`: `Vx = Vy`.
    LdVxVy { x: u8, y: u8 },
    /// `8xy1`: `Vx = Vx OR Vy`.
    OrVxVy { x: u8, y: u8 },
    /// `8xy2`: `Vx = Vx AND Vy`.
    AndVxVy { x: u8, y: u8 },
    /// `8xy3`: `Vx = Vx XOR Vy`.
    XorVxVy { x: u8, y: u8 },
    /// `8xy4`: `Vx = Vx + Vy` modulo 256, `VF` = carry.
    AddVxVy { x: u8, y: u8 },
    /// `8xy5`: `Vx = Vx - Vy` modulo 256, `VF` = no borrow.
    SubVxVy { x: u8, y: u8 },
    /// `8xy6`: `Vx` shifted right by one, `VF` = the bit shifted out.
    ShrVx { x: u8 },
    /// `8xy7`: `Vx = Vy - Vx` modulo 256, `VF` = no borrow.
    SubnVxVy { x: u8, y: u8 },
    /// `8xyE`: `Vx` shifted left by one, `VF` = the bit shifted out.
    ShlVx { x: u8 },
    /// `9xy0`: skip the next instruction if `Vx != Vy`.
    SneVxVy { x: u8, y: u8 },
    /// `Annn`: `I = addr`.
    LdIAddr { addr: u16 },
    /// `Bnnn`: jump to `V0 + addr`.
    JpV0Addr { addr: u16 },
    /// `Cxkk`: `Vx` = a random byte AND `kk`.
    RndVxKk { x: u8, kk: u8 },
    /// `Dxyn`: draw an `n`-row sprite at (`Vx`, `Vy`).
    DrwVxVyN { x: u8, y: u8, n: u8 },
    /// `Ex9E`: skip the next instruction if key `Vx` is pressed.
    SkpVx { x: u8 },
    /// `ExA1`: skip the next instruction if key `Vx` is not pressed.
    SknpVx { x: u8 },
    /// `Fx07`: `Vx` = delay timer.
    LdVxDt { x: u8 },
    /// `Fx0A`: wait for a key press, then `Vx` = that key.
    LdVxK { x: u8 },
    /// `Fx15`: delay timer = `Vx`.
    LdDtVx { x: u8 },
    /// `Fx18`: sound timer = `Vx`.
    LdStVx { x: u8 },
    /// `Fx1E`: `I = I + Vx`.
    AddIVx { x: u8 },
    /// `Fx29`: `I` = address of the glyph for `Vx`.
    LdFVx { x: u8 },
    /// `Fx33`: store the decimal digits of `Vx` at `I`, `I+1`, `I+2`.
    LdBVx { x: u8 },
    /// `Fx55`: store `V0..=Vx` at `I..=I+x`.
    LdIVx { x: u8 },
    /// `Fx65`: load `V0..=Vx` from `I..=I+x`.
    LdVxI { x: u8 },
}

impl Instruction {
    /// Every operand is within the width of its field.
    pub open spec fn wf(self) -> bool {
        match self {
            Instruction::Nop | Instruction::Cls | Instruction::Ret => true,
            Instruction::Jp { addr }
            | Instruction::Call { addr }
            | Instruction::LdIAddr { addr }
            | Instruction::JpV0Addr { addr } => addr < 4096,
            Instruction::SeVxKk { x, kk }
            | Instruction::SneVxKk { x, kk }
            | Instruction::LdVxKk { x, kk }
            | Instruction::AddVxKk { x, kk }
            | Instruction::RndVxKk { x, kk } => x < 16,
            Instruction::SeVxVy { x, y }
            | Instruction::LdVxVy { x, y }
            | Instruction::OrVxVy { x, y }
            | Instruction::AndVxVy { x, y }
            | Instruction::XorVxVy { x, y }
            | Instruction::AddVxVy { x, y }
            | Instruction::SubVxVy { x, y }
            | Instruction::SubnVxVy { x, y }
            | Instruction::SneVxVy { x, y } => x < 16 && y < 16,
            Instruction::DrwVxVyN { x, y, n } => x < 16 && y < 16 && n < 16,
            Instruction::ShrVx { x }
            | Instruction::ShlVx { x }
            | Instruction::SkpVx { x }
            | Instruction::SknpVx { x }
            | Instruction::LdVxDt { x }
            | Instruction::LdVxK { x }
            | Instruction::LdDtVx { x }
            | Instruction::LdStVx { x }
            | Instruction::AddIVx { x }
            | Instruction::LdFVx { x }
            | Instruction::LdBVx { x }
            | Instruction::LdIVx { x }
            | Instruction::LdVxI { x } => x < 16,
        }
    }

    /// The word that encodes this instruction. The two shifts ignore their
    /// `y` digit, so they are encoded with a zero there.
    pub open spec fn encoding(self) -> int {
        match self {
            Instruction::Nop => 0x0000,
            Instruction::Cls => 0x00E0,
            Instruction::Ret => 0x00EE,
            Instruction::Jp { addr } => 0x1000 + addr,
            Instruction::Call { addr } => 0x2000 + addr,
            Instruction::SeVxKk { x, kk } => 0x3000 + 256 * x + kk,
            Instruction::SneVxKk { x, kk } => 0x4000 + 256 * x + kk,
            Instruction::SeVxVy { x, y } => 0x5000 + 256 * x + 16 * y,
            Instruction::LdVxKk { x, kk } => 0x6000 + 256 * x + kk,
            Instruction::AddVxKk { x, kk } => 0x7000 + 256 * x + kk,
            Instruction::LdVxVy { x, y } => 0x8000 + 256 * x + 16 * y,
            Instruction::OrVxVy { x, y } => 0x8001 + 256 * x + 16 * y,
            Instruction::AndVxVy { x, y } => 0x8002 + 256 * x + 16 * y,
            Instruction::XorVxVy { x, y } => 0x8003 + 256 * x + 16 * y,
            Instruction::AddVxVy { x, y } => 0x8004 + 256 * x + 16 * y,
            Instruction::SubVxVy { x, y } => 0x8005 + 256 * x + 16 * y,
            Instruction::ShrVx { x } => 0x8006 + 256 * x,
            Instruction::SubnVxVy { x, y } => 0x8007 + 256 * x + 16 * y,
            Instruction::ShlVx { x } => 0x800E + 256 * x,
            Instruction::SneVxVy { x, y } => 0x9000 + 256 * x + 16 * y,
            Instruction::LdIAddr { addr } => 0xA000 + addr,
            Instruction::JpV0Addr { addr } => 0xB000 + addr,
            Instruction::RndVxKk { x, kk } => 0xC000 + 256 * x + kk,
            Instruction::DrwVxVyN { x, y, n } => 0xD000 + 256 * x + 16 * y + n,
            Instruction::SkpVx { x } => 0xE09E + 256 * x,
            Instruction::SknpVx { x } => 0xE0A1 + 256 * x,
            Instruction::LdVxDt { x } => 0xF007 + 256 * x,
            Instruction::LdVxK { x } => 0xF00A + 256 * x,
            Instruction::LdDtVx { x } => 0xF015 + 256 * x,
            Instruction::LdStVx { x } => 0xF018 + 256 * x,
            Instruction::AddIVx { x } => 0xF01E + 256 * x,
            Instruction::LdFVx { x } => 0xF029 + 256 * x,
            Instruction::LdBVx { x } => 0xF033 + 256 * x,
            Instruction::LdIVx { x } => 0xF055 + 256 * x,
            Instruction::LdVxI { x } => 0xF065 + 256 * x,
        }
    }
}

/// The instruction that the fields `f` name, if any. A word that falls in no
/// row of this table is not an instruction.
pub open spec fn instruction_of_fields(f: Fields) -> Option<Instruction> {
    let Fields { raw, digit1, x, y, n, nnn, nn } = f;
    if digit1 == 0x0 {
        if x != 0 {
            None
        } else if nn == 0x00 {
            Some(Instruction::Nop)
        } else if nn == 0xE0 {
            Some(Instruction::Cls)
        } else if nn == 0xEE {
            Some(Instruction::Ret)
        } else {
            None
        }
    } else if digit1 == 0x1 {
        Some(Instruction::Jp { addr: nnn })
    } else if digit1 == 0x2 {
        Some(Instruction::Call { addr: nnn })
    } else if digit1 == 0x3 {
        Some(Instruction::SeVxKk { x, kk: nn })
    } else if digit1 == 0x4 {
        Some(Instruction::SneVxKk { x, kk: nn })
    } else if digit1 == 0x5 {
        if n == 0 {
            Some(Instruction::SeVxVy { x, y })
        } else {
            None
        }
    } else if digit1 == 0x6 {
        Some(Instruction::LdVxKk { x, kk: nn })
    } else if digit1 == 0x7 {
        Some(Instruction::AddVxKk { x, kk: nn })
    } else if digit1 == 0x8 {
        if n == 0x0 {
            Some(Instruction::LdVxVy { x, y })
        } else if n == 0x1 {
            Some(Instruction::OrVxVy { x, y })
        } else if n == 0x2 {
            Some(Instruction::AndVxVy { x, y })
        } else if n == 0x3 {
            Some(Instruction::XorVxVy { x, y })
        } else if n == 0x4 {
            Some(Instruction::AddVxVy { x, y })
        } else if n == 0x5 {
            Some(Instruction::SubVxVy { x, y })
        } else if n == 0x6 {
            Some(Instruction::ShrVx { x })
        } else if n == 0x7 {
            Some(Instruction::SubnVxVy { x, y })
        } else if n == 0xE {
            Some(Instruction::ShlVx { x })
        } else {
            None
        }
    } else if digit1 == 0x9 {
        if n == 0 {
            Some(Instruction::SneVxVy { x, y })
        } else {
            None
        }
    } else if digit1 == 0xA {
        Some(Instruction::LdIAddr { addr: nnn })
    } else if digit1 == 0xB {
        Some(Instruction::JpV0Addr { addr: nnn })
    } else if digit1 == 0xC {
        Some(Instruction::RndVxKk { x, kk: nn })
    } else if digit1 == 0xD {
        Some(Instruction::DrwVxVyN { x, y, n })
    } else if digit1 == 0xE {
        if nn == 0x9E {
            Some(Instruction::SkpVx { x })
        } else if nn == 0xA1 {
            Some(Instruction::SknpVx { x })
        } else {
            None
        }
    } else if digit1 == 0xF {
        if nn == 0x07 {
            Some(Instruction::LdVxDt { x })
        } else if nn == 0x0A {
            Some(Instruction::LdVxK { x })
        } else if nn == 0x15 {
            Some(Instruction::LdDtVx { x })
        } else if nn == 0x18 {
            Some(Instruction::LdStVx { x })
        } else if nn == 0x1E {
            Some(Instruction::AddIVx { x })
        } else if nn == 0x29 {
            Some(Instruction::LdFVx { x })
        } else if nn == 0x33 {
            Some(Instruction::LdBVx { x })
        } else if nn == 0x55 {
            Some(Instruction::LdIVx { x })
        } else if nn == 0x65 {
            Some(Instruction::LdVxI { x })
        } else {
            None
        }
    } else {
        None
    }
}

/// The instruction that the word `op` names, if any.
pub open spec fn instruction_of(op: u16) -> Option<Instruction> {
    instruction_of_fields(fields_of(op))
}

/// Matches decoded fields against the instruction table.
pub fn dispatch(f: Fields) -> (r: Option<Instruction>)
    ensures
        r == instruction_of_fields(f),
{
    let x: u8 = f.x;
    let y: u8 = f.y;
    let n: u8 = f.n;
    let kk: u8 = f.nn;
    let addr: u16 = f.nnn;
    match (f.digit1, f.x, f.nn, f.n) {
        (0x0, 0x0, 0x00, _) => Some(Instruction::Nop),
        (0x0, 0x0, 0xE0, _) => Some(Instruction::Cls),
        (0x0, 0x0, 0xEE, _) => Some(Instruction::Ret),
        (0x1, _, _, _) => Some(Instruction::Jp { addr }),
        (0x2, _, _, _) => Some(Instruction::Call { addr }),
        (0x3, _, _, _) => Some(Instruction::SeVxKk { x, kk }),
        (0x4, _, _, _) => Some(Instruction::SneVxKk { x, kk }),
        (0x5, _, _, 0x0) => Some(Instruction::SeVxVy { x, y }),
        (0x6, _, _, _) => Some(Instruction::LdVxKk { x, kk }),
        (0x7, _, _, _) => Some(Instruction::AddVxKk { x, kk }),
        (0x8, _, _, 0x0) => Some(Instruction::LdVxVy { x, y }),
        (0x8, _, _, 0x1) => Some(Instruction::OrVxVy { x, y }),
        (0x8, _, _, 0x2) => Some(Instruction::AndVxVy { x, y }),
        (0x8, _, _, 0x3) => Some(Instruction::XorVxVy { x, y }),
        (0x8, _, _, 0x4) => Some(Instruction::AddVxVy { x, y }),
        (0x8, _, _, 0x5) => Some(Instruction::SubVxVy { x, y }),
        (0x8, _, _, 0x6) => Some(Instruction::ShrVx { x }),
        (0x8, _, _, 0x7) => Some(Instruction::SubnVxVy { x, y }),
        (0x8, _, _, 0xE) => Some(Instruction::ShlVx { x }),
        (0x9, _, _, 0x0) => Some(Instruction::SneVxVy { x, y }),
        (0xA, _, _, _) => Some(Instruction::LdIAddr { addr }),
        (0xB, _, _, _) => Some(Instruction::JpV0Addr { addr }),
        (0xC, _, _, _) => Some(Instruction::RndVxKk { x, kk }),
        (0xD, _, _, _) => Some(Instruction::DrwVxVyN { x, y, n }),
        (0xE, _, 0x9E, _) => Some(Instruction::SkpVx { x }),
        (0xE, _, 0xA1, _) => Some(Instruction::SknpVx { x }),
        (0xF, _, 0x07, _) => Some(Instruction::LdVxDt { x }),
        (0xF, _, 0x0A, _) => Some(Instruction::LdVxK { x }),
        (0xF, _, 0x15, _) => Some(Instruction::LdDtVx { x }),
        (0xF, _, 0x18, _) => Some(Instruction::LdStVx { x }),
        (0xF, _, 0x1E, _) => Some(Instruction::AddIVx { x }),
        (0xF, _, 0x29, _) => Some(Instruction::LdFVx { x }),
        (0xF, _, 0x33, _) => Some(Instruction::LdBVx { x }),
        (0xF, _, 0x55, _) => Some(Instruction::LdIVx { x }),
        (0xF, _, 0x65, _) => Some(Instruction::LdVxI { x }),
        _ => None,
    }
}

/// Decodes `op` and looks it up in the instruction table.
pub fn parse(op: u16) -> (r: Option<Instruction>)
    ensures
        r == instruction_of(op),
        r matches Some(ins) ==> ins.wf(),
{
    dispatch(decode(op))
}

/// The table is sound: a word that names an instruction names a well-formed
/// one, and is that instruction's encoding up to the ignored `y` digit of the
/// two shifts.
pub proof fn lemma_instruction_of_sound(op: u16)
    ensures
        instruction_of(op) matches Some(ins) ==> {
            &&& ins.wf()
            &&& match ins {
                Instruction::ShrVx { .. } | Instruction::ShlVx { .. } => ins.encoding() == op
                    - 16 * fields_of(op).y,
                _ => ins.encoding() == op,
            }
        },
{
    lemma_fields_compose(op);
}

/// The table is complete: the encoding of every well-formed instruction
/// names that instruction.
pub proof fn lemma_instruction_of_complete(ins: Instruction)
    requires
        ins.wf(),
    ensures
        0 <= ins.encoding() < 0x10000,
        instruction_of(ins.encoding() as u16) == Some(ins),
{
    lemma_fields_compose(ins.encoding() as u16);
}

} // verus!
