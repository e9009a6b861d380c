//! Turns the two bytes of an instruction into an [`OpCode`].
use vstd::prelude::*;

use super::{AddOp, JumpOp, LoadOp, OpCode, ShiftOp, SkipOp};

verus! {

/// The 16-bit word whose high byte is `high` and low byte is `low`.
pub open spec fn word(high: u8, low: u8) -> u16 {
    (high as int * 256 + low as int) as u16
}

/// What each instruction word means.
///
/// The top nibble of `high` picks the family; the `0`, `8`, `E` and `F`
/// families then look at `kk` (the low byte) or `n` (its low nibble). Any
/// pattern not listed is `Unknown` with the raw word.
pub open spec fn decode(high: u8, low: u8) -> OpCode {
    let x = (high % 16) as u8;
    let y = (low / 16) as u8;
    let n = (low % 16) as u8;
    let kk = low;
    let nnn = ((high % 16) as int * 256 + low as int) as u16;
    let raw = word(high, low);
    let family = high / 16;
    if family == 0x0 {
        if kk == 0xE0 {
            OpCode::CLS
        } else if kk == 0xEE {
            OpCode::RET
        } else {
            OpCode::Unknown(raw)
        }
    } else if family == 0x1 {
        OpCode::JP(JumpOp::JP(nnn))
    } else if family == 0x2 {
        OpCode::CALL(nnn)
    } else if family == 0x3 {
        OpCode::SKIP(SkipOp::SE(x, kk))
    } else if family == 0x4 {
        OpCode::SKIP(SkipOp::SNE(x, kk))
    } else if family == 0x5 {
        OpCode::SKIP(SkipOp::SEXY(x, y))
    } else if family == 0x6 {
        OpCode::LD(LoadOp::LD(x, kk))
    } else if family == 0x7 {
        OpCode::ADD(AddOp::ADD(x, kk))
    } else if family == 0x8 {
        if n == 0x0 {
            OpCode::LD(LoadOp::LDXY(x, y))
        } else if n == 0x1 {
            OpCode::OR(x, y)
        } else if n == 0x2 {
            OpCode::AND(x, y)
        } else if n == 0x3 {
            OpCode::XOR(x, y)
        } else if n == 0x4 {
            OpCode::ADD(AddOp::ADDREG(x, y))
        } else if n == 0x5 {
            OpCode::SUB(x, y)
        } else if n == 0x6 {
            OpCode::SHIFT(ShiftOp::SHR(x))
        } else if n == 0x7 {
            OpCode::SUBN(x, y)
        } else if n == 0xE {
            OpCode::SHIFT(ShiftOp::SHL(x))
        } else {
            OpCode::Unknown(raw)
        }
    } else if family == 0x9 {
        if n == 0x0 {
            OpCode::SKIP(SkipOp::SNEXY(x, y))
        } else {
            OpCode::Unknown(raw)
        }
    } else if family == 0xA {
        OpCode::LD(LoadOp::LDI(nnn))
    } else if family == 0xB {
        OpCode::JP(JumpOp::JPV0(nnn))
    } else if family == 0xC {
        OpCode::RND(x, kk)
    } else if family == 0xD {
        OpCode::DRW(x, y, n)
    } else if family == 0xE {
        if kk == 0x9E {
            OpCode::SKIP(SkipOp::SKP(x))
        } else if kk == 0xA1 {
            OpCode::SKIP(SkipOp::SKNP(x))
        } else {
            OpCode::Unknown(raw)
        }
    } else {
        if kk == 0x07 {
            OpCode::LD(LoadOp::LDVXDT(x))
        } else if kk == 0x0A {
            OpCode::LD(LoadOp::LDKEY(x))
        } else if kk == 0x15 {
            OpCode::LD(LoadOp::LDDTVX(x))
        } else if kk == 0x18 {
            OpCode::LD(LoadOp::LDSTVX(x))
        } else if kk == 0x1E {
            OpCode::ADD(AddOp::ADDI(x))
        } else if kk == 0x29 {
            OpCode::LD(LoadOp::LDF(x))
        } else if kk == 0x33 {
            OpCode::LD(LoadOp::LDB(x))
        } else if kk == 0x55 {
            OpCode::LD(LoadOp::LDIV0X(x))
        } else if kk == 0x65 {
            OpCode::LD(LoadOp::LDV0XI(x))
        } else {
            OpCode::Unknown(raw)
        }
    }
}

/// Every decoded instruction has its operands in range.
pub proof fn lemma_decode_wf(high: u8, low: u8)
    ensures
        decode(high, low).wf(),
{
}

/// Joins two bytes into a 16-bit word, `high` first.
pub fn generate_opcode(high: u8, low: u8) -> (r: u16)
    ensures
        r == word(high, low),
        r as int == high as int * 256 + low as int,
{
    let r = (high as u16) << 8u16 | (low as u16);
    assert(r == (high as u16) * 256 + (low as u16)) by (bit_vector)
        requires
            r == (high as u16) << 8u16 | (low as u16),
    ;
    r
}

/// Decodes the instruction whose high byte is `high` and low byte is `low`.
///
/// A pattern that names no instruction gives `OpCode::Unknown` with the raw word.
pub fn parse_opcode(high: u8, low: u8) -> (r: OpCode)
    ensures
        r == decode(high, low),
        r.wf(),
{
    let opcode: u16 = generate_opcode(high, low);
    let family: u16 = opcode >> 12u16;
    let x: u8 = ((opcode >> 8u16) & 0x000F) as u8;
    let y: u8 = ((opcode >> 4u16) & 0x000F) as u8;
    let n: u8 = (opcode & 0x000F) as u8;
    let kk: u8 = (opcode & 0x00FF) as u8;
    let nnn: u16 = opcode & 0x0FFF;
    assert(family == high / 16 && (opcode >> 8u16) & 0x000F == high % 16 && (opcode >> 4u16)
        & 0x000F == low / 16 && opcode & 0x000F == low % 16 && opcode & 0x00FF == low && nnn
        == (high % 16) * 256 + low) by (bit_vector)
        requires
            opcode == (high as u16) * 256 + (low as u16),
            family == opcode >> 12u16,
            nnn == opcode & 0x0FFF,
    ;
    proof {
        lemma_decode_wf(high, low);
    }
    if family == 0x0 {
        if kk == 0xE0 {
            OpCode::CLS
        } else if kk == 0xEE {
            OpCode::RET
        } else {
            OpCode::Unknown(opcode)
        }
    } else if family == 0x1 {
        OpCode::JP(JumpOp::JP(nnn))
    } else if family == 0x2 {
        OpCode::CALL(nnn)
    } else if family == 0x3 {
        OpCode::SKIP(SkipOp::SE(x, kk))
    } else if family == 0x4 {
        OpCode::SKIP(SkipOp::SNE(x, kk))
    } else if family == 0x5 {
        OpCode::SKIP(SkipOp::SEXY(x, y))
    } else if family == 0x6 {
        OpCode::LD(LoadOp::LD(x, kk))
    } else if family == 0x7 {
        OpCode::ADD(AddOp::ADD(x, kk))
    } else if family == 0x8 {
        match n {
            0x0 => OpCode::LD(LoadOp::LDXY(x, y)),
            0x1 => OpCode::OR(x, y),
            0x2 => OpCode::AND(x, y),
            0x3 => OpCode::XOR(x, y),
            0x4 => OpCode::ADD(AddOp::ADDREG(x, y)),
            0x5 => OpCode::SUB(x, y),
            0x6 => OpCode::SHIFT(ShiftOp::SHR(x)),
            0x7 => OpCode::SUBN(x, y),
            0xE => OpCode::SHIFT(ShiftOp::SHL(x)),
            _ => OpCode::Unknown(opcode),
        }
    } else if family == 0x9 {
        match n {
            0x0 => OpCode::SKIP(SkipOp::SNEXY(x, y)),
            _ => OpCode::Unknown(opcode),
        }
    } else if family == 0xA {
        OpCode::LD(LoadOp::LDI(nnn))
    } else if family == 0xB {
        OpCode::JP(JumpOp::JPV0(nnn))
    } else if family == 0xC {
        OpCode::RND(x, kk)
    } else if family == 0xD {
        OpCode::DRW(x, y, n)
    } else if family == 0xE {
        match kk {
            0x9E => OpCode::SKIP(SkipOp::SKP(x)),
            0xA1 => OpCode::SKIP(SkipOp::SKNP(x)),
            _ => OpCode::Unknown(opcode),
        }
    } else {
        match kk {
            0x07 => OpCode::LD(LoadOp::LDVXDT(x)),
            0x0A => OpCode::LD(LoadOp::LDKEY(x)),
            0x15 => OpCode::LD(LoadOp::LDDTVX(x)),
            0x18 => OpCode::LD(LoadOp::LDSTVX(x)),
            0x1E => OpCode::ADD(AddOp::ADDI(x)),
            0x29 => OpCode::LD(LoadOp::LDF(x)),
            0x33 => OpCode::LD(LoadOp::LDB(x)),
            0x55 => OpCode::LD(LoadOp::LDIV0X(x)),
            0x65 => OpCode::LD(LoadOp::LDV0XI(x)),
            _ => OpCode::Unknown(opcode),
        }
    }
}

} // verus!
