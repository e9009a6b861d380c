//! The decoded form of a 16-bit instruction word.
use vstd::prelude::*;

pub mod parser;

verus! {

/// A location in memory: the low twelve bits of an instruction.
pub type Location = u16;

/// The index of a general-purpose register `V0..VF`.
pub type Register = u8;

/// The highest address that a twelve-bit field can name.
pub const MAX_LOCATION: u16 = 0x0FFF;

/// The number of general-purpose registers.
pub const REGISTER_COUNT: u8 = 16;

/// Every instruction known to the interpreter.
///
/// Operands follow the usual naming: `nnn` is the low twelve bits of the word,
/// `x` the low nibble of the high byte, `y` the high nibble of the low byte,
/// `n` the lowest nibble and `kk` the low byte.
#[derive(Debug, Clone, Copy, PartialEq, Eq, Structural)]
pub enum OpCode {
    /// A word that names no instruction; executing it is fatal.
    Unknown(u16),
    /// `00E0`: clear the screen.
    CLS,
    /// `00EE`: return from a subroutine.
    RET,
    /// The load family.
    LD(LoadOp),
    /// The jump family.
    JP(JumpOp),
    /// `2nnn`: call the subroutine at `nnn`.
    CALL(Location),
    /// The conditional-skip family.
    SKIP(SkipOp),
    /// The add family.
    ADD(AddOp),
    /// `8xy5`: `Vx = Vx - Vy`, `VF = Vx > Vy`.
    SUB(Register, Register),
    /// `8xy7`: `Vx = Vy - Vx`, `VF = Vy > Vx`.
    SUBN(Register, Register),
    /// `Cxkk`: `Vx = random byte AND kk`.
    RND(Register, u8),
    /// `Dxyn`: draw the `n`-byte sprite at `I` at `(Vx, Vy)`, `VF = collision`.
    DRW(Register, Register, u8),
    /// `8xy1`: `Vx = Vx OR Vy`.
    OR(Register, Register),
    /// `8xy2`: `Vx = Vx AND Vy`.
    AND(Register, Register),
    /// `8xy3`: `Vx = Vx XOR Vy`.
    XOR(Register, Register),
    /// The shift family.
    SHIFT(ShiftOp),
}

/// Shifts by one bit; `VF` receives the bit shifted out.
#[derive(Debug, Clone, Copy, PartialEq, Eq, Structural)]
pub enum ShiftOp {
    /// `8xy6`: `VF = Vx & 1`, then `Vx = Vx >> 1`.
    SHR(Register),
    /// `8xyE`: `VF = Vx >> 7`, then `Vx = Vx << 1`.
    SHL(Register),
}

/// Additions; all of them wrap.
#[derive(Debug, Clone, Copy, PartialEq, Eq, Structural)]
pub enum AddOp {
    /// `7xkk`: `Vx = Vx + kk`, `VF` untouched.
    ADD(Register, u8),
    /// `8xy4`: `Vx = Vx + Vy`, `VF = carry`.
    ADDREG(Register, Register),
    /// `Fx1E`: `I = I + Vx`.
    ADDI(Register),
}

/// Conditional skips over the next instruction.
#[derive(Debug, Clone, Copy, PartialEq, Eq, Structural)]
pub enum SkipOp {
    /// `3xkk`: skip if `Vx == kk`.
    SE(Register, u8),
    /// `4xkk`: skip if `Vx != kk`.
    SNE(Register, u8),
    /// `5xy0`: skip if `Vx == Vy`.
    SEXY(Register, Register),
    /// `9xy0`: skip if `Vx != Vy`.
    SNEXY(Register, Register),
    /// `Ex9E`: wait for a key, skip if it equals `Vx`.
    SKP(Register),
    /// `ExA1`: wait for a key, skip if it differs from `Vx`.
    SKNP(Register),
}

/// Jumps.
#[derive(Debug, Clone, Copy, PartialEq, Eq, Structural)]
pub enum JumpOp {
    /// `1nnn`: `PC = nnn`.
    JP(Location),
    /// `Bnnn`: `PC = nnn + V0`.
    JPV0(u16),
}

/// Loads and stores.
#[derive(Debug, Clone, Copy, PartialEq, Eq, Structural)]
pub enum LoadOp {
    /// `6xkk`: `Vx = kk`.
    LD(Register, u8),
    /// `Annn`: `I = nnn`.
    LDI(u16),
    /// `8xy0`: `Vx = Vy`.
    LDXY(Register, Register),
    /// `Fx07`: `Vx = delay timer`.
    LDVXDT(Register),
    /// `Fx15`: `delay timer = Vx`.
    LDDTVX(Register),
    /// `Fx0A`: wait for a key and store it in `Vx`.
    LDKEY(Register),
    /// `Fx18`: `sound timer = Vx`.
    LDSTVX(Register),
    /// `Fx29`: `I = address of the font glyph for the digit in Vx`.
    LDF(Register),
    /// `Fx33`: store the decimal digits of `Vx` at `I`, `I+1`, `I+2`.
    LDB(Register),
    /// `Fx55`: store `V0..=Vx` in memory from `I`.
    LDIV0X(Register),
    /// `Fx65`: read `V0..=Vx` from memory at `I`.
    LDV0XI(Register),
}

/// A register index names one of the sixteen registers.
pub open spec fn reg_ok(r: Register) -> bool {
    r < REGISTER_COUNT
}

/// An address operand fits in twelve bits.
pub open spec fn loc_ok(l: u16) -> bool {
    l <= MAX_LOCATION
}

impl ShiftOp {
    /// Every operand is in range.
    pub open spec fn wf(self) -> bool {
        match self {
            ShiftOp::SHR(x) => reg_ok(x),
            ShiftOp::SHL(x) => reg_ok(x),
        }
    }
}

impl AddOp {
    /// Every operand is in range.
    pub open spec fn wf(self) -> bool {
        match self {
            AddOp::ADD(x, _) => reg_ok(x),
            AddOp::ADDREG(x, y) => reg_ok(x) && reg_ok(y),
            AddOp::ADDI(x) => reg_ok(x),
        }
    }
}

impl SkipOp {
    /// Every operand is in range.
    pub open spec fn wf(self) -> bool {
        match self {
            SkipOp::SE(x, _) => reg_ok(x),
            SkipOp::SNE(x, _) => reg_ok(x),
            SkipOp::SEXY(x, y) => reg_ok(x) && reg_ok(y),
            SkipOp::SNEXY(x, y) => reg_ok(x) && reg_ok(y),
            SkipOp::SKP(x) => reg_ok(x),
            SkipOp::SKNP(x) => reg_ok(x),
        }
    }
}

impl JumpOp {
    /// Every operand is in range.
    pub open spec fn wf(self) -> bool {
        match self {
            JumpOp::JP(nnn) => loc_ok(nnn),
            JumpOp::JPV0(nnn) => loc_ok(nnn),
        }
    }
}

impl LoadOp {
    /// Every operand is in range.
    pub open spec fn wf(self) -> bool {
        match self {
            LoadOp::LD(x, _) => reg_ok(x),
            LoadOp::LDI(nnn) => loc_ok(nnn),
            LoadOp::LDXY(x, y) => reg_ok(x) && reg_ok(y),
            LoadOp::LDVXDT(x) => reg_ok(x),
            LoadOp::LDDTVX(x) => reg_ok(x),
            LoadOp::LDKEY(x) => reg_ok(x),
            LoadOp::LDSTVX(x) => reg_ok(x),
            LoadOp::LDF(x) => reg_ok(x),
            LoadOp::LDB(x) => reg_ok(x),
            LoadOp::LDIV0X(x) => reg_ok(x),
            LoadOp::LDV0XI(x) => reg_ok(x),
        }
    }
}

/// Whether `r` names one of the sixteen registers.
fn check_reg(r: Register) -> (b: bool)
    ensures
        b == reg_ok(r),
{
    r < REGISTER_COUNT
}

impl ShiftOp {
    /// Whether every operand is in range.
    pub fn is_wf(&self) -> (r: bool)
        ensures
            r == self.wf(),
    {
        match self {
            ShiftOp::SHR(x) => check_reg(*x),
            ShiftOp::SHL(x) => check_reg(*x),
        }
    }
}

impl AddOp {
    /// Whether every operand is in range.
    pub fn is_wf(&self) -> (r: bool)
        ensures
            r == self.wf(),
    {
        match self {
            AddOp::ADD(x, _) => check_reg(*x),
            AddOp::ADDREG(x, y) => check_reg(*x) && check_reg(*y),
            AddOp::ADDI(x) => check_reg(*x),
        }
    }
}

impl SkipOp {
    /// Whether every operand is in range.
    pub fn is_wf(&self) -> (r: bool)
        ensures
            r == self.wf(),
    {
        match self {
            SkipOp::SE(x, _) => check_reg(*x),
            SkipOp::SNE(x, _) => check_reg(*x),
            SkipOp::SEXY(x, y) => check_reg(*x) && check_reg(*y),
            SkipOp::SNEXY(x, y) => check_reg(*x) && check_reg(*y),
            SkipOp::SKP(x) => check_reg(*x),
            SkipOp::SKNP(x) => check_reg(*x),
        }
    }
}

impl JumpOp {
    /// Whether every operand is in range.
    pub fn is_wf(&self) -> (r: bool)
        ensures
            r == self.wf(),
    {
        match self {
            JumpOp::JP(nnn) => *nnn <= MAX_LOCATION,
            JumpOp::JPV0(nnn) => *nnn <= MAX_LOCATION,
        }
    }
}

impl LoadOp {
    /// Whether every operand is in range.
    pub fn is_wf(&self) -> (r: bool)
        ensures
            r == self.wf(),
    {
        match self {
            LoadOp::LD(x, _) => check_reg(*x),
            LoadOp::LDI(nnn) => *nnn <= MAX_LOCATION,
            LoadOp::LDXY(x, y) => check_reg(*x) && check_reg(*y),
            LoadOp::LDVXDT(x) => check_reg(*x),
            LoadOp::LDDTVX(x) => check_reg(*x),
            LoadOp::LDKEY(x) => check_reg(*x),
            LoadOp::LDSTVX(x) => check_reg(*x),
            LoadOp::LDF(x) => check_reg(*x),
            LoadOp::LDB(x) => check_reg(*x),
            LoadOp::LDIV0X(x) => check_reg(*x),
            LoadOp::LDV0XI(x) => check_reg(*x),
        }
    }
}

impl OpCode {
    /// Whether every operand is in range.
    pub fn is_wf(&self) -> (r: bool)
        ensures
            r == self.wf(),
    {
        match self {
            OpCode::Unknown(_) => true,
            OpCode::CLS => true,
            OpCode::RET => true,
            OpCode::LD(op) => op.is_wf(),
            OpCode::JP(op) => op.is_wf(),
            OpCode::CALL(nnn) => *nnn <= MAX_LOCATION,
            OpCode::SKIP(op) => op.is_wf(),
            OpCode::ADD(op) => op.is_wf(),
            OpCode::SUB(x, y) => check_reg(*x) && check_reg(*y),
            OpCode::SUBN(x, y) => check_reg(*x) && check_reg(*y),
            OpCode::RND(x, _) => check_reg(*x),
            OpCode::DRW(x, y, n) => check_reg(*x) && check_reg(*y) && *n < 16,
            OpCode::OR(x, y) => check_reg(*x) && check_reg(*y),
            OpCode::AND(x, y) => check_reg(*x) && check_reg(*y),
            OpCode::XOR(x, y) => check_reg(*x) && check_reg(*y),
            OpCode::SHIFT(op) => op.is_wf(),
        }
    }

    /// Every operand is in range: register indices below sixteen, addresses
    /// within twelve bits, sprite heights within a nibble.
    pub open spec fn wf(self) -> bool {
        match self {
            OpCode::Unknown(_) => true,
            OpCode::CLS => true,
            OpCode::RET => true,
            OpCode::LD(op) => op.wf(),
            OpCode::JP(op) => op.wf(),
            OpCode::CALL(nnn) => loc_ok(nnn),
            OpCode::SKIP(op) => op.wf(),
            OpCode::ADD(op) => op.wf(),
            OpCode::SUB(x, y) => reg_ok(x) && reg_ok(y),
            OpCode::SUBN(x, y) => reg_ok(x) && reg_ok(y),
            OpCode::RND(x, _) => reg_ok(x),
            OpCode::DRW(x, y, n) => reg_ok(x) && reg_ok(y) && n < 16,
            OpCode::OR(x, y) => reg_ok(x) && reg_ok(y),
            OpCode::AND(x, y) => reg_ok(x) && reg_ok(y),
            OpCode::XOR(x, y) => reg_ok(x) && reg_ok(y),
            OpCode::SHIFT(op) => op.wf(),
        }
    }
}

} // verus!
