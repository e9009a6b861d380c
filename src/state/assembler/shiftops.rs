//! The shift family: `8xy6`, `8xyE`.
use vstd::prelude::*;

use crate::opcode::{OpCode, ShiftOp};
use crate::state::{State, StateView, FLAG};
use super::completed;

verus! {

/// The state after the shift `op`, with `pc` as the next instruction. `VF`
/// receives the bit shifted out of the value before the shift, then `Vx` the result.
pub open spec fn shift_spec(s: StateView, op: ShiftOp, pc: u16) -> StateView {
    let done = completed(s, OpCode::SHIFT(op), pc);
    match op {
        ShiftOp::SHR(x) => {
            let v = s.registers[x as int];
            StateView {
                registers: s.registers.update(FLAG as int, v % 2).update(x as int, v / 2),
                ..done
            }
        },
        ShiftOp::SHL(x) => {
            let v = s.registers[x as int];
            StateView {
                registers: s.registers.update(FLAG as int, v / 128).update(
                    x as int,
                    ((v * 2) % 256) as u8,
                ),
                ..done
            }
        },
    }
}

/// `VF` = the top bit of `Vx`, then `Vx = Vx << 1`.
fn handle_shift_left(state: State, pc: u16, vx: u8) -> (r: State)
    requires
        vx < 16,
    ensures
        r@ == shift_spec(state@, ShiftOp::SHL(vx), pc),
{
    let mut registers = state.registers;
    let v = registers[vx as usize];
    let msb = v >> 7u8;
    let x = v << 1u8;
    assert(msb == v / 128 && x == (v * 2) % 256) by (bit_vector)
        requires
            msb == v >> 7u8,
            x == v << 1u8,
    ;
    registers[FLAG] = msb;
    registers[vx as usize] = x;

    State { last_opcode: OpCode::SHIFT(ShiftOp::SHL(vx)), opcode: None, pc, registers, ..state }
}

/// `VF` = the bottom bit of `Vx`, then `Vx = Vx >> 1`.
fn handle_shift_right(state: State, pc: u16, vx: u8) -> (r: State)
    requires
        vx < 16,
    ensures
        r@ == shift_spec(state@, ShiftOp::SHR(vx), pc),
{
    let mut registers = state.registers;
    let v = registers[vx as usize];
    let lsb = v & 0x01u8;
    let x = v >> 1u8;
    assert(lsb == v % 2 && x == v / 2) by (bit_vector)
        requires
            lsb == v & 0x01u8,
            x == v >> 1u8,
    ;
    registers[FLAG] = lsb;
    registers[vx as usize] = x;

    State { last_opcode: OpCode::SHIFT(ShiftOp::SHR(vx)), opcode: None, pc, registers, ..state }
}

/// Executes a shift; `pc` is the address of the next instruction.
pub fn handle_shift_op(state: State, pc: u16, op: ShiftOp) -> (r: State)
    requires
        op.wf(),
    ensures
        r@ == shift_spec(state@, op, pc),
{
    match op {
        ShiftOp::SHL(vx) => handle_shift_left(state, pc, vx),
        ShiftOp::SHR(vx) => handle_shift_right(state, pc, vx),
    }
}

} // verus!
