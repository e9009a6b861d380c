//! The add family: `7xkk`, `8xy4`, `Fx1E`.
use vstd::prelude::*;

use crate::opcode::{AddOp, OpCode};
use crate::state::{State, StateView, FLAG};
use super::completed;

verus! {

/// The state after the add `op`, with `pc` as the next instruction.
pub open spec fn add_spec(s: StateView, op: AddOp, pc: u16) -> StateView {
    let done = completed(s, OpCode::ADD(op), pc);
    match op {
        AddOp::ADD(x, kk) => StateView {
            registers: s.registers.update(x as int, ((s.registers[x as int] + kk) % 256) as u8),
            ..done
        },
        AddOp::ADDREG(x, y) => {
            let sum = s.registers[x as int] + s.registers[y as int];
            StateView {
                registers: s.registers.update(FLAG as int, if sum > 255 { 1u8 } else { 0u8 }).update(
                    x as int,
                    (sum % 256) as u8,
                ),
                ..done
            }
        },
        AddOp::ADDI(x) => StateView { i: ((s.i + s.registers[x as int]) % 65536) as u16, ..done },
    }
}

/// `Vx = Vx + kk`, wrapping; `VF` is not touched.
fn add_to_vx(state: State, vx: u8, kk: u8, pc: u16) -> (r: State)
    requires
        vx < 16,
    ensures
        r@ == add_spec(state@, AddOp::ADD(vx, kk), pc),
{
    let mut registers = state.registers;
    let x = registers[vx as usize];
    let val = x.wrapping_add(kk);
    registers[vx as usize] = val;

    State { last_opcode: OpCode::ADD(AddOp::ADD(vx, kk)), opcode: None, registers, pc, ..state }
}

/// `Vx = Vx + Vy`, wrapping; `VF` is 1 exactly when the sum exceeded a byte.
fn add_vy_to_vx(state: State, vx: u8, vy: u8, pc: u16) -> (r: State)
    requires
        vx < 16,
        vy < 16,
    ensures
        r@ == add_spec(state@, AddOp::ADDREG(vx, vy), pc),
{
    let mut registers = state.registers;
    let x = registers[vx as usize];
    let y = registers[vy as usize];
    let carry = x as u16 + y as u16 > 255;
    let result = x.wrapping_add(y);

    registers[FLAG] = if carry {
        1
    } else {
        0
    };
    registers[vx as usize] = result;

    State {
        last_opcode: OpCode::ADD(AddOp::ADDREG(vx, vy)),
        opcode: None,
        pc,
        registers,
        ..state
    }
}

/// `I = I + Vx`, wrapping.
fn add_vx_to_i(state: State, vx: u8, pc: u16) -> (r: State)
    requires
        vx < 16,
    ensures
        r@ == add_spec(state@, AddOp::ADDI(vx), pc),
{
    let x = state.registers[vx as usize];
    let i = state.i.wrapping_add(x as u16);

    State { last_opcode: OpCode::ADD(AddOp::ADDI(vx)), opcode: None, pc, i, ..state }
}

/// Executes an instruction of the add family; `pc` is the address of the next
/// instruction.
pub fn handle_add_op(state: State, op: AddOp, pc: u16) -> (r: State)
    requires
        op.wf(),
    ensures
        r@ == add_spec(state@, op, pc),
{
    match op {
        AddOp::ADD(vx, kk) => add_to_vx(state, vx, kk, pc),
        AddOp::ADDREG(vx, vy) => add_vy_to_vx(state, vx, vy, pc),
        AddOp::ADDI(vx) => add_vx_to_i(state, vx, pc),
    }
}

} // verus!
