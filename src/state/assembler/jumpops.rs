//! The jump family: `1nnn`, `Bnnn`.
use vstd::prelude::*;

use crate::opcode::{JumpOp, OpCode};
use crate::state::{State, StateView};
use super::completed;

verus! {

/// The state after the jump `op`.
pub open spec fn jump_spec(s: StateView, op: JumpOp) -> StateView {
    match op {
        JumpOp::JP(nnn) => completed(s, OpCode::JP(op), nnn),
        JumpOp::JPV0(nnn) => completed(s, OpCode::JP(op), (nnn + s.registers[0]) as u16),
    }
}

/// `PC = nnn + V0`.
fn handle_jump_from_v0(state: State, nnn: u16) -> (r: State)
    requires
        nnn <= 0x0FFF,
    ensures
        r@ == jump_spec(state@, JumpOp::JPV0(nnn)),
{
    let v0 = state.registers[0] as u16;
    State { last_opcode: OpCode::JP(JumpOp::JPV0(nnn)), opcode: None, pc: nnn + v0, ..state }
}

/// Executes a jump.
pub fn handle_jump_ops(state: State, op: JumpOp) -> (r: State)
    requires
        op.wf(),
    ensures
        r@ == jump_spec(state@, op),
{
    match op {
        JumpOp::JP(nnn) => State {
            pc: nnn,
            last_opcode: OpCode::JP(JumpOp::JP(nnn)),
            opcode: None,
            ..state
        },
        JumpOp::JPV0(nnn) => handle_jump_from_v0(state, nnn),
    }
}

} // verus!
