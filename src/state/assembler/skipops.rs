//! The conditional-skip family: `3xkk`, `4xkk`, `5xy0`, `9xy0`, `Ex9E`, `ExA1`.
use vstd::prelude::*;

use crate::opcode::{OpCode, SkipOp};
use crate::state::{State, StateView};
use super::completed;

verus! {

/// `s` with the key-waiting instruction `op` left pending: `pc` stays where it is.
pub open spec fn waiting(s: StateView, op: OpCode) -> StateView {
    StateView { opcode: Some(op), last_opcode: op, ..s }
}

/// The state after the skip `op`, with `pc` as the next instruction and `key`
/// the key pressed, if any. The key forms wait while no key is pressed.
pub open spec fn skip_spec(s: StateView, op: SkipOp, pc: u16, key: Option<u8>) -> StateView {
    let done = completed(s, OpCode::SKIP(op), pc);
    let skipped = completed(s, OpCode::SKIP(op), (pc + 2) as u16);
    match op {
        SkipOp::SE(x, kk) => if s.registers[x as int] == kk {
            skipped
        } else {
            done
        },
        SkipOp::SNE(x, kk) => if s.registers[x as int] != kk {
            skipped
        } else {
            done
        },
        SkipOp::SEXY(x, y) => if s.registers[x as int] == s.registers[y as int] {
            skipped
        } else {
            done
        },
        SkipOp::SNEXY(x, y) => if s.registers[x as int] != s.registers[y as int] {
            skipped
        } else {
            done
        },
        SkipOp::SKP(x) => match key {
            None => waiting(s, OpCode::SKIP(op)),
            Some(k) => if s.registers[x as int] == k {
                skipped
            } else {
                done
            },
        },
        SkipOp::SKNP(x) => match key {
            None => waiting(s, OpCode::SKIP(op)),
            Some(k) => if s.registers[x as int] != k {
                skipped
            } else {
                done
            },
        },
    }
}

/// Skips if `Vx == kk`.
fn handle_skip_if_equal(state: State, vx: u8, kk: u8, pc: u16) -> (r: State)
    requires
        vx < 16,
        pc + 2 <= u16::MAX,
    ensures
        r@ == skip_spec(state@, SkipOp::SE(vx, kk), pc, None),
{
    let x = state.registers[vx as usize];
    let mut pc = pc;
    if x == kk {
        pc += 2;
    }
    State { last_opcode: OpCode::SKIP(SkipOp::SE(vx, kk)), opcode: None, pc, ..state }
}

/// Skips if `Vx != kk`.
fn handle_skip_if_not_equal(state: State, vx: u8, kk: u8, pc: u16) -> (r: State)
    requires
        vx < 16,
        pc + 2 <= u16::MAX,
    ensures
        r@ == skip_spec(state@, SkipOp::SNE(vx, kk), pc, None),
{
    let x = state.registers[vx as usize];
    let mut pc = pc;
    if x != kk {
        pc += 2;
    }
    State { pc, last_opcode: OpCode::SKIP(SkipOp::SNE(vx, kk)), opcode: None, ..state }
}

/// Skips if `Vx == Vy`.
fn handle_skip_if_registers_equal(state: State, vx: u8, vy: u8, pc: u16) -> (r: State)
    requires
        vx < 16,
        vy < 16,
        pc + 2 <= u16::MAX,
    ensures
        r@ == skip_spec(state@, SkipOp::SEXY(vx, vy), pc, None),
{
    let x = state.registers[vx as usize];
    let y = state.registers[vy as usize];
    let mut pc = pc;
    if x == y {
        pc += 2;
    }
    State { last_opcode: OpCode::SKIP(SkipOp::SEXY(vx, vy)), opcode: None, pc, ..state }
}

/// Skips if `Vx != Vy`.
fn handle_skip_if_registers_not_equal(state: State, vx: u8, vy: u8, pc: u16) -> (r: State)
    requires
        vx < 16,
        vy < 16,
        pc + 2 <= u16::MAX,
    ensures
        r@ == skip_spec(state@, SkipOp::SNEXY(vx, vy), pc, None),
{
    let x = state.registers[vx as usize];
    let y = state.registers[vy as usize];
    let mut pc = pc;
    if x != y {
        pc += 2;
    }
    State { last_opcode: OpCode::SKIP(SkipOp::SNEXY(vx, vy)), opcode: None, pc, ..state }
}

/// Waits for a key, then skips if it equals `Vx`.
fn handle_skip_on_keyboard(state: State, keycode: Option<u8>, vx: u8, pc: u16) -> (r: State)
    requires
        vx < 16,
        pc + 2 <= u16::MAX,
    ensures
        r@ == skip_spec(state@, SkipOp::SKP(vx), pc, keycode),
{
    let value = state.registers[vx as usize];
    match keycode {
        None => State {
            opcode: Some(OpCode::SKIP(SkipOp::SKP(vx))),
            last_opcode: OpCode::SKIP(SkipOp::SKP(vx)),
            ..state
        },
        Some(code) => {
            let mut pc = pc;
            if value == code {
                pc += 2;
            }
            State { last_opcode: OpCode::SKIP(SkipOp::SKP(vx)), opcode: None, pc, ..state }
        },
    }
}

/// Waits for a key, then skips if it differs from `Vx`.
fn handle_skip_on_keyboard_up(state: State, keycode: Option<u8>, vx: u8, pc: u16) -> (r: State)
    requires
        vx < 16,
        pc + 2 <= u16::MAX,
    ensures
        r@ == skip_spec(state@, SkipOp::SKNP(vx), pc, keycode),
{
    let value = state.registers[vx as usize];
    match keycode {
        None => State {
            opcode: Some(OpCode::SKIP(SkipOp::SKNP(vx))),
            last_opcode: OpCode::SKIP(SkipOp::SKNP(vx)),
            ..state
        },
        Some(code) => {
            let mut pc = pc;
            if value != code {
                pc += 2;
            }
            State { last_opcode: OpCode::SKIP(SkipOp::SKNP(vx)), opcode: None, pc, ..state }
        },
    }
}

/// Executes an instruction of the skip family; `pc` is the address of the next
/// instruction and `keycode` the key pressed, if any.
pub fn handle_skip_ops(state: State, op: SkipOp, pc: u16, keycode: Option<u8>) -> (r: State)
    requires
        op.wf(),
        pc + 2 <= u16::MAX,
    ensures
        r@ == skip_spec(state@, op, pc, keycode),
{
    match op {
        SkipOp::SE(vx, kk) => handle_skip_if_equal(state, vx, kk, pc),
        SkipOp::SNE(vx, kk) => handle_skip_if_not_equal(state, vx, kk, pc),
        SkipOp::SEXY(vx, vy) => handle_skip_if_registers_equal(state, vx, vy, pc),
        SkipOp::SNEXY(vx, vy) => handle_skip_if_registers_not_equal(state, vx, vy, pc),
        SkipOp::SKP(vx) => handle_skip_on_keyboard(state, keycode, vx, pc),
        SkipOp::SKNP(vx) => handle_skip_on_keyboard_up(state, keycode, vx, pc),
    }
}

} // verus!
