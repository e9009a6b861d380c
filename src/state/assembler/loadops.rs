//! The load family: register, index, timer, key, font, decimal and bulk
//! register/memory transfers.
use vstd::prelude::*;

use crate::memory::{write_range, Memory, MEMORY_SIZE};
use crate::opcode::{LoadOp, OpCode};
use crate::state::{State, StateView};
use super::completed;
use super::skipops::waiting;

verus! {

/// The number of font bytes per glyph.
pub const BYTES_PER_SPRITE: u16 = 5;

/// The decimal digits of `v`: hundreds, tens, units.
pub open spec fn bcd(v: u8) -> Seq<u8> {
    seq![(v / 100) as u8, ((v / 10) % 10) as u8, (v % 10) as u8]
}

/// The load `op` keeps its memory accesses inside memory.
pub open spec fn load_in_range(s: StateView, op: LoadOp) -> bool {
    match op {
        LoadOp::LDB(_) => s.i + 2 < MEMORY_SIZE,
        LoadOp::LDIV0X(x) => s.i + x < MEMORY_SIZE,
        LoadOp::LDV0XI(x) => s.i + x < MEMORY_SIZE,
        _ => true,
    }
}

/// The state after the load `op`, with `pc` as the next instruction, `mem` the
/// memory before it and `key` the key pressed, if any. `LDKEY` waits while no
/// key is pressed. The bulk transfers leave `I` unchanged.
pub open spec fn load_spec(s: StateView, op: LoadOp, pc: u16, mem: Seq<u8>, key: Option<u8>) -> StateView {
    let done = completed(s, OpCode::LD(op), pc);
    match op {
        LoadOp::LD(x, kk) => StateView { registers: s.registers.update(x as int, kk), ..done },
        LoadOp::LDI(nnn) => StateView { i: nnn, ..done },
        LoadOp::LDXY(x, y) => StateView {
            registers: s.registers.update(x as int, s.registers[y as int]),
            ..done
        },
        LoadOp::LDVXDT(x) => StateView {
            registers: s.registers.update(x as int, s.delay_timer),
            ..done
        },
        LoadOp::LDDTVX(x) => StateView { delay_timer: s.registers[x as int], ..done },
        LoadOp::LDKEY(x) => match key {
            None => waiting(s, OpCode::LD(op)),
            Some(k) => StateView { registers: s.registers.update(x as int, k), ..done },
        },
        LoadOp::LDSTVX(x) => StateView { sound_timer: s.registers[x as int], ..done },
        LoadOp::LDF(x) => StateView { i: (5 * s.registers[x as int]) as u16, ..done },
        LoadOp::LDB(_) => done,
        LoadOp::LDIV0X(_) => done,
        LoadOp::LDV0XI(x) => StateView {
            registers: Seq::new(
                16,
                |k: int|
                    if k <= x {
                        mem[s.i + k]
                    } else {
                        s.registers[k]
                    },
            ),
            ..done
        },
    }
}

/// Memory after the load `op`: the decimal digits of `Vx` at `I..I+3`, or
/// `V0..=Vx` from `I` on; the other loads leave it alone.
pub open spec fn load_memory_spec(s: StateView, op: LoadOp, mem: Seq<u8>) -> Seq<u8> {
    match op {
        LoadOp::LDB(x) => write_range(mem, s.i as int, bcd(s.registers[x as int])),
        LoadOp::LDIV0X(x) => write_range(mem, s.i as int, s.registers.take(x + 1)),
        _ => mem,
    }
}

/// `Vx = Vy`.
fn load_x_from_y(state: State, vx: u8, vy: u8, pc: u16) -> (r: State)
    requires
        vx < 16,
        vy < 16,
    ensures
        r@ == load_spec(state@, LoadOp::LDXY(vx, vy), pc, Seq::empty(), None),
{
    let mut registers = state.registers;
    registers[vx as usize] = registers[vy as usize];
    State { last_opcode: OpCode::LD(LoadOp::LDXY(vx, vy)), opcode: None, registers, pc, ..state }
}

/// `Vx = delay timer`.
fn load_delay_timer(state: State, vx: u8, pc: u16) -> (r: State)
    requires
        vx < 16,
    ensures
        r@ == load_spec(state@, LoadOp::LDVXDT(vx), pc, Seq::empty(), None),
{
    let mut registers = state.registers;
    registers[vx as usize] = state.delay_timer;
    State { last_opcode: OpCode::LD(LoadOp::LDVXDT(vx)), opcode: None, registers, pc, ..state }
}

/// `I = nnn`.
fn set_i(state: State, pc: u16, nnn: u16) -> (r: State)
    ensures
        r@ == load_spec(state@, LoadOp::LDI(nnn), pc, Seq::empty(), None),
{
    State { last_opcode: OpCode::LD(LoadOp::LDI(nnn)), opcode: None, i: nnn, pc, ..state }
}

/// `delay timer = Vx`.
fn set_delay_timer(state: State, vx: u8, pc: u16) -> (r: State)
    requires
        vx < 16,
    ensures
        r@ == load_spec(state@, LoadOp::LDDTVX(vx), pc, Seq::empty(), None),
{
    let delay = state.registers[vx as usize];
    State {
        delay_timer: delay,
        last_opcode: OpCode::LD(LoadOp::LDDTVX(vx)),
        opcode: None,
        pc,
        ..state
    }
}

/// Stores the pressed key in `Vx`, or, with no key, leaves the instruction
/// waiting and `pc` where it is.
fn handle_load_key(state: State, vx: u8, pc: u16, keycode: Option<u8>) -> (r: State)
    requires
        vx < 16,
    ensures
        r@ == load_spec(state@, LoadOp::LDKEY(vx), pc, Seq::empty(), keycode),
{
    match keycode {
        None => State {
            opcode: Some(OpCode::LD(LoadOp::LDKEY(vx))),
            last_opcode: OpCode::LD(LoadOp::LDKEY(vx)),
            ..state
        },
        Some(key_press) => {
            let mut registers = state.registers;
            registers[vx as usize] = key_press;
            State {
                opcode: None,
                last_opcode: OpCode::LD(LoadOp::LDKEY(vx)),
                pc,
                registers,
                ..state
            }
        },
    }
}

/// `sound timer = Vx`.
fn set_sound_timer(state: State, vx: u8, pc: u16) -> (r: State)
    requires
        vx < 16,
    ensures
        r@ == load_spec(state@, LoadOp::LDSTVX(vx), pc, Seq::empty(), None),
{
    let sound_timer = state.registers[vx as usize];
    State { last_opcode: OpCode::LD(LoadOp::LDSTVX(vx)), opcode: None, pc, sound_timer, ..state }
}

/// `I` = the address of the font glyph for the digit in `Vx`.
fn load_sprite(state: State, vx: u8, pc: u16) -> (r: State)
    requires
        vx < 16,
    ensures
        r@ == load_spec(state@, LoadOp::LDF(vx), pc, Seq::empty(), None),
{
    let sprite = state.registers[vx as usize] as u16;
    let i = BYTES_PER_SPRITE * sprite;
    State { last_opcode: OpCode::LD(LoadOp::LDF(vx)), opcode: None, pc, i, ..state }
}

/// Stores the hundreds, tens and units of `Vx` at `I`, `I+1` and `I+2`.
fn handle_bcd_representation(state: State, memory: &mut Memory, pc: u16, vx: u8) -> (r: State)
    requires
        vx < 16,
        old(memory).wf(),
        state.i + 2 < MEMORY_SIZE,
    ensures
        r@ == load_spec(state@, LoadOp::LDB(vx), pc, old(memory)@, None),
        final(memory)@ == load_memory_spec(state@, LoadOp::LDB(vx), old(memory)@),
        final(memory).wf(),
{
    let val = state.registers[vx as usize];
    let hundreds = val / 100;
    let tens = (val / 10) % 10;
    let units = val % 10;
    let i = state.i;

    memory.set(i as usize, hundreds);
    memory.set((i + 1) as usize, tens);
    memory.set((i + 2) as usize, units);
    assert(memory@ =~= write_range(old(memory)@, i as int, bcd(val)));

    State { last_opcode: OpCode::LD(LoadOp::LDB(vx)), opcode: None, pc, ..state }
}

/// Stores `V0..=Vx` in memory from `I` on; `I` is unchanged.
fn load_from_registers(state: State, memory: &mut Memory, vx: u8, pc: u16) -> (r: State)
    requires
        vx < 16,
        old(memory).wf(),
        state.i + vx < MEMORY_SIZE,
    ensures
        r@ == load_spec(state@, LoadOp::LDIV0X(vx), pc, old(memory)@, None),
        final(memory)@ == load_memory_spec(state@, LoadOp::LDIV0X(vx), old(memory)@),
        final(memory).wf(),
{
    let registers = state.registers;
    let i = state.i;
    let mut v: u16 = 0;
    while v <= vx as u16
        invariant
            vx < 16,
            i + vx < MEMORY_SIZE,
            v <= vx + 1,
            memory.wf(),
            memory@ == write_range(old(memory)@, i as int, registers@.take(v as int)),
        decreases vx + 1 - v,
    {
        let val = registers[v as usize];
        let addr = i + v;
        memory.set(addr as usize, val);
        assert(memory@ =~= write_range(old(memory)@, i as int, registers@.take(v + 1)));
        v = v + 1;
    }

    State { last_opcode: OpCode::LD(LoadOp::LDIV0X(vx)), opcode: None, pc, ..state }
}

/// `Vx = kk`.
fn set_register(state: State, pc: u16, vx: u8, kk: u8) -> (r: State)
    requires
        vx < 16,
    ensures
        r@ == load_spec(state@, LoadOp::LD(vx, kk), pc, Seq::empty(), None),
{
    let mut registers = state.registers;
    registers[vx as usize] = kk;
    State { last_opcode: OpCode::LD(LoadOp::LD(vx, kk)), opcode: None, registers, pc, ..state }
}

/// Reads `V0..=Vx` from memory at `I` on; `I` is unchanged.
fn set_registers(state: State, pc: u16, vx: u8, memory: &Memory) -> (r: State)
    requires
        vx < 16,
        memory.wf(),
        state.i + vx < MEMORY_SIZE,
    ensures
        r@ == load_spec(state@, LoadOp::LDV0XI(vx), pc, memory@, None),
{
    let mut registers = state.registers;
    let i = state.i;
    let mut v: u16 = 0;
    while v <= vx as u16
        invariant
            vx < 16,
            i + vx < MEMORY_SIZE,
            v <= vx + 1,
            memory.wf(),
            registers@.len() == 16,
            forall|k: int|
                0 <= k < 16 ==> #[trigger] registers@[k] == if k < v {
                    memory@[i + k]
                } else {
                    state.registers@[k]
                },
        decreases vx + 1 - v,
    {
        let addr = i + v;
        let val = memory.read(addr);
        registers[v as usize] = val;
        v = v + 1;
    }
    let r = State {
        registers,
        pc,
        last_opcode: OpCode::LD(LoadOp::LDV0XI(vx)),
        opcode: None,
        ..state
    };
    assert(r@.registers =~= load_spec(state@, LoadOp::LDV0XI(vx), pc, memory@, None).registers);
    r
}

/// Executes an instruction of the load family; `pc` is the address of the next
/// instruction and `keycode` the key pressed, if any.
pub fn handle_load_operands(
    state: State,
    load_op: LoadOp,
    pc: u16,
    memory: &mut Memory,
    keycode: Option<u8>,
) -> (r: State)
    requires
        load_op.wf(),
        old(memory).wf(),
        load_in_range(state@, load_op),
    ensures
        r@ == load_spec(state@, load_op, pc, old(memory)@, keycode),
        final(memory)@ == load_memory_spec(state@, load_op, old(memory)@),
        final(memory).wf(),
{
    match load_op {
        LoadOp::LD(vx, kk) => set_register(state, pc, vx, kk),
        LoadOp::LDV0XI(vx) => set_registers(state, pc, vx, memory),
        LoadOp::LDIV0X(vx) => load_from_registers(state, memory, vx, pc),
        LoadOp::LDB(vx) => handle_bcd_representation(state, memory, pc, vx),
        LoadOp::LDF(vx) => load_sprite(state, vx, pc),
        LoadOp::LDSTVX(vx) => set_sound_timer(state, vx, pc),
        LoadOp::LDKEY(vx) => handle_load_key(state, vx, pc, keycode),
        LoadOp::LDDTVX(vx) => set_delay_timer(state, vx, pc),
        LoadOp::LDI(nnn) => set_i(state, pc, nnn),
        LoadOp::LDVXDT(vx) => load_delay_timer(state, vx, pc),
        LoadOp::LDXY(vx, vy) => load_x_from_y(state, vx, vy, pc),
    }
}

} // verus!
