//! The interpreter's registers, stack, timers and flags, and the step that
//! advances them by one instruction.
use vstd::prelude::*;

use crate::memory::{Memory, MEMORY_SIZE};
use crate::opcode::parser::{decode, parse_opcode};
use crate::opcode::{LoadOp, OpCode};
use assembler::{assemble, execute, execute_memory, execute_screen, execute_spec};

pub mod assembler;

verus! {

/// The depth of the call stack.
pub const STACK_DEPTH: u16 = 16;

/// The address at which execution starts.
pub const START_ADDRESS: u16 = 0x200;

/// The index of the flag register `VF`.
pub const FLAG: usize = 0xF;

/// The whole state of the interpreter between two steps.
///
/// A step does not change a `State` in place: it consumes one and returns the
/// next.
#[derive(Debug, Clone, Copy)]
pub struct State {
    /// Return addresses; the first `stack_pointer` entries are in use.
    pub stack: [u16; 16],
    /// The general-purpose registers `V0..VF`.
    pub registers: [u8; 16],
    /// Counts down towards zero at the timer rate.
    pub delay_timer: u8,
    /// Counts down towards zero at the timer rate.
    pub sound_timer: u8,
    /// The address of the next instruction.
    pub pc: u16,
    /// The number of return addresses on the stack.
    pub stack_pointer: u16,
    /// The index register `I`.
    pub i: u16,
    /// Set when the screen buffer changed and should be redrawn.
    pub draw_flag: bool,
    /// Cleared by the host to stop running.
    pub run_flag: bool,
    /// Set when the screen should be cleared.
    pub clear_flag: bool,
    /// The instruction executed or attempted last.
    pub last_opcode: OpCode,
    /// An instruction waiting for a key; while it is set, `pc` stays on it.
    pub opcode: Option<OpCode>,
    /// The width of the screen in pixels.
    pub width: u32,
    /// The height of the screen in pixels.
    pub height: u32,
}

/// The mathematical value of a [`State`]: the same fields, with the stack and
/// the registers as sequences.
pub struct StateView {
    pub stack: Seq<u16>,
    pub registers: Seq<u8>,
    pub delay_timer: u8,
    pub sound_timer: u8,
    pub pc: u16,
    pub stack_pointer: u16,
    pub i: u16,
    pub draw_flag: bool,
    pub run_flag: bool,
    pub clear_flag: bool,
    pub last_opcode: OpCode,
    pub opcode: Option<OpCode>,
    pub width: u32,
    pub height: u32,
}

impl View for State {
    type V = StateView;

    open spec fn view(&self) -> StateView {
        StateView {
            stack: self.stack@,
            registers: self.registers@,
            delay_timer: self.delay_timer,
            sound_timer: self.sound_timer,
            pc: self.pc,
            stack_pointer: self.stack_pointer,
            i: self.i,
            draw_flag: self.draw_flag,
            run_flag: self.run_flag,
            clear_flag: self.clear_flag,
            last_opcode: self.last_opcode,
            opcode: self.opcode,
            width: self.width,
            height: self.height,
        }
    }
}

/// The state of a freshly started interpreter with a `w` by `h` screen.
pub open spec fn initial_state(w: u32, h: u32) -> StateView {
    StateView {
        stack: Seq::new(16, |k: int| 0u16),
        registers: Seq::new(16, |k: int| 0u8),
        delay_timer: 0,
        sound_timer: 0,
        pc: START_ADDRESS,
        stack_pointer: 0,
        i: 0,
        draw_flag: true,
        run_flag: true,
        clear_flag: true,
        last_opcode: OpCode::Unknown(0),
        opcode: None,
        width: w,
        height: h,
    }
}

/// A timer after one timer tick: one less, but never below zero.
pub open spec fn tick_down(t: u8) -> u8 {
    if t > 0 {
        (t - 1) as u8
    } else {
        0
    }
}

/// The instruction that the next step executes: the waiting one if there is
/// one, else the one at `pc`.
pub open spec fn fetch(s: StateView, mem: Seq<u8>) -> OpCode {
    match s.opcode {
        Some(op) => op,
        None => decode(mem[s.pc as int], mem[s.pc + 1]),
    }
}

/// The screen holds a pixel for every coordinate.
pub open spec fn screen_fits(s: StateView, screen_len: int) -> bool {
    s.width > 0 && s.height > 0 && s.width * s.height <= screen_len
}

/// What executing `op` in state `s` needs, beyond a well-formed memory: operands
/// in range, a known instruction, room on the stack for a call and an entry to
/// return to, addresses inside memory and a screen that covers the display.
pub open spec fn can_execute(s: StateView, op: OpCode, screen_len: int) -> bool {
    &&& op.wf()
    &&& s.pc + 4 <= u16::MAX
    &&& s.stack_pointer <= STACK_DEPTH
    &&& match op {
        OpCode::Unknown(_) => false,
        OpCode::CALL(_) => s.stack_pointer < STACK_DEPTH,
        OpCode::RET => s.stack_pointer > 0,
        OpCode::LD(LoadOp::LDB(_)) => s.i + 2 < MEMORY_SIZE,
        OpCode::LD(LoadOp::LDIV0X(x)) => s.i + x < MEMORY_SIZE,
        OpCode::LD(LoadOp::LDV0XI(x)) => s.i + x < MEMORY_SIZE,
        OpCode::DRW(_, _, n) => s.i + n <= MEMORY_SIZE && screen_fits(s, screen_len),
        _ => true,
    }
}

/// The next step can run: the instruction can be fetched and executed.
pub open spec fn can_step(s: StateView, mem: Seq<u8>, screen_len: int) -> bool {
    &&& mem.len() == MEMORY_SIZE
    &&& (s.opcode is None ==> s.pc + 1 < MEMORY_SIZE)
    &&& can_execute(s, fetch(s, mem), screen_len)
}

/// The state after the next step, with `rnd` as the byte that `RND` uses.
pub open spec fn step_spec(s: StateView, mem: Seq<u8>, key: Option<u8>, rnd: u8, screen: Seq<u8>) -> StateView {
    execute_spec(s, fetch(s, mem), (s.pc + 2) as u16, mem, key, rnd, screen)
}

/// Memory after the next step.
pub open spec fn step_memory(s: StateView, mem: Seq<u8>) -> Seq<u8> {
    execute_memory(s, fetch(s, mem), mem)
}

/// The screen after the next step.
pub open spec fn step_screen(s: StateView, mem: Seq<u8>, screen: Seq<u8>) -> Seq<u8> {
    execute_screen(s, fetch(s, mem), mem, screen)
}

/// Why a step cannot run.
#[derive(Debug, Clone, Copy, PartialEq, Eq, Structural)]
pub enum Fault {
    /// The instruction word names no instruction.
    UnknownOpcode(u16),
    /// A call with all sixteen stack entries in use.
    StackOverflow,
    /// A return with an empty stack.
    StackUnderflow,
    /// The program counter or an access through `I` leaves memory.
    AddressOutOfRange,
    /// The screen buffer does not cover the display.
    DisplayTooSmall,
    /// A waiting instruction with an operand out of range.
    InvalidOperand,
}

/// The fault that `fault` reports for a state in which no step can run.
pub open spec fn fault_of(s: StateView, mem: Seq<u8>, screen_len: int) -> Fault {
    let op = fetch(s, mem);
    if s.opcode is None && s.pc + 1 >= MEMORY_SIZE {
        Fault::AddressOutOfRange
    } else if !op.wf() {
        Fault::InvalidOperand
    } else if s.pc + 4 > u16::MAX {
        Fault::AddressOutOfRange
    } else if s.stack_pointer > STACK_DEPTH {
        Fault::StackOverflow
    } else {
        match op {
            OpCode::Unknown(raw) => Fault::UnknownOpcode(raw),
            OpCode::CALL(_) => Fault::StackOverflow,
            OpCode::RET => Fault::StackUnderflow,
            OpCode::DRW(_, _, n) => if s.i + n <= MEMORY_SIZE {
                Fault::DisplayTooSmall
            } else {
                Fault::AddressOutOfRange
            },
            _ => Fault::AddressOutOfRange,
        }
    }
}

/// The delay timer of `state` after one timer tick.
pub fn delay_timer(state: &State) -> (r: u8)
    ensures
        r == tick_down(state.delay_timer),
{
    if state.delay_timer > 0 {
        state.delay_timer - 1
    } else {
        0
    }
}

/// The sound timer of `state` after one timer tick.
pub fn sound_timer(state: &State) -> (r: u8)
    ensures
        r == tick_down(state.sound_timer),
{
    if state.sound_timer > 0 {
        state.sound_timer - 1
    } else {
        0
    }
}

/// Reads and decodes the instruction at `pc`.
pub fn get_opcode(state: &State, memory: &Memory) -> (r: OpCode)
    requires
        memory.wf(),
        state.pc + 1 < MEMORY_SIZE,
    ensures
        r == decode(memory@[state.pc as int], memory@[state.pc + 1]),
        r.wf(),
{
    let pc = state.pc;
    let high = memory.read(pc);
    let low = memory.read(pc + 1);
    parse_opcode(high, low)
}

/// A key-wait instruction (`LDKEY`) waits for as long as no key is pressed: a
/// step without a key leaves `pc`, the registers, memory and the screen alone
/// and keeps the same instruction waiting, so that stepping again without a key
/// changes nothing more. The step that brings a key stores it in `Vx`, moves
/// `pc` on by 2 and leaves nothing waiting.
pub proof fn lemma_key_wait(s: StateView, mem: Seq<u8>, screen: Seq<u8>, x: u8, rnd: u8, key: u8)
    requires
        fetch(s, mem) == OpCode::LD(LoadOp::LDKEY(x)),
        can_step(s, mem, screen.len() as int),
    ensures
        step_spec(s, mem, None, rnd, screen).pc == s.pc,
        step_spec(s, mem, None, rnd, screen).registers == s.registers,
        step_spec(s, mem, None, rnd, screen).opcode == Some(OpCode::LD(LoadOp::LDKEY(x))),
        step_memory(s, mem) == mem,
        step_screen(s, mem, screen) == screen,
        can_step(step_spec(s, mem, None, rnd, screen), mem, screen.len() as int),
        step_spec(step_spec(s, mem, None, rnd, screen), mem, None, rnd, screen) == step_spec(
            s,
            mem,
            None,
            rnd,
            screen,
        ),
        step_spec(step_spec(s, mem, None, rnd, screen), mem, Some(key), rnd, screen).pc == s.pc + 2,
        step_spec(step_spec(s, mem, None, rnd, screen), mem, Some(key), rnd, screen).registers
            == s.registers.update(x as int, key),
        step_spec(step_spec(s, mem, None, rnd, screen), mem, Some(key), rnd, screen).opcode is None,
{
}

impl State {
    /// A freshly started interpreter with a `w` by `h` screen: everything zero,
    /// `pc` at the program start, both screen flags set.
    pub fn new(w: u32, h: u32) -> (r: State)
        ensures
            r@ == initial_state(w, h),
    {
        let r = State {
            stack: [0; 16],
            registers: [0; 16],
            delay_timer: 0,
            sound_timer: 0,
            pc: START_ADDRESS,
            stack_pointer: 0,
            i: 0,
            draw_flag: true,
            run_flag: true,
            clear_flag: true,
            last_opcode: OpCode::Unknown(0),
            opcode: None,
            width: w,
            height: h,
        };
        assert(r@.stack =~= initial_state(w, h).stack);
        assert(r@.registers =~= initial_state(w, h).registers);
        r
    }

    /// Runs one instruction: the waiting one if there is one, else the one at
    /// `pc`. `keycode` is the key pressed, if any, and `rnd` the byte that `RND`
    /// uses.
    pub fn step_with(self, memory: &mut Memory, keycode: Option<u8>, screen: &mut Vec<u8>, rnd: u8) -> (r: State)
        requires
            can_step(self@, old(memory)@, old(screen)@.len() as int),
            old(memory).wf(),
        ensures
            r@ == step_spec(self@, old(memory)@, keycode, rnd, old(screen)@),
            final(memory)@ == step_memory(self@, old(memory)@),
            final(memory).wf(),
            final(screen)@ == step_screen(self@, old(memory)@, old(screen)@),
    {
        let opcode = match self.opcode {
            None => get_opcode(&self, memory),
            Some(code) => code,
        };
        execute(self, memory, keycode, screen.as_mut_slice(), opcode, rnd)
    }

    /// Runs one instruction: the waiting one if there is one, else the one at
    /// `pc`. `keycode` is the key pressed, if any; `RND` draws its byte from the
    /// thread-local generator.
    pub fn step(self, memory: &mut Memory, keycode: Option<u8>, screen: &mut Vec<u8>) -> (r: State)
        requires
            can_step(self@, old(memory)@, old(screen)@.len() as int),
            old(memory).wf(),
        ensures
            exists|rnd: u8|
                r@ == #[trigger] step_spec(self@, old(memory)@, keycode, rnd, old(screen)@),
            !(fetch(self@, old(memory)@) is RND) ==> r@ == step_spec(
                self@,
                old(memory)@,
                keycode,
                0,
                old(screen)@,
            ),
            final(memory)@ == step_memory(self@, old(memory)@),
            final(memory).wf(),
            final(screen)@ == step_screen(self@, old(memory)@, old(screen)@),
    {
        let opcode = match self.opcode {
            None => get_opcode(&self, memory),
            Some(code) => code,
        };
        let ghost s = self@;
        let ghost mem = memory@;
        let ghost scr = screen@;
        let r = assemble(self, memory, keycode, screen.as_mut_slice(), opcode);
        proof {
            let rnd = choose|rnd: u8|
                r@ == #[trigger] execute_spec(s, opcode, (s.pc + 2) as u16, mem, keycode, rnd, scr);
            assert(r@ == step_spec(s, mem, keycode, rnd, scr));
        }
        r
    }

    /// Why the next step cannot run on `memory` with a screen of `screen_len`
    /// pixels, or `None` if it can.
    pub fn fault(&self, memory: &Memory, screen_len: usize) -> (r: Option<Fault>)
        requires
            memory.wf(),
        ensures
            r is None <==> can_step(self@, memory@, screen_len as int),
            r matches Some(f) ==> f == fault_of(self@, memory@, screen_len as int),
    {
        if self.opcode.is_none() && self.pc as usize + 1 >= MEMORY_SIZE {
            return Some(Fault::AddressOutOfRange);
        }
        let op = match self.opcode {
            None => get_opcode(self, memory),
            Some(code) => code,
        };
        if !op.is_wf() {
            return Some(Fault::InvalidOperand);
        }
        if self.pc > 0xFFFB {
            return Some(Fault::AddressOutOfRange);
        }
        if self.stack_pointer > STACK_DEPTH {
            return Some(Fault::StackOverflow);
        }
        let i = self.i as usize;
        let w = self.width as u64;
        let h = self.height as u64;
        assert(w * h <= 0xFFFF_FFFFu64 * 0xFFFF_FFFFu64) by (nonlinear_arith)
            requires
                w <= 0xFFFF_FFFFu64,
                h <= 0xFFFF_FFFFu64,
        ;
        match op {
            OpCode::Unknown(raw) => Some(Fault::UnknownOpcode(raw)),
            OpCode::CALL(_) => if self.stack_pointer < STACK_DEPTH {
                None
            } else {
                Some(Fault::StackOverflow)
            },
            OpCode::RET => if self.stack_pointer > 0 {
                None
            } else {
                Some(Fault::StackUnderflow)
            },
            OpCode::LD(LoadOp::LDB(_)) => if i + 2 < MEMORY_SIZE {
                None
            } else {
                Some(Fault::AddressOutOfRange)
            },
            OpCode::LD(LoadOp::LDIV0X(x)) => if i + (x as usize) < MEMORY_SIZE {
                None
            } else {
                Some(Fault::AddressOutOfRange)
            },
            OpCode::LD(LoadOp::LDV0XI(x)) => if i + (x as usize) < MEMORY_SIZE {
                None
            } else {
                Some(Fault::AddressOutOfRange)
            },
            OpCode::DRW(_, _, n) => if i + (n as usize) > MEMORY_SIZE {
                Some(Fault::AddressOutOfRange)
            } else if self.width > 0 && self.height > 0 && w * h <= screen_len as u64 {
                None
            } else {
                Some(Fault::DisplayTooSmall)
            },
            _ => None,
        }
    }

    /// A blank screen buffer of `width * height` pixels.
    pub fn create_buffer(&self) -> (r: Vec<u8>)
        requires
            self.width * self.height <= usize::MAX,
        ensures
            r@ == Seq::new((self.width * self.height) as nat, |k: int| 0u8),
    {
        let r = vec![0u8; (self.width as usize) * (self.height as usize)];
        assert(r@ =~= Seq::new((self.width * self.height) as nat, |k: int| 0u8));
        r
    }
}

impl Default for State {
    /// A fresh interpreter with the usual 64 by 32 screen.
    fn default() -> (r: State)
        ensures
            r@ == initial_state(64, 32),
    {
        State::new(64, 32)
    }
}

} // verus!
