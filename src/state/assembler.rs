//! Executes one decoded instruction against a state, memory and screen.
use vstd::arithmetic::div_mod::{lemma_mod_multiples_vanish, lemma_small_mod};
use vstd::prelude::*;

use crate::memory::{Memory, MEMORY_SIZE};
use crate::opcode::OpCode;
use crate::state::{can_execute, screen_fits, State, StateView, FLAG};

pub mod addops;
pub mod jumpops;
pub mod loadops;
pub mod shiftops;
pub mod skipops;

pub use addops::{add_spec, handle_add_op};
pub use jumpops::{handle_jump_ops, jump_spec};
pub use loadops::{handle_load_operands, load_in_range, load_memory_spec, load_spec};
pub use shiftops::{handle_shift_op, shift_spec};
pub use skipops::{handle_skip_ops, skip_spec, waiting};

verus! {

/// `s` after an instruction `op` that completed without further effect, with
/// `pc` as the next instruction; no instruction is left waiting.
pub open spec fn completed(s: StateView, op: OpCode, pc: u16) -> StateView {
    StateView { pc, last_opcode: op, opcode: None, ..s }
}

/// Sprite column `c` (0 is the leftmost) of the sprite row `row` is set.
pub open spec fn sprite_bit(row: u8, c: int) -> bool {
    row & (0x80u8 >> (c as u8)) != 0
}

/// The screen index that sprite row `r`, column `c` lands on when the sprite
/// is drawn at `(x, y)` on a `w` by `h` screen: both coordinates wrap around.
pub open spec fn pixel_index(x: u8, y: u8, r: int, c: int, w: u32, h: u32) -> int {
    ((y + r) % (h as int)) * w + (x + c) % (w as int)
}

/// The screen and the collision flag after the first `k` pixels of `sprite`,
/// taken row by row and left to right within a row, are drawn at `(x, y)`.
/// Each set pixel toggles its target; a target that was on is a collision.
pub open spec fn blit(screen: Seq<u8>, sprite: Seq<u8>, x: u8, y: u8, w: u32, h: u32, k: nat) -> (Seq<u8>, bool)
    decreases k,
{
    if k == 0 {
        (screen, false)
    } else {
        let prev = blit(screen, sprite, x, y, w, h, (k - 1) as nat);
        let r = (k - 1) / 8;
        let c = (k - 1) % 8;
        if sprite_bit(sprite[r], c) {
            let idx = pixel_index(x, y, r, c, w, h);
            (prev.0.update(idx, prev.0[idx] ^ 1u8), prev.1 || prev.0[idx] == 1)
        } else {
            prev
        }
    }
}

/// The screen and collision flag after drawing the `n`-byte sprite at `I` at
/// `(Vx, Vy)`.
pub open spec fn draw_spec(s: StateView, x: u8, y: u8, n: u8, mem: Seq<u8>, screen: Seq<u8>) -> (Seq<u8>, bool) {
    blit(
        screen,
        mem.subrange(s.i as int, s.i + n),
        s.registers[x as int],
        s.registers[y as int],
        s.width,
        s.height,
        (n * 8) as nat,
    )
}

/// The state after `op`, with `pc` as the next instruction, `mem` and `screen`
/// as they were before it, `key` the key pressed, if any, and `rnd` the random
/// byte that `RND` uses.
pub open spec fn execute_spec(
    s: StateView,
    op: OpCode,
    pc: u16,
    mem: Seq<u8>,
    key: Option<u8>,
    rnd: u8,
    screen: Seq<u8>,
) -> StateView {
    let done = completed(s, op, pc);
    let regs = s.registers;
    match op {
        OpCode::Unknown(_) => s,
        OpCode::CLS => StateView { clear_flag: true, ..done },
        OpCode::CALL(nnn) => StateView {
            stack: s.stack.update(s.stack_pointer as int, pc),
            stack_pointer: (s.stack_pointer + 1) as u16,
            pc: nnn,
            ..done
        },
        OpCode::RET => StateView {
            stack_pointer: (s.stack_pointer - 1) as u16,
            pc: s.stack[s.stack_pointer - 1],
            ..done
        },
        OpCode::LD(l) => load_spec(s, l, pc, mem, key),
        OpCode::JP(j) => jump_spec(s, j),
        OpCode::SKIP(k) => skip_spec(s, k, pc, key),
        OpCode::ADD(a) => add_spec(s, a, pc),
        OpCode::SUB(x, y) => StateView {
            registers: regs.update(x as int, ((regs[x as int] - regs[y as int] + 256) % 256) as u8).update(
                FLAG as int,
                if regs[x as int] > regs[y as int] { 1u8 } else { 0u8 },
            ),
            ..done
        },
        OpCode::SUBN(x, y) => StateView {
            registers: regs.update(x as int, ((regs[y as int] - regs[x as int] + 256) % 256) as u8).update(
                FLAG as int,
                if regs[y as int] > regs[x as int] { 1u8 } else { 0u8 },
            ),
            ..done
        },
        OpCode::RND(x, kk) => StateView { registers: regs.update(x as int, rnd & kk), ..done },
        OpCode::DRW(x, y, n) => StateView {
            registers: regs.update(
                FLAG as int,
                if draw_spec(s, x, y, n, mem, screen).1 { 1u8 } else { 0u8 },
            ),
            draw_flag: true,
            ..done
        },
        OpCode::OR(x, y) => StateView {
            registers: regs.update(x as int, regs[x as int] | regs[y as int]),
            ..done
        },
        OpCode::AND(x, y) => StateView {
            registers: regs.update(x as int, regs[x as int] & regs[y as int]),
            ..done
        },
        OpCode::XOR(x, y) => StateView {
            registers: regs.update(x as int, regs[x as int] ^ regs[y as int]),
            ..done
        },
        OpCode::SHIFT(sh) => shift_spec(s, sh, pc),
    }
}

/// Memory after `op`.
pub open spec fn execute_memory(s: StateView, op: OpCode, mem: Seq<u8>) -> Seq<u8> {
    match op {
        OpCode::LD(l) => load_memory_spec(s, l, mem),
        _ => mem,
    }
}

/// The screen after `op`.
pub open spec fn execute_screen(s: StateView, op: OpCode, mem: Seq<u8>, screen: Seq<u8>) -> Seq<u8> {
    match op {
        OpCode::DRW(x, y, n) => draw_spec(s, x, y, n, mem, screen).0,
        _ => screen,
    }
}

/// A call followed by a return comes back to the instruction after the call,
/// with the stack pointer, registers and index register as they were before
/// the call.
pub proof fn lemma_call_return(
    s: StateView,
    nnn: u16,
    mem: Seq<u8>,
    key: Option<u8>,
    rnd: u8,
    screen: Seq<u8>,
)
    requires
        s.stack.len() == 16,
        s.stack_pointer < 16,
        s.pc + 4 <= u16::MAX,
    ensures
        execute_spec(s, OpCode::CALL(nnn), (s.pc + 2) as u16, mem, key, rnd, screen).pc == nnn,
        execute_spec(
            execute_spec(s, OpCode::CALL(nnn), (s.pc + 2) as u16, mem, key, rnd, screen),
            OpCode::RET,
            (nnn + 2) as u16,
            mem,
            key,
            rnd,
            screen,
        ).pc == s.pc + 2,
        execute_spec(
            execute_spec(s, OpCode::CALL(nnn), (s.pc + 2) as u16, mem, key, rnd, screen),
            OpCode::RET,
            (nnn + 2) as u16,
            mem,
            key,
            rnd,
            screen,
        ).stack_pointer == s.stack_pointer,
        execute_spec(
            execute_spec(s, OpCode::CALL(nnn), (s.pc + 2) as u16, mem, key, rnd, screen),
            OpCode::RET,
            (nnn + 2) as u16,
            mem,
            key,
            rnd,
            screen,
        ).registers == s.registers,
        execute_spec(
            execute_spec(s, OpCode::CALL(nnn), (s.pc + 2) as u16, mem, key, rnd, screen),
            OpCode::RET,
            (nnn + 2) as u16,
            mem,
            key,
            rnd,
            screen,
        ).i == s.i,
{
}

/// The index of the first pixel of the screen row that sprite row 0 lands on
/// when drawn at height `y`.
pub open spec fn row_start(y: u8, w: u32, h: u32) -> int {
    ((y as int) % (h as int)) * (w as int)
}

/// The column that sprite column `c` of a sprite drawn at the last column `w - 1`
/// lands on: the last column itself, then columns `0..7` from the left edge.
pub open spec fn wrapped_column(c: int, w: int) -> int {
    if c == 0 {
        w - 1
    } else {
        c - 1
    }
}

proof fn lemma_wrapped_column(c: int, w: int)
    requires
        0 <= c < 8,
        8 <= w,
    ensures
        (w - 1 + c) % w == wrapped_column(c, w),
{
    if c == 0 {
        lemma_small_mod((w - 1) as nat, w as nat);
    } else {
        lemma_mod_multiples_vanish(1, c - 1, w);
        lemma_small_mod((c - 1) as nat, w as nat);
    }
}

/// The first `k` pixels of a full sprite row drawn at the last column toggle
/// the pixels at their wrapped columns and collide when one of those was on.
proof fn lemma_full_row_prefix(screen: Seq<u8>, y: u8, w: u32, h: u32, k: nat)
    requires
        8 <= w <= 256,
        h > 0,
        w * h <= screen.len(),
        k <= 8,
    ensures
        blit(screen, seq![0xFFu8], (w - 1) as u8, y, w, h, k).0.len() == screen.len(),
        forall|j: int|
            0 <= j < screen.len() ==> #[trigger] blit(screen, seq![0xFFu8], (w - 1) as u8, y, w, h, k).0[j]
                == if exists|c: int|
                0 <= c < k && row_start(y, w, h) + wrapped_column(c, w as int) == j {
                screen[j] ^ 1u8
            } else {
                screen[j]
            },
        blit(screen, seq![0xFFu8], (w - 1) as u8, y, w, h, k).1 == exists|c: int|
            0 <= c < k && screen[row_start(y, w, h) + wrapped_column(c, w as int)] == 1,
    decreases k,
{
    let row = row_start(y, w, h);
    assert(0 <= (y as int) % (h as int) < h);
    assert(row + w <= w * h) by (nonlinear_arith)
        requires
            row == ((y as int) % (h as int)) * w,
            0 <= (y as int) % (h as int) < h,
    ;
    if k > 0 {
        let c = (k - 1) as int;
        lemma_full_row_prefix(screen, y, w, h, (k - 1) as nat);
        let prev = blit(screen, seq![0xFFu8], (w - 1) as u8, y, w, h, (k - 1) as nat);
        let cu = c as u8;
        assert(0xFFu8 & (0x80u8 >> cu) != 0) by (bit_vector)
            requires
                cu < 8,
        ;
        assert(sprite_bit(seq![0xFFu8][0], c));
        lemma_wrapped_column(c, w as int);
        assert((k - 1) / 8 == 0 && (k - 1) % 8 == c);
        let idx = pixel_index((w - 1) as u8, y, 0, c, w, h);
        assert(idx == row + wrapped_column(c, w as int));
        assert(prev.0[idx] == screen[idx]) by {
            if exists|d: int| 0 <= d < k - 1 && row + wrapped_column(d, w as int) == idx {
                let d = choose|d: int| 0 <= d < k - 1 && row + wrapped_column(d, w as int) == idx;
                assert(false);
            }
        }
        let next = blit(screen, seq![0xFFu8], (w - 1) as u8, y, w, h, k);
        assert(next == (prev.0.update(idx, prev.0[idx] ^ 1u8), prev.1 || prev.0[idx] == 1));
        assert forall|j: int| 0 <= j < screen.len() implies #[trigger] next.0[j] == if exists|d: int|
            0 <= d < k && row + wrapped_column(d, w as int) == j {
            screen[j] ^ 1u8
        } else {
            screen[j]
        } by {
            if j == idx {
                assert(row + wrapped_column(c, w as int) == j);
            } else {
                if exists|d: int| 0 <= d < k && row + wrapped_column(d, w as int) == j {
                    let d = choose|d: int| 0 <= d < k && row + wrapped_column(d, w as int) == j;
                    assert(d != c);
                    assert(exists|e: int| 0 <= e < k - 1 && row + wrapped_column(e, w as int) == j);
                }
            }
        }
        if next.1 {
            if prev.1 {
                let d = choose|d: int| 0 <= d < k - 1 && screen[row + wrapped_column(d, w as int)] == 1;
                assert(0 <= d < k && screen[row + wrapped_column(d, w as int)] == 1);
            } else {
                assert(0 <= c < k && screen[row + wrapped_column(c, w as int)] == 1);
            }
        } else {
            assert forall|d: int| 0 <= d < k implies screen[row + wrapped_column(d, w as int)] != 1 by {
                if d < k - 1 {
                } else {
                    assert(d == c);
                }
            }
        }
    }
}

/// The whole of a full sprite row drawn at the last column.
proof fn lemma_full_row(screen: Seq<u8>, y: u8, w: u32, h: u32)
    requires
        8 <= w <= 256,
        h > 0,
        w * h <= screen.len(),
    ensures
        blit(screen, seq![0xFFu8], (w - 1) as u8, y, w, h, 8).0.len() == screen.len(),
        forall|j: int|
            0 <= j < screen.len() ==> #[trigger] blit(screen, seq![0xFFu8], (w - 1) as u8, y, w, h, 8).0[j]
                == if j == row_start(y, w, h) + w - 1 || (row_start(y, w, h) <= j < row_start(y, w, h) + 7) {
                screen[j] ^ 1u8
            } else {
                screen[j]
            },
        blit(screen, seq![0xFFu8], (w - 1) as u8, y, w, h, 8).1 == (screen[row_start(y, w, h) + w - 1] == 1
            || exists|c: int| 0 <= c < 7 && #[trigger] screen[row_start(y, w, h) + c] == 1),
{
    lemma_full_row_prefix(screen, y, w, h, 8);
    let row = row_start(y, w, h);
    let out = blit(screen, seq![0xFFu8], (w - 1) as u8, y, w, h, 8);
    assert forall|j: int| 0 <= j < screen.len() implies #[trigger] out.0[j] == if j == row + w - 1 || (
    row <= j < row + 7) {
        screen[j] ^ 1u8
    } else {
        screen[j]
    } by {
        if j == row + w - 1 {
            assert(row + wrapped_column(0, w as int) == j);
        } else if row <= j < row + 7 {
            assert(row + wrapped_column(j - row + 1, w as int) == j);
        } else {
            if exists|d: int| 0 <= d < 8 && row + wrapped_column(d, w as int) == j {
                let d = choose|d: int| 0 <= d < 8 && row + wrapped_column(d, w as int) == j;
                assert(false);
            }
        }
    }
    if out.1 {
        let d = choose|d: int| 0 <= d < 8 && screen[row + wrapped_column(d, w as int)] == 1;
        if d > 0 {
            assert(0 <= d - 1 < 7 && screen[row + (d - 1)] == 1);
        }
    } else {
        assert(screen[row + wrapped_column(0, w as int)] != 1);
        assert forall|c: int| 0 <= c < 7 implies #[trigger] screen[row + c] != 1 by {
            assert(screen[row + wrapped_column(c + 1, w as int)] != 1);
        }
    }
}

/// A one-row sprite with all eight pixels set, drawn with `Vx` at the last
/// column `width - 1`, wraps around the right edge: it toggles the last column
/// and columns 0 to 6 of its row and nothing else, and it collides exactly when
/// one of those eight pixels was on before.
pub proof fn lemma_draw_wraps_right_edge(s: StateView, x: u8, y: u8, mem: Seq<u8>, screen: Seq<u8>)
    requires
        s.registers.len() == 16,
        x < 16,
        y < 16,
        s.i < mem.len(),
        mem[s.i as int] == 0xFF,
        s.registers[x as int] == s.width - 1,
        8 <= s.width <= 256,
        s.height > 0,
        s.width * s.height <= screen.len(),
    ensures
        draw_spec(s, x, y, 1, mem, screen).0.len() == screen.len(),
        forall|j: int|
            0 <= j < screen.len() ==> #[trigger] draw_spec(s, x, y, 1, mem, screen).0[j] == if j
                == row_start(s.registers[y as int], s.width, s.height) + s.width - 1 || (row_start(
                s.registers[y as int],
                s.width,
                s.height,
            ) <= j < row_start(s.registers[y as int], s.width, s.height) + 7) {
                screen[j] ^ 1u8
            } else {
                screen[j]
            },
        draw_spec(s, x, y, 1, mem, screen).1 == (screen[row_start(
            s.registers[y as int],
            s.width,
            s.height,
        ) + s.width - 1] == 1 || exists|c: int|
            0 <= c < 7 && #[trigger] screen[row_start(s.registers[y as int], s.width, s.height) + c]
                == 1),
{
    assert(mem.subrange(s.i as int, s.i + 1) =~= seq![0xFFu8]);
    lemma_full_row(screen, s.registers[y as int], s.width, s.height);
}

enum Logical {
    AND,
    OR,
    XOR,
}

/// Relies on rand::random::<u8>: a byte from the thread-local generator. Nothing
/// is promised of its value.
#[verifier::external_body]
fn random_byte() -> (r: u8) {
    rand::random::<u8>()
}

/// Pushes `pc` and jumps to `location`.
fn call_routine(location: u16, pc: u16, state: State) -> (r: State)
    requires
        state.stack_pointer < 16,
    ensures
        r@ == execute_spec(state@, OpCode::CALL(location), pc, Seq::empty(), None, 0, Seq::empty()),
{
    let mut stack = state.stack;
    let mut stack_pointer = state.stack_pointer;
    stack[stack_pointer as usize] = pc;
    stack_pointer += 1;

    State {
        pc: location,
        stack_pointer,
        stack,
        last_opcode: OpCode::CALL(location),
        opcode: None,
        ..state
    }
}

/// Pops the return address into `pc`.
fn return_from_routine(state: State) -> (r: State)
    requires
        0 < state.stack_pointer <= 16,
    ensures
        r@ == execute_spec(state@, OpCode::RET, 0, Seq::empty(), None, 0, Seq::empty()),
{
    let stack_pointer = state.stack_pointer - 1;
    let pc = state.stack[stack_pointer as usize];
    State { pc, stack_pointer, last_opcode: OpCode::RET, opcode: None, ..state }
}

/// `Vx = Vx - Vy`, wrapping; then `VF` = 1 if `Vx` was greater than `Vy`.
fn subtract_y_from_x(state: State, pc: u16, vx: u8, vy: u8) -> (r: State)
    requires
        vx < 16,
        vy < 16,
    ensures
        r@ == execute_spec(state@, OpCode::SUB(vx, vy), pc, Seq::empty(), None, 0, Seq::empty()),
{
    let mut registers = state.registers;
    let x = registers[vx as usize];
    let y = registers[vy as usize];

    let result = x.wrapping_sub(y);
    registers[vx as usize] = result;
    registers[FLAG] = if x > y {
        1
    } else {
        0
    };

    State { registers, pc, last_opcode: OpCode::SUB(vx, vy), opcode: None, ..state }
}

/// `Vx = Vy - Vx`, wrapping; then `VF` = 1 if `Vy` was greater than `Vx`.
fn subtract_x_from_y(state: State, pc: u16, vx: u8, vy: u8) -> (r: State)
    requires
        vx < 16,
        vy < 16,
    ensures
        r@ == execute_spec(state@, OpCode::SUBN(vx, vy), pc, Seq::empty(), None, 0, Seq::empty()),
{
    let mut registers = state.registers;
    let x = registers[vx as usize];
    let y = registers[vy as usize];

    let result = y.wrapping_sub(x);
    registers[vx as usize] = result;
    registers[FLAG] = if y > x {
        1
    } else {
        0
    };

    State { registers, pc, last_opcode: OpCode::SUBN(vx, vy), opcode: None, ..state }
}

/// `Vx = rnd AND kk`.
fn set_rnd(state: State, vx: u8, pc: u16, kk: u8, rnd: u8) -> (r: State)
    requires
        vx < 16,
    ensures
        r@ == execute_spec(state@, OpCode::RND(vx, kk), pc, Seq::empty(), None, rnd, Seq::empty()),
{
    let val = rnd & kk;
    let mut registers = state.registers;
    registers[vx as usize] = val;

    State { registers, pc, last_opcode: OpCode::RND(vx, kk), opcode: None, ..state }
}

/// XORs the `n`-byte sprite at `I` onto the screen at `(Vx, Vy)`, wrapping
/// around both edges; `VF` = 1 if any pixel that was on is toggled.
fn handle_draw(
    state: State,
    pc: u16,
    vx: u8,
    vy: u8,
    n: u8,
    memory: &Memory,
    screen: &mut [u8],
) -> (r: State)
    requires
        vx < 16,
        vy < 16,
        memory.wf(),
        state.i + n <= MEMORY_SIZE,
        screen_fits(state@, old(screen)@.len() as int),
    ensures
        r@ == execute_spec(state@, OpCode::DRW(vx, vy, n), pc, memory@, None, 0, old(screen)@),
        final(screen)@ == execute_screen(state@, OpCode::DRW(vx, vy, n), memory@, old(screen)@),
{
    let ghost sprite = memory@.subrange(state.i as int, state.i + n);
    let ghost start = old(screen)@;
    let mut erased = false;
    let x0 = state.registers[vx as usize];
    let y0 = state.registers[vy as usize];
    let width = state.width;
    let height = state.height;
    let len = screen.len();

    let mut yline: u8 = 0;
    while yline < n
        invariant
            yline <= n,
            memory.wf(),
            state.i + n <= MEMORY_SIZE,
            sprite == memory@.subrange(state.i as int, state.i + n),
            width > 0,
            height > 0,
            width * height <= screen@.len(),
            screen@.len() == start.len(),
            screen@.len() == len,
            (screen@, erased) == blit(start, sprite, x0, y0, width, height, (yline * 8) as nat),
        decreases n - yline,
    {
        let row = memory.read(state.i + yline as u16);
        assert(row == sprite[yline as int]);
        let mut xline: u8 = 0;
        while xline < 8
            invariant
                yline < n,
                xline <= 8,
                sprite.len() == n,
                row == sprite[yline as int],
                width > 0,
                height > 0,
                width * height <= screen@.len(),
                screen@.len() == start.len(),
                screen@.len() == len,
                (screen@, erased) == blit(
                    start,
                    sprite,
                    x0,
                    y0,
                    width,
                    height,
                    (yline * 8 + xline) as nat,
                ),
            decreases 8 - xline,
        {
            let ghost k = (yline * 8 + xline) as nat;
            assert((k + 1 - 1) / 8 == yline && (k + 1 - 1) % 8 == xline);
            if row & (0x80u8 >> xline) != 0 {
                let px: u32 = (x0 as u32 + xline as u32) % width;
                let py: u32 = (y0 as u32 + yline as u32) % height;
                assert(py * width + px < width * height) by (nonlinear_arith)
                    requires
                        px < width,
                        py < height,
                ;
                let idx: usize = py as usize * width as usize + px as usize;
                assert(idx == pixel_index(x0, y0, yline as int, xline as int, width, height));
                let current = screen[idx];
                if current == 1 {
                    erased = true;
                }
                screen[idx] = current ^ 1;
            }
            xline = xline + 1;
        }
        yline = yline + 1;
    }

    let mut registers = state.registers;
    registers[FLAG] = if erased {
        1
    } else {
        0
    };

    State {
        registers,
        pc,
        draw_flag: true,
        last_opcode: OpCode::DRW(vx, vy, n),
        opcode: None,
        ..state
    }
}

/// `Vx = Vx op Vy` for a bitwise `op`.
fn handle_logical(state: State, pc: u16, vx: u8, vy: u8, logical: Logical) -> (r: State)
    requires
        vx < 16,
        vy < 16,
    ensures
        r@ == execute_spec(
            state@,
            match logical {
                Logical::AND => OpCode::AND(vx, vy),
                Logical::OR => OpCode::OR(vx, vy),
                Logical::XOR => OpCode::XOR(vx, vy),
            },
            pc,
            Seq::empty(),
            None,
            0,
            Seq::empty(),
        ),
{
    let mut registers = state.registers;
    let x = registers[vx as usize];
    let y = registers[vy as usize];
    let (r, o) = match logical {
        Logical::AND => (x & y, OpCode::AND(vx, vy)),
        Logical::OR => (x | y, OpCode::OR(vx, vy)),
        Logical::XOR => (x ^ y, OpCode::XOR(vx, vy)),
    };

    registers[vx as usize] = r;

    State { pc, registers, last_opcode: o, opcode: None, ..state }
}

/// Executes `opcode` with `rnd` as the random byte that `RND` uses.
///
/// Every instruction but a jump, a call, a return or a waiting one leaves the
/// program counter on the next instruction, `state.pc + 2` (plus 2 for a skip
/// taken).
pub fn execute(
    state: State,
    memory: &mut Memory,
    keycode: Option<u8>,
    screen: &mut [u8],
    opcode: OpCode,
    rnd: u8,
) -> (r: State)
    requires
        old(memory).wf(),
        can_execute(state@, opcode, old(screen)@.len() as int),
    ensures
        r@ == execute_spec(
            state@,
            opcode,
            (state.pc + 2) as u16,
            old(memory)@,
            keycode,
            rnd,
            old(screen)@,
        ),
        final(memory)@ == execute_memory(state@, opcode, old(memory)@),
        final(memory).wf(),
        final(screen)@ == execute_screen(state@, opcode, old(memory)@, old(screen)@),
{
    let pc: u16 = state.pc + 2;

    match opcode {
        OpCode::Unknown(_) => state,
        OpCode::CLS => State { clear_flag: true, pc, last_opcode: OpCode::CLS, opcode: None, ..state },
        OpCode::CALL(nnn) => call_routine(nnn, pc, state),
        OpCode::RET => return_from_routine(state),
        OpCode::LD(ld) => handle_load_operands(state, ld, pc, memory, keycode),
        OpCode::JP(jp) => handle_jump_ops(state, jp),
        OpCode::SKIP(sp) => handle_skip_ops(state, sp, pc, keycode),
        OpCode::ADD(op) => handle_add_op(state, op, pc),
        OpCode::SUB(vx, vy) => subtract_y_from_x(state, pc, vx, vy),
        OpCode::SUBN(vx, vy) => subtract_x_from_y(state, pc, vx, vy),
        OpCode::RND(vx, kk) => set_rnd(state, vx, pc, kk, rnd),
        OpCode::DRW(vx, vy, n) => handle_draw(state, pc, vx, vy, n, memory, screen),
        OpCode::OR(vx, vy) => handle_logical(state, pc, vx, vy, Logical::OR),
        OpCode::AND(vx, vy) => handle_logical(state, pc, vx, vy, Logical::AND),
        OpCode::XOR(vx, vy) => handle_logical(state, pc, vx, vy, Logical::XOR),
        OpCode::SHIFT(so) => handle_shift_op(state, pc, so),
    }
}

/// Executes `opcode`; `RND` draws its byte from the thread-local generator.
///
/// The result is what [`execute`] gives for some random byte; for any
/// instruction but `RND` that byte plays no part.
pub fn assemble(
    state: State,
    memory: &mut Memory,
    keycode: Option<u8>,
    screen: &mut [u8],
    opcode: OpCode,
) -> (r: State)
    requires
        old(memory).wf(),
        can_execute(state@, opcode, old(screen)@.len() as int),
    ensures
        exists|rnd: u8|
            r@ == #[trigger] execute_spec(
                state@,
                opcode,
                (state.pc + 2) as u16,
                old(memory)@,
                keycode,
                rnd,
                old(screen)@,
            ),
        !(opcode is RND) ==> r@ == execute_spec(
            state@,
            opcode,
            (state.pc + 2) as u16,
            old(memory)@,
            keycode,
            0,
            old(screen)@,
        ),
        final(memory)@ == execute_memory(state@, opcode, old(memory)@),
        final(memory).wf(),
        final(screen)@ == execute_screen(state@, opcode, old(memory)@, old(screen)@),
{
    let rnd: u8 = match opcode {
        OpCode::RND(_, _) => random_byte(),
        _ => 0,
    };
    execute(state, memory, keycode, screen, opcode, rnd)
}

} // verus!
