use lib_chip::chip_8::{Chip8, LoadError};
use lib_chip::memory::Memory;
use lib_chip::opcode::parser::parse_opcode;
use lib_chip::opcode::{AddOp, LoadOp, OpCode, ShiftOp};
use lib_chip::rom::Rom;
use lib_chip::scheduler::Scheduler;
use lib_chip::state::assembler::{assemble, execute, handle_add_op, handle_shift_op};
use lib_chip::state::{delay_timer, sound_timer, Fault, State};

#[test]
fn decodes_family_selectors_and_unknown_words() {
    assert_eq!(OpCode::CLS, parse_opcode(0x00, 0xE0));
    assert_eq!(OpCode::DRW(4, 0xE, 3), parse_opcode(0xD4, 0xE3));
    assert_eq!(OpCode::Unknown(0x0000), parse_opcode(0x00, 0x00));
    assert_eq!(OpCode::Unknown(0x8AB8), parse_opcode(0x8A, 0xB8));
    assert_eq!(OpCode::Unknown(0x9AB1), parse_opcode(0x9A, 0xB1));
    assert_eq!(OpCode::Unknown(0xE1FF), parse_opcode(0xE1, 0xFF));
    assert_eq!(OpCode::Unknown(0xF1FF), parse_opcode(0xF1, 0xFF));
    assert_eq!(OpCode::CLS, parse_opcode(0x03, 0xE0));
}

#[test]
fn add_immediate_wraps_and_leaves_flag() {
    let mut registers = [0x0; 16];
    registers[3] = 0x10;
    registers[0xF] = 0x7;
    let state = State { registers, ..Default::default() };
    let new_state = handle_add_op(state, AddOp::ADD(3, 0xFF), 0x202);
    assert_eq!(0x0F, new_state.registers[3]);
    assert_eq!(0x7, new_state.registers[0xF]);
    assert_eq!(0x202, new_state.pc);
}

#[test]
fn add_registers_sets_carry() {
    let mut registers = [0x0; 16];
    registers[1] = 0xFF;
    registers[2] = 0x02;
    let state = State { registers, ..Default::default() };
    let new_state = handle_add_op(state, AddOp::ADDREG(1, 2), 0x202);
    assert_eq!(0x01, new_state.registers[1]);
    assert_eq!(0x01, new_state.registers[0xF]);
}

#[test]
fn add_to_index_wraps() {
    let mut registers = [0x0; 16];
    registers[1] = 0x02;
    let state = State { registers, i: 0xFFFF, ..Default::default() };
    let new_state = handle_add_op(state, AddOp::ADDI(1), 0x202);
    assert_eq!(0x0001, new_state.i);
}

#[test]
fn shifts_capture_the_bit_shifted_out() {
    let mut registers = [0x0; 16];
    registers[2] = 0b1000_0001;
    let state = State { registers, ..Default::default() };
    let right = handle_shift_op(state, 0x202, ShiftOp::SHR(2));
    assert_eq!(0b0100_0000, right.registers[2]);
    assert_eq!(1, right.registers[0xF]);

    let state = State { registers, ..Default::default() };
    let left = handle_shift_op(state, 0x202, ShiftOp::SHL(2));
    assert_eq!(0b0000_0010, left.registers[2]);
    assert_eq!(1, left.registers[0xF]);
}

#[test]
fn bcd_of_254_is_two_five_four() {
    let mut registers = [0x0; 16];
    registers[6] = 254;
    let mut memory = Memory::new();
    let mut screen = vec![0u8; 64 * 32];
    let state = State { i: 0x300, registers, ..Default::default() };
    let new_state = assemble(state, &mut memory, None, &mut screen[..], OpCode::LD(LoadOp::LDB(6)));
    assert_eq!((2, 5, 4), (memory.read(0x300), memory.read(0x301), memory.read(0x302)));
    assert_eq!(0x300, new_state.i);
    assert_eq!(0x202, new_state.pc);
}

#[test]
fn bulk_transfers_leave_index_unchanged() {
    let mut registers = [0x0; 16];
    registers[0] = 9;
    registers[1] = 8;
    registers[2] = 7;
    let mut memory = Memory::new();
    let mut screen = vec![0u8; 64 * 32];
    let state = State { i: 0x400, registers, ..Default::default() };
    let stored = assemble(state, &mut memory, None, &mut screen[..], OpCode::LD(LoadOp::LDIV0X(2)));
    assert_eq!(0x400, stored.i);
    assert_eq!((9, 8, 7, 0), (memory.read(0x400), memory.read(0x401), memory.read(0x402), memory.read(0x403)));

    let state = State { i: 0x400, ..Default::default() };
    let loaded = assemble(state, &mut memory, None, &mut screen[..], OpCode::LD(LoadOp::LDV0XI(1)));
    assert_eq!(0x400, loaded.i);
    assert_eq!([9, 8, 0], [loaded.registers[0], loaded.registers[1], loaded.registers[2]]);
}

#[test]
fn font_glyph_address_is_five_times_the_digit() {
    let mut registers = [0x0; 16];
    registers[4] = 0xF;
    let mut memory = Memory::new();
    let mut screen = vec![0u8; 64 * 32];
    let state = State { registers, ..Default::default() };
    let new_state = assemble(state, &mut memory, None, &mut screen[..], OpCode::LD(LoadOp::LDF(4)));
    assert_eq!(75, new_state.i);
    assert_eq!(0xF0, memory.read(75));
}

#[test]
fn draw_wraps_at_the_right_edge_and_reports_collision() {
    let mut registers = [0x0; 16];
    registers[1] = 63;
    registers[2] = 5;
    let mut memory = Memory::new();
    memory.set(0x300, 0xFF);
    let mut screen = vec![0u8; 64 * 32];
    let state = State { i: 0x300, registers, draw_flag: false, ..Default::default() };
    let drawn = assemble(state, &mut memory, None, &mut screen[..], OpCode::DRW(1, 2, 1));
    let row = 5 * 64;
    assert_eq!(1, screen[row + 63]);
    for c in 0..7 {
        assert_eq!(1, screen[row + c]);
    }
    assert_eq!(0, screen[row + 7]);
    assert_eq!(8, screen.iter().filter(|p| **p == 1).count());
    assert_eq!(0, drawn.registers[0xF]);
    assert!(drawn.draw_flag);
    assert_eq!(0x202, drawn.pc);

    let again = assemble(drawn, &mut memory, None, &mut screen[..], OpCode::DRW(1, 2, 1));
    assert_eq!(0, screen.iter().filter(|p| **p == 1).count());
    assert_eq!(1, again.registers[0xF]);
}

#[test]
fn draw_wraps_at_the_bottom_edge() {
    let mut registers = [0x0; 16];
    registers[1] = 0;
    registers[2] = 31;
    let mut memory = Memory::new();
    memory.set_range(0x300, &[0x80, 0x80]);
    let mut screen = vec![0u8; 64 * 32];
    let state = State { i: 0x300, registers, ..Default::default() };
    let drawn = assemble(state, &mut memory, None, &mut screen[..], OpCode::DRW(1, 2, 2));
    assert_eq!(1, screen[31 * 64]);
    assert_eq!(1, screen[0]);
    assert_eq!(0, drawn.registers[0xF]);
}

#[test]
fn key_wait_holds_until_a_key_arrives() {
    let mut memory = Memory::new();
    memory.set_range(0x200, &[0xF5, 0x0A]);
    let mut screen = vec![0u8; 64 * 32];
    let mut state = State::default();
    for _ in 0..3 {
        state = state.step(&mut memory, None, &mut screen);
        assert_eq!(0x200, state.pc);
        assert_eq!(Some(OpCode::LD(LoadOp::LDKEY(5))), state.opcode);
    }
    state = state.step(&mut memory, Some(0xB), &mut screen);
    assert_eq!(0x202, state.pc);
    assert_eq!(0xB, state.registers[5]);
    assert_eq!(None, state.opcode);
}

#[test]
fn skip_on_key_waits_for_a_key() {
    let mut memory = Memory::new();
    memory.set_range(0x200, &[0xE3, 0x9E]);
    let mut screen = vec![0u8; 64 * 32];
    let mut registers = [0x0; 16];
    registers[3] = 0x4;
    let mut state = State { registers, ..Default::default() };
    state = state.step(&mut memory, None, &mut screen);
    assert_eq!(0x200, state.pc);
    assert!(state.opcode.is_some());
    state = state.step(&mut memory, Some(0x4), &mut screen);
    assert_eq!(0x204, state.pc);
    assert_eq!(None, state.opcode);
}

#[test]
fn call_then_return_comes_back_after_the_call() {
    let mut memory = Memory::new();
    memory.set_range(0x200, &[0x23, 0x00]);
    memory.set_range(0x300, &[0x00, 0xEE]);
    let mut screen = vec![0u8; 64 * 32];
    let mut state = State::default();
    state = state.step(&mut memory, None, &mut screen);
    assert_eq!(0x300, state.pc);
    assert_eq!(1, state.stack_pointer);
    state = state.step(&mut memory, None, &mut screen);
    assert_eq!(0x202, state.pc);
    assert_eq!(0, state.stack_pointer);
}

#[test]
fn jump_and_indexed_jump() {
    let mut memory = Memory::new();
    memory.set_range(0x200, &[0x14, 0x56]);
    let mut screen = vec![0u8; 64 * 32];
    let state = State::default().step(&mut memory, None, &mut screen);
    assert_eq!(0x456, state.pc);
    let mut registers = [0x0; 16];
    registers[0] = 0x10;
    let state = State { registers, ..Default::default() };
    let state = execute(state, &mut memory, None, &mut screen[..], parse_opcode(0xB3, 0x00), 0);
    assert_eq!(0x310, state.pc);
}

#[test]
fn random_byte_is_masked() {
    let mut memory = Memory::new();
    let mut screen = vec![0u8; 64 * 32];
    let state = State::default();
    let masked = execute(state, &mut memory, None, &mut screen[..], OpCode::RND(2, 0x0F), 0xAB);
    assert_eq!(0x0B, masked.registers[2]);
    for _ in 0..20 {
        let state = State::default();
        let drawn = assemble(state, &mut memory, None, &mut screen[..], OpCode::RND(2, 0x0F));
        assert!(drawn.registers[2] <= 0x0F);
        let state = State::default();
        let zero = assemble(state, &mut memory, None, &mut screen[..], OpCode::RND(2, 0x00));
        assert_eq!(0, zero.registers[2]);
    }
}

#[test]
fn timers_count_down_to_zero() {
    let state = State { delay_timer: 2, sound_timer: 0, ..Default::default() };
    assert_eq!(1, delay_timer(&state));
    assert_eq!(0, sound_timer(&state));
}

#[test]
fn new_state_starts_at_program_start() {
    let state = State::new(64, 32);
    assert_eq!(0x200, state.pc);
    assert_eq!(0, state.stack_pointer);
    assert!(state.draw_flag && state.clear_flag && state.run_flag);
    assert_eq!(None, state.opcode);
    assert_eq!(vec![0u8; 2048], state.create_buffer());
}

#[test]
fn faults_are_reported_before_a_step() {
    let memory = Memory::new();
    let state = State::default();
    assert_eq!(Some(Fault::UnknownOpcode(0x0000)), state.fault(&memory, 2048));

    let mut memory = Memory::new();
    memory.set_range(0x200, &[0x00, 0xE0]);
    assert_eq!(None, State::default().fault(&memory, 2048));

    memory.set_range(0x200, &[0x23, 0x00]);
    let full = State { stack_pointer: 16, ..Default::default() };
    assert_eq!(Some(Fault::StackOverflow), full.fault(&memory, 2048));

    memory.set_range(0x200, &[0x00, 0xEE]);
    assert_eq!(Some(Fault::StackUnderflow), State::default().fault(&memory, 2048));

    let at_end = State { pc: 0x0FFF, ..Default::default() };
    assert_eq!(Some(Fault::AddressOutOfRange), at_end.fault(&memory, 2048));

    memory.set_range(0x200, &[0xD0, 0x11]);
    assert_eq!(Some(Fault::DisplayTooSmall), State::default().fault(&memory, 200));
    assert_eq!(None, State::default().fault(&memory, 2048));

    let pending = State { opcode: Some(OpCode::LD(LoadOp::LDKEY(16))), ..Default::default() };
    assert_eq!(Some(Fault::InvalidOperand), pending.fault(&memory, 2048));
}

#[test]
fn ten_cpu_ticks_owe_one_timer_tick() {
    let mut scheduler = Scheduler::new(10, 100);
    let mut cpu = 0;
    let mut timer = 0;
    for _ in 0..10 {
        let t = scheduler.advance(10);
        if t.cpu {
            cpu += 1;
        }
        if t.timer {
            timer += 1;
        }
    }
    assert_eq!(10, cpu);
    assert_eq!(1, timer);
}

#[test]
fn machine_runs_a_program_at_its_own_pace() {
    let mut chip = Chip8::new(64, 32, 10, 100);
    let program = vec![0x60, 0x05, 0xF0, 0x15, 0x12, 0x04];
    assert_eq!(Ok(()), chip.load_rom(Rom::from_memory(program)));
    for _ in 0..4 {
        assert!(chip.tick(10, None).is_ok());
    }
    assert_eq!(5, chip.state.registers[0]);
    assert_eq!(5, chip.state.delay_timer);
    for _ in 0..6 {
        assert!(chip.tick(10, None).is_ok());
    }
    assert_eq!(4, chip.state.delay_timer);
    assert_eq!(0x204, chip.state.pc);
}

#[test]
fn machine_reports_a_fault_instead_of_stepping() {
    let mut chip = Chip8::new(64, 32, 10, 100);
    assert_eq!(Ok(()), chip.load_rom(Rom::from_memory(vec![0x00, 0x00])));
    assert_eq!(Err(Fault::UnknownOpcode(0)), chip.tick(10, None));
    assert_eq!(0x200, chip.state.pc);
}

#[test]
fn machine_refuses_an_oversized_rom() {
    let mut chip = Chip8::new(64, 32, 10, 100);
    assert_eq!(Err(LoadError::RomTooLarge), chip.load_rom(Rom::from_memory(vec![0u8; 4096 - 0x200 + 1])));
    assert_eq!(Ok(()), chip.load_rom(Rom::from_memory(vec![0u8; 4096 - 0x200])));
}

#[test]
fn present_clears_the_buffer_and_the_flags() {
    let mut chip = Chip8::new(4, 2, 10, 100);
    chip.screen[3] = 1;
    assert!(chip.present());
    assert_eq!(vec![0u8; 8], chip.screen);
    assert!(!chip.state.clear_flag && !chip.state.draw_flag);
    assert!(!chip.present());
}
