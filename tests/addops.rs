use lib_chip::state::assembler::handle_add_op;
use lib_chip::opcode::AddOp;
use lib_chip::state::State;

#[test]
fn it_should_add_kk_to_register_vx() {
    const VX:u8 = 0x3;
    let mut registers = [0x0; 16];
    registers[VX as usize] = 0x10;

    let state: State = State {
        registers,
        ..Default::default()
    };


    let new_state = handle_add_op(state, AddOp::ADD(VX, 0xA1), 0x200);
    let registers = new_state.registers;

    assert_eq!(registers[VX as usize], 0xB1);
}

#[test]
fn it_should_add_kk_to_register_vx_with_overflow() {
    const VX:u8 = 0x3;
    let mut registers = [0x0; 16];
    registers[VX as usize] = 0x10;

    let state: State = State {
        registers,
        ..Default::default()
    };

    let new_state = handle_add_op(state, AddOp::ADD(VX, 0xFF), 0x200);
    let registers = new_state.registers;

    assert_eq!(registers[VX as usize], 0x0F);   
}

#[test]
fn it_should_add_vy_to_vx() {
    const VX:u8 = 0x3;
    const VY:u8 = 0x4;
    let mut registers = [0x0; 16];
    registers[VX as usize] = 0x10;
    registers[VY as usize] = 0x15;

    let state: State = State {
        registers,
        ..Default::default()
    };

    let new_state = handle_add_op(state, AddOp::ADDREG(VX,VY), 0x200);
    let registers = new_state.registers;

    assert_eq!(registers[VX as usize], 0x25);  
    assert_eq!(registers[0xF], 0x00);
}

#[test]
fn it_should_add_vy_to_vx_with_overflow() {
    const VX:u8 = 0x3;
    const VY:u8 = 0x4;
    let mut registers = [0x0; 16];
    registers[VX as usize] = 0x10;
    registers[VY as usize] = 0xFF;

    let state: State = State {
        registers,
        ..Default::default()
    };


    let new_state = handle_add_op(state, AddOp::ADDREG(VX, VY), 0x200);
    let registers = new_state.registers;

    assert_eq!(registers[VX as usize], 0x0F);  
    assert_eq!(registers[0xF], 0x01);
}

#[test]
fn it_should_add_vx_to_i() {
    const VX:u8 = 0x3;
    let mut registers = [0x0;16];
    registers[VX as usize] = 0x10;

    let state: State = State {
        registers,
        i: 0x15,
        ..Default::default()
    };

    let new_state = handle_add_op(state, AddOp::ADDI(VX), 0x200);
    assert_eq!(0x25, new_state.i)
}
