//! Register file, handler and simulator unit tests.

use sim8086::cpu::{Flags, Memory, Registers};
use sim8086::fields::{Data, Operand, Operation, Register};
use sim8086::handlers::handle_mov;
use sim8086::instruction::Inst;
use sim8086::program::{Instruction, Program};
use sim8086::simulator::Simulator;

#[test]
fn register_set_16() {
    let mut regs = Registers::default();
    regs.set_imd(Register::BX, Data::U16(8));
    assert_eq!(regs.bx, 8)
}

#[test]
fn register_set_low() {
    let mut regs = Registers::default();
    regs.set_imd(Register::BX, Data::U16(65535));
    regs.set_imd(Register::BL, Data::U8(0));
    assert_eq!(regs.bx, 65280)
}

#[test]
fn register_set_high() {
    let mut regs = Registers::default();
    regs.set_imd(Register::BX, Data::U16(65535));
    regs.set_imd(Register::BH, Data::U8(0));
    assert_eq!(regs.bx, 255)
}

#[test]
fn move_immediate_to_register() {
    let inst = Instruction {
        operation: Operation::Mov,
        first: Some(Operand::Register(Register::BX)),
        second: Some(Operand::Immediate(Data::U16(256))),
        prefix: None,
        size: 4,
    };
    let mut registers = Registers::default();
    let mut memory = Memory::default();
    handle_mov(&inst, &mut registers, &mut memory).unwrap();
    assert_eq!(registers.get(Register::BX), Data::U16(256));
}

#[test]
fn simulator_move_immediate_to_register() {
    let mut mov = Inst::with_operands_v2(
        Operation::Mov,
        Operand::Register(Register::BX),
        Operand::Immediate(Data::U16(256)),
    );
    mov.set_size(3);
    let mut simulator = Simulator::default();
    let mut program = Program::from_insts(vec![mov]).unwrap();
    simulator.exec(&mut program).unwrap();
    assert_eq!(simulator.registers.get(Register::BX), Data::U16(256));
}

#[test]
fn flags_default_all_clear() {
    let flags = Flags::default();
    assert!(!flags.zero && !flags.sign && !flags.parity);
    assert!(!flags.carry && !flags.overflow && !flags.auxiliary);
}

#[test]
fn memory_store_and_load() {
    let mut memory = Memory::default();
    memory.store_16(1000, 0x1234);
    assert_eq!(memory.load_16(1000), 0x1234);
    assert_eq!(memory.load_8(1000), 0x34);
    assert_eq!(memory.load_8(1001), 0x12);
    memory.store_8(1001, 0xFF);
    assert_eq!(memory.load_16(1000), 0xFF34);
}
