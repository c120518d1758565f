//! One test per error the library reports: decoding, program assembly and
//! execution each fail exactly where their contracts say they do.

use sim8086::cpu::{Flags, Memory, Registers};
use sim8086::decode_8086;
use sim8086::fields::{Data, EffectiveAddress, Operand, Operation, Register, Wide};
use sim8086::handlers::{
    handle_arithmetic, handle_logical, handle_mov, ArithmeticOp, ExecError, LogicalOp,
};
use sim8086::instruction::Inst;
use sim8086::program::{Instruction, Program, ProgramError};
use sim8086::simulator::Simulator;

fn plain(op: Operation, first: Option<Operand>, second: Option<Operand>) -> Instruction {
    Instruction { operation: op, first, second, prefix: None, size: 2 }
}

#[test]
fn unsized_instruction_is_refused_by_program_assembly() {
    let bare = Inst::new(Operation::Ret);
    assert_eq!(
        Program::from_insts(vec![bare]).err(),
        Some(ProgramError::UnsizedInstruction)
    );
}

#[test]
fn width_mismatch_in_mov_is_refused() {
    let mut registers = Registers::default();
    let mut memory = Memory::default();
    let inst = plain(
        Operation::Mov,
        Some(Operand::Register(Register::BL)),
        Some(Operand::Register(Register::AX)),
    );
    assert_eq!(
        handle_mov(&inst, &mut registers, &mut memory),
        Err(ExecError::WidthMismatch)
    );
}

#[test]
fn missing_operand_is_refused() {
    let mut registers = Registers::default();
    let mut flags = Flags::default();
    let mut memory = Memory::default();
    let inst = plain(Operation::Add, None, None);
    assert_eq!(
        handle_arithmetic(ArithmeticOp::Add, &inst, &mut registers, &mut flags, &mut memory),
        Err(ExecError::MissingOperand)
    );
}

#[test]
fn mixed_width_arithmetic_is_refused() {
    let mut registers = Registers::default();
    let mut flags = Flags::default();
    let mut memory = Memory::default();
    let inst = plain(
        Operation::Add,
        Some(Operand::Register(Register::BX)),
        Some(Operand::Immediate(Data::U8(1))),
    );
    assert_eq!(
        handle_arithmetic(ArithmeticOp::Add, &inst, &mut registers, &mut flags, &mut memory),
        Err(ExecError::WidthMismatch)
    );
}

#[test]
fn oversized_shift_count_is_refused() {
    let mut registers = Registers::default();
    registers.set_imd(Register::CL, Data::U8(20));
    registers.set_imd(Register::BX, Data::U16(4));
    let mut flags = Flags::default();
    let mut memory = Memory::default();
    let inst = plain(
        Operation::SHR,
        Some(Operand::Register(Register::BX)),
        Some(Operand::Register(Register::CL)),
    );
    assert_eq!(
        handle_logical(LogicalOp::Shr, &inst, &mut registers, &mut flags, &mut memory),
        Err(ExecError::ShiftOutOfRange)
    );
}

#[test]
fn every_base_form_resolves() {
    // all nine base forms resolve to a linear 16-bit address
    let mut registers = Registers::default();
    registers.set_imd(Register::BX, Data::U16(0x1000));
    registers.set_imd(Register::BP, Data::U16(0x2000));
    registers.set_imd(Register::SI, Data::U16(0x0100));
    registers.set_imd(Register::DI, Data::U16(0x0010));
    let w = Wide::Word;
    assert_eq!(registers.calculate_eff_addr(EffectiveAddress::DirectAddress(7, w)), 7);
    assert_eq!(registers.calculate_eff_addr(EffectiveAddress::BX_SI(Some(1), w)), 0x1101);
    assert_eq!(registers.calculate_eff_addr(EffectiveAddress::BX_DI(None, w)), 0x1010);
    assert_eq!(registers.calculate_eff_addr(EffectiveAddress::BP_SI(None, w)), 0x2100);
    assert_eq!(registers.calculate_eff_addr(EffectiveAddress::BP_DI(Some(2), w)), 0x2012);
    assert_eq!(registers.calculate_eff_addr(EffectiveAddress::SI(None, w)), 0x0100);
    assert_eq!(registers.calculate_eff_addr(EffectiveAddress::DI(None, w)), 0x0010);
    assert_eq!(registers.calculate_eff_addr(EffectiveAddress::BP(0xFFFF, w)), 0x1FFF);
    assert_eq!(registers.calculate_eff_addr(EffectiveAddress::BX(None, w)), 0x1000);
}

#[test]
fn word_access_at_the_last_byte_is_refused() {
    let mut registers = Registers::default();
    let mut memory = Memory::default();
    let inst = plain(
        Operation::Mov,
        Some(Operand::EffectiveAddress(EffectiveAddress::DirectAddress(0xFFFF, Wide::Word))),
        Some(Operand::Register(Register::AX)),
    );
    assert_eq!(
        handle_mov(&inst, &mut registers, &mut memory),
        Err(ExecError::AddressOutOfRange)
    );
}

#[test]
fn loop_with_cx_zero_is_refused() {
    // loop $+0 with CX still zero
    let bytes: [u8; 2] = [0xE2, 0xFE];
    let instructions = decode_8086(&bytes[..]).unwrap();
    let mut sim = Simulator::default();
    let mut program = Program::from_insts(instructions).unwrap();
    assert_eq!(sim.exec(&mut program), Err(ExecError::CxUnderflow));
}

#[test]
fn cycle_estimation_refuses_an_instruction_without_an_estimate() {
    // only MOV and ADD forms carry clock estimates
    let bytes: [u8; 2] = [0x29, 0xD9];
    let instructions = decode_8086(&bytes[..]).unwrap();
    let mut sim = Simulator::default();
    sim.enable_cycle_estimation();
    let mut program = Program::from_insts(instructions).unwrap();
    assert_eq!(sim.exec(&mut program), Err(ExecError::UnsupportedClocks));
}

#[test]
fn failing_instruction_commits_nothing() {
    // mov bx, 5 succeeds; hlt fails; bx keeps its value and ip stays at
    // the failing instruction's start
    let bytes: [u8; 4] = [0xBB, 0x05, 0x00, 0xF4];
    let instructions = decode_8086(&bytes[..]).unwrap();
    let mut sim = Simulator::default();
    let mut program = Program::from_insts(instructions).unwrap();
    assert_eq!(sim.exec(&mut program), Err(ExecError::UnsupportedOperation));
    assert_eq!(sim.registers.bx, 5);
    assert_eq!(sim.ip, 3);
}
