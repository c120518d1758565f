//! Per-shape decoder tests: each operand shape consumes exactly the bytes
//! its encoding requires and yields the expected instruction.

use sim8086::EnumeratePeekable;
use sim8086::fields::{CsIp as CsIpField, Data, EffectiveAddress, Inc, Operand, Operation, Register, SegmentRegister, Wide};
use sim8086::instruction::Inst;
use sim8086::operands::{
    AccDA, AccImd, AccReg, CsIp, DAAcc, Data16, Data8, FixedPort, Inc16, Inc8, NoOps, NoOps2,
    Reg, RegImd, RegRM, RegRMW, RM, RMImd, RMImdS, RMVW, RMW, SR, SRRM, VariablePort,
};

#[test]
fn reg_rm_reg_to_reg_wide() {
    let bytes: [u8; 2] = [0b10001001, 0b11000011];
    assert_eq!(
        RegRM.decode(bytes[0], &mut EnumeratePeekable::new(&bytes[1..]), Operation::Mov).unwrap(),
        Inst::with_operands(
            Operation::Mov,
            Operand::Register(Register::BX),
            Operand::Register(Register::AX)
        )
    )
}

#[test]
fn reg_rm_reg_to_reg_not_wide() {
    let bytes: [u8; 2] = [0b10001000, 0b11000011];
    assert_eq!(
        RegRM.decode(bytes[0], &mut EnumeratePeekable::new(&bytes[1..]), Operation::Mov).unwrap(),
        Inst::with_operands(
            Operation::Mov,
            Operand::Register(Register::BL),
            Operand::Register(Register::AL)
        )
    )
}

#[test]
fn reg_rm_reg_to_mem_no_disp() {
    let bytes: [u8; 2] = [0b10001000, 0b00010011];
    assert_eq!(
        RegRM.decode(bytes[0], &mut EnumeratePeekable::new(&bytes[1..]), Operation::Mov).unwrap(),
        Inst::with_operands(
            Operation::Mov,
            Operand::EffectiveAddress(EffectiveAddress::BP_DI(None, Wide::Byte)),
            Operand::Register(Register::DL)
        )
    )
}

#[test]
fn reg_rm_reg_to_mem_direct_address() {
    let bytes: [u8; 4] = [0b10001001, 0b00010110, 0b00000001, 0b00000000];
    assert_eq!(
        RegRM.decode(bytes[0], &mut EnumeratePeekable::new(&bytes[1..]), Operation::Mov).unwrap(),
        Inst::with_operands(
            Operation::Mov,
            Operand::EffectiveAddress(EffectiveAddress::DirectAddress(1, Wide::Word)),
            Operand::Register(Register::DX)
        )
    )
}

#[test]
fn reg_rm_reg_to_mem_8bit_disp() {
    let bytes: [u8; 3] = [0b10001000, 0b01001110, 0b00000010];
    assert_eq!(
        RegRM.decode(bytes[0], &mut EnumeratePeekable::new(&bytes[1..]), Operation::Mov).unwrap(),
        Inst::with_operands(
            Operation::Mov,
            Operand::EffectiveAddress(EffectiveAddress::BP(2, Wide::Byte)),
            Operand::Register(Register::CL)
        )
    )
}

#[test]
fn reg_rm_reg_to_mem_16bit_disp() {
    let bytes: [u8; 4] = [0b10001001, 0b10011000, 0b00000000, 0b00000001];
    assert_eq!(
        RegRM.decode(bytes[0], &mut EnumeratePeekable::new(&bytes[1..]), Operation::Mov).unwrap(),
        Inst::with_operands(
            Operation::Mov,
            Operand::EffectiveAddress(EffectiveAddress::BX_SI(Some(256), Wide::Word)),
            Operand::Register(Register::BX)
        )
    )
}

#[test]
fn reg_rm_mem_16bit_disp_to_reg() {
    let bytes: [u8; 4] = [0b10001011, 0b10011000, 0b00000000, 0b00000001];
    assert_eq!(
        RegRM.decode(bytes[0], &mut EnumeratePeekable::new(&bytes[1..]), Operation::Mov).unwrap(),
        Inst::with_operands(
            Operation::Mov,
            Operand::Register(Register::BX),
            Operand::EffectiveAddress(EffectiveAddress::BX_SI(Some(256), Wide::Word))
        )
    )
}

#[test]
fn rm_imd_immediate_to_register_wide() {
    let bytes: [u8; 4] = [0b11000111, 0b11000011, 0b00000100, 0b00000001];
    assert_eq!(
        RMImd.decode(bytes[0], &mut EnumeratePeekable::new(&bytes[1..]), Operation::Mov).unwrap(),
        Inst::with_operands(
            Operation::Mov,
            Operand::Register(Register::BX),
            Operand::Immediate(Data::U16(260))
        )
    )
}

#[test]
fn rm_imd_immediate_to_register_not_wide() {
    let bytes: [u8; 3] = [0b11000110, 0b11000011, 0b00000100];
    assert_eq!(
        RMImd.decode(bytes[0], &mut EnumeratePeekable::new(&bytes[1..]), Operation::Mov).unwrap(),
        Inst::with_operands(
            Operation::Mov,
            Operand::Register(Register::BL),
            Operand::Immediate(Data::U8(4))
        )
    )
}

#[test]
fn rm_imd_immediate_to_mem_no_disp() {
    let bytes: [u8; 3] = [0b11000110, 0b00000011, 0b00000101];
    assert_eq!(
        RMImd.decode(bytes[0], &mut EnumeratePeekable::new(&bytes[1..]), Operation::Mov).unwrap(),
        Inst::with_operands(
            Operation::Mov,
            Operand::EffectiveAddress(EffectiveAddress::BP_DI(None, Wide::Byte)),
            Operand::Immediate(Data::U8(5))
        )
    )
}

#[test]
fn rm_imd_immediate_to_mem_direct_address() {
    let bytes: [u8; 6] = [
        0b11000111, 0b00000110, 0b00000100, 0b00000000, 0b00000000, 0b00000001,
    ];
    assert_eq!(
        RMImd.decode(bytes[0], &mut EnumeratePeekable::new(&bytes[1..]), Operation::Mov).unwrap(),
        Inst::with_operands(
            Operation::Mov,
            Operand::EffectiveAddress(EffectiveAddress::DirectAddress(4, Wide::Word)),
            Operand::Immediate(Data::U16(256))
        )
    )
}

#[test]
fn rm_imd_immediate_to_mem_8bit_disp() {
    let bytes: [u8; 4] = [0b11000110, 0b01000110, 0b00000100, 0b00000000];
    assert_eq!(
        RMImd.decode(bytes[0], &mut EnumeratePeekable::new(&bytes[1..]), Operation::Mov).unwrap(),
        Inst::with_operands(
            Operation::Mov,
            Operand::EffectiveAddress(EffectiveAddress::BP(4, Wide::Byte)),
            Operand::Immediate(Data::U8(0))
        )
    )
}

#[test]
fn rm_imd_immediate_to_mem_16bit_disp() {
    let bytes: [u8; 6] = [
        0b11000111, 0b10000100, 0b00000100, 0b00000000, 0b00000000, 0b00000001,
    ];
    assert_eq!(
        RMImd.decode(bytes[0], &mut EnumeratePeekable::new(&bytes[1..]), Operation::Mov).unwrap(),
        Inst::with_operands(
            Operation::Mov,
            Operand::EffectiveAddress(EffectiveAddress::SI(Some(4), Wide::Word)),
            Operand::Immediate(Data::U16(256))
        )
    )
}

#[test]
fn immediate_to_register_sign() {
    // S is set but W is not: sign extension applies only to the word
    // width, so a plain byte immediate is read
    let bytes: [u8; 3] = [0b10000010, 0b11000011, 0b00000100];
    assert_eq!(
        RMImdS.decode(bytes[0], &mut EnumeratePeekable::new(&bytes[1..]), Operation::Add).unwrap(),
        Inst::with_operands(
            Operation::Add,
            Operand::Register(Register::BL),
            Operand::Immediate(Data::U8(4))
        )
    )
}

#[test]
fn immediate_to_register_sign_extends_word() {
    // S and W both set: one byte, sign-extended to a word
    let bytes: [u8; 3] = [0b10000011, 0b11000011, 0b11111110];
    assert_eq!(
        RMImdS.decode(bytes[0], &mut EnumeratePeekable::new(&bytes[1..]), Operation::Add).unwrap(),
        Inst::with_operands(
            Operation::Add,
            Operand::Register(Register::BX),
            Operand::Immediate(Data::U16(0xFFFE))
        )
    )
}

#[test]
fn immediate_to_register_sign_not_set() {
    let bytes: [u8; 4] = [0b10000001, 0b11000011, 0b00000100, 0b00000001];
    assert_eq!(
        RMImdS.decode(bytes[0], &mut EnumeratePeekable::new(&bytes[1..]), Operation::Add).unwrap(),
        Inst::with_operands(
            Operation::Add,
            Operand::Register(Register::BX),
            Operand::Immediate(Data::U16(260))
        )
    )
}

#[test]
fn reg_imd_not_wide() {
    let bytes: [u8; 2] = [0b10110000, 0b00000001];
    assert_eq!(
        RegImd.decode(bytes[0], &mut EnumeratePeekable::new(&bytes[1..]), Operation::Mov).unwrap(),
        Inst::with_operands(
            Operation::Mov,
            Operand::Register(Register::AL),
            Operand::Immediate(Data::U8(1))
        )
    );
}

#[test]
fn reg_imd_wide() {
    let bytes: [u8; 3] = [0b10111000, 0b00000000, 0b00000001];
    assert_eq!(
        RegImd.decode(bytes[0], &mut EnumeratePeekable::new(&bytes[1..]), Operation::Mov).unwrap(),
        Inst::with_operands(
            Operation::Mov,
            Operand::Register(Register::AX),
            Operand::Immediate(Data::U16(256))
        )
    );
}

#[test]
fn acc_da_not_wide() {
    let bytes: [u8; 2] = [0b10100000, 0b00000001];
    assert_eq!(
        AccDA.decode(bytes[0], &mut EnumeratePeekable::new(&bytes[1..]), Operation::Mov).unwrap(),
        Inst::with_operands(
            Operation::Mov,
            Operand::Register(Register::AL),
            Operand::EffectiveAddress(EffectiveAddress::DirectAddress(1, Wide::Byte))
        )
    );
}

#[test]
fn acc_da_wide() {
    let bytes: [u8; 3] = [0b10100001, 0b00000000, 0b00000001];
    assert_eq!(
        AccDA.decode(bytes[0], &mut EnumeratePeekable::new(&bytes[1..]), Operation::Mov).unwrap(),
        Inst::with_operands(
            Operation::Mov,
            Operand::Register(Register::AX),
            Operand::EffectiveAddress(EffectiveAddress::DirectAddress(256, Wide::Word))
        )
    );
}

#[test]
fn da_acc_not_wide() {
    let bytes: [u8; 2] = [0b10100010, 0b00000001];
    assert_eq!(
        DAAcc.decode(bytes[0], &mut EnumeratePeekable::new(&bytes[1..]), Operation::Mov).unwrap(),
        Inst::with_operands(
            Operation::Mov,
            Operand::EffectiveAddress(EffectiveAddress::DirectAddress(1, Wide::Byte)),
            Operand::Register(Register::AL)
        )
    );
}

#[test]
fn da_acc_wide() {
    let bytes: [u8; 3] = [0b10100011, 0b00000000, 0b00000001];
    assert_eq!(
        DAAcc.decode(bytes[0], &mut EnumeratePeekable::new(&bytes[1..]), Operation::Mov).unwrap(),
        Inst::with_operands(
            Operation::Mov,
            Operand::EffectiveAddress(EffectiveAddress::DirectAddress(256, Wide::Word)),
            Operand::Register(Register::AX),
        )
    );
}

#[test]
fn da_acc_print() {
    let ins = Inst::with_operands(
        Operation::Mov,
        Operand::EffectiveAddress(EffectiveAddress::DirectAddress(256, Wide::Word)),
        Operand::Register(Register::AX),
    );
    assert_eq!(sim8086::text::inst_text(&ins), "mov word [256], ax");
}

#[test]
fn acc_imd_not_wide() {
    let bytes: [u8; 2] = [0b00111100, 0b00000001];
    assert_eq!(
        AccImd.decode(bytes[0], &mut EnumeratePeekable::new(&bytes[1..]), Operation::Cmp).unwrap(),
        Inst::with_operands(
            Operation::Cmp,
            Operand::Register(Register::AL),
            Operand::Immediate(Data::U8(1))
        )
    );
}

#[test]
fn acc_imd_wide() {
    let bytes: [u8; 3] = [0b00111101, 0b00000001, 0b00000001];
    assert_eq!(
        AccImd.decode(bytes[0], &mut EnumeratePeekable::new(&bytes[1..]), Operation::Cmp).unwrap(),
        Inst::with_operands(
            Operation::Cmp,
            Operand::Register(Register::AX),
            Operand::Immediate(Data::U16(257))
        )
    );
}

#[test]
fn acc_reg_reg() {
    let bytes: [u8; 1] = [0b10010110];
    assert_eq!(
        AccReg.decode(bytes[0], &mut EnumeratePeekable::new(&bytes[1..]), Operation::XCHG).unwrap(),
        Inst::with_operands(
            Operation::XCHG,
            Operand::Register(Register::AX),
            Operand::Register(Register::SI),
        )
    )
}

#[test]
fn cs_ip_call() {
    let bytes: [u8; 5] = [0b10011010, 0b11001000, 0b00000001, 0b01111011, 0b00000000];
    assert_eq!(
        CsIp.decode(bytes[0], &mut EnumeratePeekable::new(&bytes[1..]), Operation::Call).unwrap(),
        Inst::with_operand(
            Operation::Call,
            Operand::CsIp(CsIpField {
                code_segment: 123,
                instruction_pointer: 456
            })
        )
    );
}

#[test]
fn ret() {
    let bytes: [u8; 3] = [0b11000010, 0b00000000, 0b00000001];
    assert_eq!(
        Data16.decode(bytes[0], &mut EnumeratePeekable::new(&bytes[1..]), Operation::Ret).unwrap(),
        Inst::with_operand(Operation::Ret, Operand::Immediate(Data::U16(256)))
    );
}

#[test]
fn int_data8() {
    let bytes: [u8; 2] = [0b11001101, 0b0000001];
    assert_eq!(
        Data8.decode(bytes[0], &mut EnumeratePeekable::new(&bytes[1..]), Operation::INT).unwrap(),
        Inst::with_operand(Operation::INT, Operand::Immediate(Data::U8(1)))
    );
}

#[test]
fn fixed_port_wide() {
    let bytes: [u8; 2] = [0b11100101, 0b00000001];
    assert_eq!(
        FixedPort.decode(bytes[0], &mut EnumeratePeekable::new(&bytes[1..]), Operation::IN).unwrap(),
        Inst::with_operands(
            Operation::IN,
            Operand::Register(Register::AX),
            Operand::Immediate(Data::U8(1)),
        )
    );
}

#[test]
fn fixed_port_not_wide() {
    let bytes: [u8; 2] = [0b11100110, 0b00000001];
    assert_eq!(
        FixedPort.decode(bytes[0], &mut EnumeratePeekable::new(&bytes[1..]), Operation::OUT).unwrap(),
        Inst::with_operands(
            Operation::OUT,
            Operand::Immediate(Data::U8(1)),
            Operand::Register(Register::AL),
        )
    );
}

#[test]
fn variable_port_wide() {
    let bytes: [u8; 1] = [0b11101101];
    assert_eq!(
        VariablePort.decode(bytes[0], &mut EnumeratePeekable::new(&bytes[1..]), Operation::IN).unwrap(),
        Inst::with_operands(
            Operation::IN,
            Operand::Register(Register::AX),
            Operand::Register(Register::DX)
        )
    );
}

#[test]
fn variable_port_not_wide() {
    let bytes: [u8; 1] = [0b11101110];
    assert_eq!(
        VariablePort.decode(bytes[0], &mut EnumeratePeekable::new(&bytes[1..]), Operation::OUT).unwrap(),
        Inst::with_operands(
            Operation::OUT,
            Operand::Register(Register::DX),
            Operand::Register(Register::AL)
        )
    );
}

#[test]
fn inc16_call() {
    let bytes: [u8; 3] = [0b11101000, 0b00000000, 0b00000001];
    assert_eq!(
        Inc16.decode(bytes[0], &mut EnumeratePeekable::new(&bytes[1..]), Operation::Call).unwrap(),
        Inst::with_operand(Operation::Call, Operand::Increment(Inc::I16(256)))
    );
}

#[test]
fn je() {
    let bytes: [u8; 2] = [0b01110100, 0b11111110];
    assert_eq!(
        Inc8.decode(bytes[0], &mut EnumeratePeekable::new(&bytes[1..]), Operation::JE).unwrap(),
        Inst::with_operand(Operation::JE, Operand::Increment(Inc::I8(-2)))
    );
}

#[test]
fn xlat() {
    let bytes: [u8; 1] = [0b11010111];
    assert_eq!(
        NoOps.decode(bytes[0], &mut EnumeratePeekable::new(&bytes[1..]), Operation::XLAT).unwrap(),
        Inst::new(Operation::XLAT)
    );
}

#[test]
fn aam() {
    let bytes: [u8; 2] = [0b11010100, 0b00001010];
    let mut stream = EnumeratePeekable::new(&bytes[1..]);
    assert_eq!(
        NoOps2.decode(bytes[0], &mut stream, Operation::AAM).unwrap(),
        Inst::new(Operation::AAM)
    );
    assert!(stream.next().is_none())
}

#[test]
fn reg_reg() {
    let bytes: [u8; 1] = [0b01010011];
    assert_eq!(
        Reg.decode(bytes[0], &mut EnumeratePeekable::new(&bytes[1..]), Operation::Push).unwrap(),
        Inst::with_operand(Operation::Push, Operand::Register(Register::BX))
    )
}

#[test]
fn rm_reg() {
    let bytes: [u8; 2] = [0b11111111, 0b11110011];
    assert_eq!(
        RM.decode(bytes[0], &mut EnumeratePeekable::new(&bytes[1..]), Operation::Push).unwrap(),
        Inst::with_operand(Operation::Push, Operand::Register(Register::BX))
    )
}

#[test]
fn lea() {
    let bytes: [u8; 2] = [0b10001101, 0b11000011];
    assert_eq!(
        RegRMW.decode(bytes[0], &mut EnumeratePeekable::new(&bytes[1..]), Operation::LEA).unwrap(),
        Inst::with_operands(
            Operation::LEA,
            Operand::Register(Register::AX),
            Operand::Register(Register::BX),
        )
    )
}

#[test]
fn inc() {
    let bytes: [u8; 2] = [0b11111111, 0b11000011];
    assert_eq!(
        RMW.decode(bytes[0], &mut EnumeratePeekable::new(&bytes[1..]), Operation::INC).unwrap(),
        Inst::with_operand(Operation::INC, Operand::Register(Register::BX))
    )
}

#[test]
fn one() {
    let bytes: [u8; 2] = [0b11010001, 0b11100011];
    assert_eq!(
        RMVW.decode(bytes[0], &mut EnumeratePeekable::new(&bytes[1..]), Operation::SHL).unwrap(),
        Inst::with_operands(
            Operation::SHL,
            Operand::Register(Register::BX),
            Operand::Immediate(Data::U8(1))
        )
    )
}

#[test]
fn cl() {
    let bytes: [u8; 2] = [0b11010011, 0b11100011];
    assert_eq!(
        RMVW.decode(bytes[0], &mut EnumeratePeekable::new(&bytes[1..]), Operation::SHL).unwrap(),
        Inst::with_operands(
            Operation::SHL,
            Operand::Register(Register::BX),
            Operand::Register(Register::CL)
        )
    )
}

#[test]
fn sr() {
    let bytes: [u8; 1] = [0b00011110];
    assert_eq!(
        SR.decode(bytes[0], &mut EnumeratePeekable::new(&bytes[1..]), Operation::Push).unwrap(),
        Inst::with_operand(Operation::Push, Operand::SR(SegmentRegister::DS))
    )
}

#[test]
fn reg_to_sr() {
    let bytes: [u8; 2] = [0b10001110, 0b11000011];
    assert_eq!(
        SRRM.decode(bytes[0], &mut EnumeratePeekable::new(&bytes[1..]), Operation::Mov).unwrap(),
        Inst::with_operands(
            Operation::Mov,
            Operand::SR(SegmentRegister::ES),
            Operand::Register(Register::BX)
        )
    )
}

#[test]
fn sr_to_reg() {
    let bytes: [u8; 2] = [0b10001100, 0b11000011];
    assert_eq!(
        SRRM.decode(bytes[0], &mut EnumeratePeekable::new(&bytes[1..]), Operation::Mov).unwrap(),
        Inst::with_operands(
            Operation::Mov,
            Operand::Register(Register::BX),
            Operand::SR(SegmentRegister::ES)
        )
    )
}
