//! The dispatcher: an ordered, prefix-free table of masked one- and two-byte
//! opcode patterns. The first matching entry names the operation and the
//! operand shape that decodes the instruction's remaining bytes, or marks a
//! standalone prefix byte. Unknown bytes are a hard error.

use vstd::prelude::*;

use crate::fields::{Operation, SegmentRegister};
use crate::instruction::InstructionPrefix;

verus! {

/// Why decoding failed: a byte pair no table entry matches, or a byte stream
/// exhausted in the middle of an instruction.
#[derive(Clone, Copy, PartialEq, Eq, Structural, Debug)]
pub enum DecodeError {
    /// No table entry matches `first` and (for two-byte patterns) `second`.
    UnknownOpcode { first: u8, second: Option<u8> },
    /// The stream ended before the instruction's bytes were all drawn.
    Truncated,
}

/// The operand shape that an opcode dispatches to; each variant names the
/// decoder that consumes the instruction's remaining bytes.
#[derive(Clone, Copy, PartialEq, Eq, Structural, Debug)]
#[allow(clippy::upper_case_acronyms)]
pub enum OperandShape {
    RegRM,
    RMImd,
    RegImd,
    AccDA,
    DAAcc,
    SRRM,
    RMImdS,
    AccImd,
    Inc8,
    RM,
    Reg,
    SR,
    AccReg,
    FixedPort,
    VariablePort,
    NoOps,
    RegRMW,
    RMW,
    NoOps2,
    RMVW,
    Inc16,
    Data16,
    Data8,
}

/// What a table entry dispatches to: an instruction with its operand shape,
/// or a standalone prefix marker.
#[derive(Clone, Copy, PartialEq, Eq, Structural, Debug)]
pub enum DecoderOut {
    Inst(Operation, OperandShape),
    Prefix(InstructionPrefix),
}

/// The ordered opcode table. An entry matches when the first byte agrees
/// with its pattern under its mask and, for a two-byte pattern, a second
/// byte is available and agrees too; the first match wins. `None` means no
/// entry matches.
pub open spec fn spec_decode_instruction(first: u8, second: Option<u8>) -> Option<DecoderOut> {
    if first & 0xFC == 0x88 {
        Some(DecoderOut::Inst(Operation::Mov, OperandShape::RegRM))
    } else if first & 0xFE == 0xC6 {
        Some(DecoderOut::Inst(Operation::Mov, OperandShape::RMImd))
    } else if first & 0xF0 == 0xB0 {
        Some(DecoderOut::Inst(Operation::Mov, OperandShape::RegImd))
    } else if first & 0xFE == 0xA0 {
        Some(DecoderOut::Inst(Operation::Mov, OperandShape::AccDA))
    } else if first & 0xFE == 0xA2 {
        Some(DecoderOut::Inst(Operation::Mov, OperandShape::DAAcc))
    } else if first & 0xFF == 0x8E {
        Some(DecoderOut::Inst(Operation::Mov, OperandShape::SRRM))
    } else if first & 0xFF == 0x8C {
        Some(DecoderOut::Inst(Operation::Mov, OperandShape::SRRM))
    } else if first & 0xFC == 0x00 {
        Some(DecoderOut::Inst(Operation::Add, OperandShape::RegRM))
    } else if first & 0xFC == 0x80 && second is Some && (second->0 & 0x38) == 0x00 {
        Some(DecoderOut::Inst(Operation::Add, OperandShape::RMImdS))
    } else if first & 0xFE == 0x04 {
        Some(DecoderOut::Inst(Operation::Add, OperandShape::AccImd))
    } else if first & 0xFC == 0x28 {
        Some(DecoderOut::Inst(Operation::Sub, OperandShape::RegRM))
    } else if first & 0xFC == 0x80 && second is Some && (second->0 & 0x38) == 0x28 {
        Some(DecoderOut::Inst(Operation::Sub, OperandShape::RMImdS))
    } else if first & 0xFE == 0x2C {
        Some(DecoderOut::Inst(Operation::Sub, OperandShape::AccImd))
    } else if first & 0xFC == 0x38 {
        Some(DecoderOut::Inst(Operation::Cmp, OperandShape::RegRM))
    } else if first & 0xFC == 0x80 && second is Some && (second->0 & 0x38) == 0x38 {
        Some(DecoderOut::Inst(Operation::Cmp, OperandShape::RMImdS))
    } else if first & 0xFE == 0x3C {
        Some(DecoderOut::Inst(Operation::Cmp, OperandShape::AccImd))
    } else if first & 0xFF == 0x74 {
        Some(DecoderOut::Inst(Operation::JE, OperandShape::Inc8))
    } else if first & 0xFF == 0x7C {
        Some(DecoderOut::Inst(Operation::JL, OperandShape::Inc8))
    } else if first & 0xFF == 0x7E {
        Some(DecoderOut::Inst(Operation::JLE, OperandShape::Inc8))
    } else if first & 0xFF == 0x72 {
        Some(DecoderOut::Inst(Operation::JB, OperandShape::Inc8))
    } else if first & 0xFF == 0x76 {
        Some(DecoderOut::Inst(Operation::JBE, OperandShape::Inc8))
    } else if first & 0xFF == 0x7A {
        Some(DecoderOut::Inst(Operation::JP, OperandShape::Inc8))
    } else if first & 0xFF == 0x70 {
        Some(DecoderOut::Inst(Operation::JO, OperandShape::Inc8))
    } else if first & 0xFF == 0x78 {
        Some(DecoderOut::Inst(Operation::JS, OperandShape::Inc8))
    } else if first & 0xFF == 0x75 {
        Some(DecoderOut::Inst(Operation::JNE, OperandShape::Inc8))
    } else if first & 0xFF == 0x7D {
        Some(DecoderOut::Inst(Operation::JNL, OperandShape::Inc8))
    } else if first & 0xFF == 0x7F {
        Some(DecoderOut::Inst(Operation::JNLE, OperandShape::Inc8))
    } else if first & 0xFF == 0x73 {
        Some(DecoderOut::Inst(Operation::JNB, OperandShape::Inc8))
    } else if first & 0xFF == 0x77 {
        Some(DecoderOut::Inst(Operation::JNBE, OperandShape::Inc8))
    } else if first & 0xFF == 0x7B {
        Some(DecoderOut::Inst(Operation::JNP, OperandShape::Inc8))
    } else if first & 0xFF == 0x71 {
        Some(DecoderOut::Inst(Operation::JNO, OperandShape::Inc8))
    } else if first & 0xFF == 0x79 {
        Some(DecoderOut::Inst(Operation::JNS, OperandShape::Inc8))
    } else if first & 0xFF == 0xE2 {
        Some(DecoderOut::Inst(Operation::LOOP, OperandShape::Inc8))
    } else if first & 0xFF == 0xE1 {
        Some(DecoderOut::Inst(Operation::LOOPZ, OperandShape::Inc8))
    } else if first & 0xFF == 0xE0 {
        Some(DecoderOut::Inst(Operation::LOOPNZ, OperandShape::Inc8))
    } else if first & 0xFF == 0xE3 {
        Some(DecoderOut::Inst(Operation::JCXZ, OperandShape::Inc8))
    } else if first & 0xFF == 0xFF && second is Some && (second->0 & 0x38) == 0x30 {
        Some(DecoderOut::Inst(Operation::Push, OperandShape::RM))
    } else if first & 0xF8 == 0x50 {
        Some(DecoderOut::Inst(Operation::Push, OperandShape::Reg))
    } else if first & 0xE7 == 0x06 {
        Some(DecoderOut::Inst(Operation::Push, OperandShape::SR))
    } else if first & 0xFF == 0x8F && second is Some && (second->0 & 0x38) == 0x00 {
        Some(DecoderOut::Inst(Operation::Pop, OperandShape::RM))
    } else if first & 0xF8 == 0x58 {
        Some(DecoderOut::Inst(Operation::Pop, OperandShape::Reg))
    } else if first & 0xE7 == 0x07 {
        Some(DecoderOut::Inst(Operation::Pop, OperandShape::SR))
    } else if first & 0xFE == 0x86 {
        Some(DecoderOut::Inst(Operation::XCHG, OperandShape::RegRM))
    } else if first & 0xF8 == 0x90 {
        Some(DecoderOut::Inst(Operation::XCHG, OperandShape::AccReg))
    } else if first & 0xFE == 0xE4 {
        Some(DecoderOut::Inst(Operation::IN, OperandShape::FixedPort))
    } else if first & 0xFE == 0xEC {
        Some(DecoderOut::Inst(Operation::IN, OperandShape::VariablePort))
    } else if first & 0xFE == 0xE6 {
        Some(DecoderOut::Inst(Operation::OUT, OperandShape::FixedPort))
    } else if first & 0xFE == 0xEE {
        Some(DecoderOut::Inst(Operation::OUT, OperandShape::VariablePort))
    } else if first & 0xFF == 0xD7 {
        Some(DecoderOut::Inst(Operation::XLAT, OperandShape::NoOps))
    } else if first & 0xFF == 0x8D {
        Some(DecoderOut::Inst(Operation::LEA, OperandShape::RegRMW))
    } else if first & 0xFF == 0xC5 {
        Some(DecoderOut::Inst(Operation::LDS, OperandShape::RegRMW))
    } else if first & 0xFF == 0xC4 {
        Some(DecoderOut::Inst(Operation::LES, OperandShape::RegRMW))
    } else if first & 0xFF == 0x9F {
        Some(DecoderOut::Inst(Operation::LAHF, OperandShape::NoOps))
    } else if first & 0xFF == 0x9E {
        Some(DecoderOut::Inst(Operation::SAHF, OperandShape::NoOps))
    } else if first & 0xFF == 0x9C {
        Some(DecoderOut::Inst(Operation::PUSHF, OperandShape::NoOps))
    } else if first & 0xFF == 0x9D {
        Some(DecoderOut::Inst(Operation::POPF, OperandShape::NoOps))
    } else if first & 0xFC == 0x10 {
        Some(DecoderOut::Inst(Operation::ADC, OperandShape::RegRM))
    } else if first & 0xFC == 0x80 && second is Some && (second->0 & 0x38) == 0x10 {
        Some(DecoderOut::Inst(Operation::ADC, OperandShape::RMImdS))
    } else if first & 0xFE == 0x14 {
        Some(DecoderOut::Inst(Operation::ADC, OperandShape::AccImd))
    } else if first & 0xFE == 0xFE && second is Some && (second->0 & 0x38) == 0x00 {
        Some(DecoderOut::Inst(Operation::INC, OperandShape::RMW))
    } else if first & 0xF8 == 0x40 {
        Some(DecoderOut::Inst(Operation::INC, OperandShape::Reg))
    } else if first & 0xFF == 0x37 {
        Some(DecoderOut::Inst(Operation::AAA, OperandShape::NoOps))
    } else if first & 0xFF == 0x27 {
        Some(DecoderOut::Inst(Operation::DAA, OperandShape::NoOps))
    } else if first & 0xFC == 0x18 {
        Some(DecoderOut::Inst(Operation::SBB, OperandShape::RegRM))
    } else if first & 0xFC == 0x80 && second is Some && (second->0 & 0x38) == 0x18 {
        Some(DecoderOut::Inst(Operation::SBB, OperandShape::RMImdS))
    } else if first & 0xFE == 0x1C {
        Some(DecoderOut::Inst(Operation::SBB, OperandShape::AccImd))
    } else if first & 0xFE == 0xFE && second is Some && (second->0 & 0x38) == 0x08 {
        Some(DecoderOut::Inst(Operation::DEC, OperandShape::RMW))
    } else if first & 0xF8 == 0x48 {
        Some(DecoderOut::Inst(Operation::DEC, OperandShape::Reg))
    } else if first & 0xFE == 0xF6 && second is Some && (second->0 & 0x38) == 0x18 {
        Some(DecoderOut::Inst(Operation::NEG, OperandShape::RMW))
    } else if first & 0xFF == 0x3F {
        Some(DecoderOut::Inst(Operation::AAS, OperandShape::NoOps))
    } else if first & 0xFF == 0x2F {
        Some(DecoderOut::Inst(Operation::DAS, OperandShape::NoOps))
    } else if first & 0xFE == 0xF6 && second is Some && (second->0 & 0x38) == 0x20 {
        Some(DecoderOut::Inst(Operation::MUL, OperandShape::RMW))
    } else if first & 0xFE == 0xF6 && second is Some && (second->0 & 0x38) == 0x28 {
        Some(DecoderOut::Inst(Operation::IMUL, OperandShape::RMW))
    } else if first & 0xFF == 0xD4 && second is Some && (second->0 & 0xFF) == 0x0A {
        Some(DecoderOut::Inst(Operation::AAM, OperandShape::NoOps2))
    } else if first & 0xFF == 0xD5 && second is Some && (second->0 & 0xFF) == 0x0A {
        Some(DecoderOut::Inst(Operation::AAD, OperandShape::NoOps2))
    } else if first & 0xFE == 0xF6 && second is Some && (second->0 & 0x38) == 0x30 {
        Some(DecoderOut::Inst(Operation::DIV, OperandShape::RMW))
    } else if first & 0xFE == 0xF6 && second is Some && (second->0 & 0x38) == 0x38 {
        Some(DecoderOut::Inst(Operation::IDIV, OperandShape::RMW))
    } else if first & 0xFF == 0x98 {
        Some(DecoderOut::Inst(Operation::CBW, OperandShape::NoOps))
    } else if first & 0xFF == 0x99 {
        Some(DecoderOut::Inst(Operation::CWD, OperandShape::NoOps))
    } else if first & 0xFE == 0xF6 && second is Some && (second->0 & 0x38) == 0x10 {
        Some(DecoderOut::Inst(Operation::NOT, OperandShape::RMW))
    } else if first & 0xFC == 0xD0 && second is Some && (second->0 & 0x38) == 0x20 {
        Some(DecoderOut::Inst(Operation::SHL, OperandShape::RMVW))
    } else if first & 0xFC == 0xD0 && second is Some && (second->0 & 0x38) == 0x28 {
        Some(DecoderOut::Inst(Operation::SHR, OperandShape::RMVW))
    } else if first & 0xFC == 0xD0 && second is Some && (second->0 & 0x38) == 0x38 {
        Some(DecoderOut::Inst(Operation::SAR, OperandShape::RMVW))
    } else if first & 0xFC == 0xD0 && second is Some && (second->0 & 0x38) == 0x00 {
        Some(DecoderOut::Inst(Operation::ROL, OperandShape::RMVW))
    } else if first & 0xFC == 0xD0 && second is Some && (second->0 & 0x38) == 0x08 {
        Some(DecoderOut::Inst(Operation::ROR, OperandShape::RMVW))
    } else if first & 0xFC == 0xD0 && second is Some && (second->0 & 0x38) == 0x10 {
        Some(DecoderOut::Inst(Operation::RCL, OperandShape::RMVW))
    } else if first & 0xFC == 0xD0 && second is Some && (second->0 & 0x38) == 0x18 {
        Some(DecoderOut::Inst(Operation::RCR, OperandShape::RMVW))
    } else if first & 0xFC == 0x20 {
        Some(DecoderOut::Inst(Operation::AND, OperandShape::RegRM))
    } else if first & 0xFE == 0x80 && second is Some && (second->0 & 0x38) == 0x20 {
        Some(DecoderOut::Inst(Operation::AND, OperandShape::RMImd))
    } else if first & 0xFE == 0x24 {
        Some(DecoderOut::Inst(Operation::AND, OperandShape::AccImd))
    } else if first & 0xFC == 0x84 {
        Some(DecoderOut::Inst(Operation::TEST, OperandShape::RegRM))
    } else if first & 0xFE == 0xF6 && second is Some && (second->0 & 0x38) == 0x00 {
        Some(DecoderOut::Inst(Operation::TEST, OperandShape::RMImd))
    } else if first & 0xFE == 0xA8 {
        Some(DecoderOut::Inst(Operation::TEST, OperandShape::AccImd))
    } else if first & 0xFC == 0x08 {
        Some(DecoderOut::Inst(Operation::OR, OperandShape::RegRM))
    } else if first & 0xFE == 0x80 && second is Some && (second->0 & 0x38) == 0x08 {
        Some(DecoderOut::Inst(Operation::OR, OperandShape::RMImd))
    } else if first & 0xFE == 0x0C {
        Some(DecoderOut::Inst(Operation::OR, OperandShape::AccImd))
    } else if first & 0xFC == 0x30 {
        Some(DecoderOut::Inst(Operation::XOR, OperandShape::RegRM))
    } else if first & 0xFE == 0x80 && second is Some && (second->0 & 0x38) == 0x30 {
        Some(DecoderOut::Inst(Operation::XOR, OperandShape::RMImd))
    } else if first & 0xFE == 0x34 {
        Some(DecoderOut::Inst(Operation::XOR, OperandShape::AccImd))
    } else if first & 0xFF == 0xA4 {
        Some(DecoderOut::Inst(Operation::MOVSB, OperandShape::NoOps))
    } else if first & 0xFF == 0xA5 {
        Some(DecoderOut::Inst(Operation::MOVSW, OperandShape::NoOps))
    } else if first & 0xFF == 0xAC {
        Some(DecoderOut::Inst(Operation::LODSB, OperandShape::NoOps))
    } else if first & 0xFF == 0xAD {
        Some(DecoderOut::Inst(Operation::LODSW, OperandShape::NoOps))
    } else if first & 0xFF == 0xAA {
        Some(DecoderOut::Inst(Operation::STOSB, OperandShape::NoOps))
    } else if first & 0xFF == 0xAB {
        Some(DecoderOut::Inst(Operation::STOSW, OperandShape::NoOps))
    } else if first & 0xFF == 0xA6 {
        Some(DecoderOut::Inst(Operation::CMPSB, OperandShape::NoOps))
    } else if first & 0xFF == 0xA7 {
        Some(DecoderOut::Inst(Operation::CMPSW, OperandShape::NoOps))
    } else if first & 0xFF == 0xAE {
        Some(DecoderOut::Inst(Operation::SCASB, OperandShape::NoOps))
    } else if first & 0xFF == 0xAF {
        Some(DecoderOut::Inst(Operation::SCASW, OperandShape::NoOps))
    } else if first & 0xFF == 0xE8 {
        Some(DecoderOut::Inst(Operation::Call, OperandShape::Inc16))
    } else if first & 0xFF == 0xFF && second is Some && (second->0 & 0x38) == 0x10 {
        Some(DecoderOut::Inst(Operation::Call, OperandShape::RM))
    } else if first & 0xFF == 0xFF && second is Some && (second->0 & 0x38) == 0x18 {
        Some(DecoderOut::Inst(Operation::Call, OperandShape::RM))
    } else if first & 0xFF == 0xE9 {
        Some(DecoderOut::Inst(Operation::Jmp, OperandShape::Inc16))
    } else if first & 0xFF == 0xEB {
        Some(DecoderOut::Inst(Operation::Jmp, OperandShape::Inc8))
    } else if first & 0xFF == 0xFF && second is Some && (second->0 & 0x38) == 0x20 {
        Some(DecoderOut::Inst(Operation::Jmp, OperandShape::RM))
    } else if first & 0xFF == 0xFF && second is Some && (second->0 & 0x38) == 0x28 {
        Some(DecoderOut::Inst(Operation::Jmp, OperandShape::RM))
    } else if first & 0xFF == 0xC3 {
        Some(DecoderOut::Inst(Operation::Ret, OperandShape::NoOps))
    } else if first & 0xFF == 0xCB {
        Some(DecoderOut::Inst(Operation::Ret, OperandShape::NoOps))
    } else if first & 0xFF == 0xC2 {
        Some(DecoderOut::Inst(Operation::Ret, OperandShape::Data16))
    } else if first & 0xFF == 0xCA {
        Some(DecoderOut::Inst(Operation::Ret, OperandShape::Data16))
    } else if first & 0xFF == 0xCD {
        Some(DecoderOut::Inst(Operation::INT, OperandShape::Data8))
    } else if first & 0xFF == 0xCC {
        Some(DecoderOut::Inst(Operation::INT3, OperandShape::NoOps))
    } else if first & 0xFF == 0xCE {
        Some(DecoderOut::Inst(Operation::INTO, OperandShape::NoOps))
    } else if first & 0xFF == 0xCF {
        Some(DecoderOut::Inst(Operation::IRET, OperandShape::NoOps))
    } else if first & 0xFF == 0xF8 {
        Some(DecoderOut::Inst(Operation::CLC, OperandShape::NoOps))
    } else if first & 0xFF == 0xF5 {
        Some(DecoderOut::Inst(Operation::CMC, OperandShape::NoOps))
    } else if first & 0xFF == 0xF9 {
        Some(DecoderOut::Inst(Operation::STC, OperandShape::NoOps))
    } else if first & 0xFF == 0xFC {
        Some(DecoderOut::Inst(Operation::CLD, OperandShape::NoOps))
    } else if first & 0xFF == 0xFD {
        Some(DecoderOut::Inst(Operation::STD, OperandShape::NoOps))
    } else if first & 0xFF == 0xFA {
        Some(DecoderOut::Inst(Operation::CLI, OperandShape::NoOps))
    } else if first & 0xFF == 0xFB {
        Some(DecoderOut::Inst(Operation::STI, OperandShape::NoOps))
    } else if first & 0xFF == 0xF4 {
        Some(DecoderOut::Inst(Operation::HLT, OperandShape::NoOps))
    } else if first & 0xFF == 0x9B {
        Some(DecoderOut::Inst(Operation::WAIT, OperandShape::NoOps))
    } else if first & 0xFE == 0xF2 {
        Some(DecoderOut::Prefix(InstructionPrefix::Rep))
    } else if first & 0xFF == 0xF0 {
        Some(DecoderOut::Prefix(InstructionPrefix::Lock))
    } else if first & 0xFF == 0x26 {
        Some(DecoderOut::Prefix(InstructionPrefix::SegmentOverride(SegmentRegister::ES)))
    } else if first & 0xFF == 0x2E {
        Some(DecoderOut::Prefix(InstructionPrefix::SegmentOverride(SegmentRegister::CS)))
    } else if first & 0xFF == 0x36 {
        Some(DecoderOut::Prefix(InstructionPrefix::SegmentOverride(SegmentRegister::SS)))
    } else if first & 0xFF == 0x3E {
        Some(DecoderOut::Prefix(InstructionPrefix::SegmentOverride(SegmentRegister::DS)))
    } else {
        None
    }
}

/// The second byte, or zero when there is none; the masked comparison that
/// uses it is guarded by `second.is_some()`.
fn unwrap_or_zero(second: Option<u8>) -> (r: u8)
    ensures
        second is Some ==> r == second->0,
{
    match second {
        Some(b) => b,
        None => 0,
    }
}

/// Scans the table for the first entry matching the byte pair.
pub fn decode_instruction(first: u8, second: Option<u8>) -> (r: Result<DecoderOut, DecodeError>)
    ensures
        match r {
            Ok(out) => spec_decode_instruction(first, second) == Some(out),
            Err(e) => {
                &&& spec_decode_instruction(first, second) is None
                &&& e == (DecodeError::UnknownOpcode { first, second })
            },
        },
{
    let out =
    if first & 0xFC == 0x88 {
        Some(DecoderOut::Inst(Operation::Mov, OperandShape::RegRM))
    } else if first & 0xFE == 0xC6 {
        Some(DecoderOut::Inst(Operation::Mov, OperandShape::RMImd))
    } else if first & 0xF0 == 0xB0 {
        Some(DecoderOut::Inst(Operation::Mov, OperandShape::RegImd))
    } else if first & 0xFE == 0xA0 {
        Some(DecoderOut::Inst(Operation::Mov, OperandShape::AccDA))
    } else if first & 0xFE == 0xA2 {
        Some(DecoderOut::Inst(Operation::Mov, OperandShape::DAAcc))
    } else if first & 0xFF == 0x8E {
        Some(DecoderOut::Inst(Operation::Mov, OperandShape::SRRM))
    } else if first & 0xFF == 0x8C {
        Some(DecoderOut::Inst(Operation::Mov, OperandShape::SRRM))
    } else if first & 0xFC == 0x00 {
        Some(DecoderOut::Inst(Operation::Add, OperandShape::RegRM))
    } else if first & 0xFC == 0x80 && second.is_some() && (unwrap_or_zero(second) & 0x38) == 0x00 {
        Some(DecoderOut::Inst(Operation::Add, OperandShape::RMImdS))
    } else if first & 0xFE == 0x04 {
        Some(DecoderOut::Inst(Operation::Add, OperandShape::AccImd))
    } else if first & 0xFC == 0x28 {
        Some(DecoderOut::Inst(Operation::Sub, OperandShape::RegRM))
    } else if first & 0xFC == 0x80 && second.is_some() && (unwrap_or_zero(second) & 0x38) == 0x28 {
        Some(DecoderOut::Inst(Operation::Sub, OperandShape::RMImdS))
    } else if first & 0xFE == 0x2C {
        Some(DecoderOut::Inst(Operation::Sub, OperandShape::AccImd))
    } else if first & 0xFC == 0x38 {
        Some(DecoderOut::Inst(Operation::Cmp, OperandShape::RegRM))
    } else if first & 0xFC == 0x80 && second.is_some() && (unwrap_or_zero(second) & 0x38) == 0x38 {
        Some(DecoderOut::Inst(Operation::Cmp, OperandShape::RMImdS))
    } else if first & 0xFE == 0x3C {
        Some(DecoderOut::Inst(Operation::Cmp, OperandShape::AccImd))
    } else if first & 0xFF == 0x74 {
        Some(DecoderOut::Inst(Operation::JE, OperandShape::Inc8))
    } else if first & 0xFF == 0x7C {
        Some(DecoderOut::Inst(Operation::JL, OperandShape::Inc8))
    } else if first & 0xFF == 0x7E {
        Some(DecoderOut::Inst(Operation::JLE, OperandShape::Inc8))
    } else if first & 0xFF == 0x72 {
        Some(DecoderOut::Inst(Operation::JB, OperandShape::Inc8))
    } else if first & 0xFF == 0x76 {
        Some(DecoderOut::Inst(Operation::JBE, OperandShape::Inc8))
    } else if first & 0xFF == 0x7A {
        Some(DecoderOut::Inst(Operation::JP, OperandShape::Inc8))
    } else if first & 0xFF == 0x70 {
        Some(DecoderOut::Inst(Operation::JO, OperandShape::Inc8))
    } else if first & 0xFF == 0x78 {
        Some(DecoderOut::Inst(Operation::JS, OperandShape::Inc8))
    } else if first & 0xFF == 0x75 {
        Some(DecoderOut::Inst(Operation::JNE, OperandShape::Inc8))
    } else if first & 0xFF == 0x7D {
        Some(DecoderOut::Inst(Operation::JNL, OperandShape::Inc8))
    } else if first & 0xFF == 0x7F {
        Some(DecoderOut::Inst(Operation::JNLE, OperandShape::Inc8))
    } else if first & 0xFF == 0x73 {
        Some(DecoderOut::Inst(Operation::JNB, OperandShape::Inc8))
    } else if first & 0xFF == 0x77 {
        Some(DecoderOut::Inst(Operation::JNBE, OperandShape::Inc8))
    } else if first & 0xFF == 0x7B {
        Some(DecoderOut::Inst(Operation::JNP, OperandShape::Inc8))
    } else if first & 0xFF == 0x71 {
        Some(DecoderOut::Inst(Operation::JNO, OperandShape::Inc8))
    } else if first & 0xFF == 0x79 {
        Some(DecoderOut::Inst(Operation::JNS, OperandShape::Inc8))
    } else if first & 0xFF == 0xE2 {
        Some(DecoderOut::Inst(Operation::LOOP, OperandShape::Inc8))
    } else if first & 0xFF == 0xE1 {
        Some(DecoderOut::Inst(Operation::LOOPZ, OperandShape::Inc8))
    } else if first & 0xFF == 0xE0 {
        Some(DecoderOut::Inst(Operation::LOOPNZ, OperandShape::Inc8))
    } else if first & 0xFF == 0xE3 {
        Some(DecoderOut::Inst(Operation::JCXZ, OperandShape::Inc8))
    } else if first & 0xFF == 0xFF && second.is_some() && (unwrap_or_zero(second) & 0x38) == 0x30 {
        Some(DecoderOut::Inst(Operation::Push, OperandShape::RM))
    } else if first & 0xF8 == 0x50 {
        Some(DecoderOut::Inst(Operation::Push, OperandShape::Reg))
    } else if first & 0xE7 == 0x06 {
        Some(DecoderOut::Inst(Operation::Push, OperandShape::SR))
    } else if first & 0xFF == 0x8F && second.is_some() && (unwrap_or_zero(second) & 0x38) == 0x00 {
        Some(DecoderOut::Inst(Operation::Pop, OperandShape::RM))
    } else if first & 0xF8 == 0x58 {
        Some(DecoderOut::Inst(Operation::Pop, OperandShape::Reg))
    } else if first & 0xE7 == 0x07 {
        Some(DecoderOut::Inst(Operation::Pop, OperandShape::SR))
    } else if first & 0xFE == 0x86 {
        Some(DecoderOut::Inst(Operation::XCHG, OperandShape::RegRM))
    } else if first & 0xF8 == 0x90 {
        Some(DecoderOut::Inst(Operation::XCHG, OperandShape::AccReg))
    } else if first & 0xFE == 0xE4 {
        Some(DecoderOut::Inst(Operation::IN, OperandShape::FixedPort))
    } else if first & 0xFE == 0xEC {
        Some(DecoderOut::Inst(Operation::IN, OperandShape::VariablePort))
    } else if first & 0xFE == 0xE6 {
        Some(DecoderOut::Inst(Operation::OUT, OperandShape::FixedPort))
    } else if first & 0xFE == 0xEE {
        Some(DecoderOut::Inst(Operation::OUT, OperandShape::VariablePort))
    } else if first & 0xFF == 0xD7 {
        Some(DecoderOut::Inst(Operation::XLAT, OperandShape::NoOps))
    } else if first & 0xFF == 0x8D {
        Some(DecoderOut::Inst(Operation::LEA, OperandShape::RegRMW))
    } else if first & 0xFF == 0xC5 {
        Some(DecoderOut::Inst(Operation::LDS, OperandShape::RegRMW))
    } else if first & 0xFF == 0xC4 {
        Some(DecoderOut::Inst(Operation::LES, OperandShape::RegRMW))
    } else if first & 0xFF == 0x9F {
        Some(DecoderOut::Inst(Operation::LAHF, OperandShape::NoOps))
    } else if first & 0xFF == 0x9E {
        Some(DecoderOut::Inst(Operation::SAHF, OperandShape::NoOps))
    } else if first & 0xFF == 0x9C {
        Some(DecoderOut::Inst(Operation::PUSHF, OperandShape::NoOps))
    } else if first & 0xFF == 0x9D {
        Some(DecoderOut::Inst(Operation::POPF, OperandShape::NoOps))
    } else if first & 0xFC == 0x10 {
        Some(DecoderOut::Inst(Operation::ADC, OperandShape::RegRM))
    } else if first & 0xFC == 0x80 && second.is_some() && (unwrap_or_zero(second) & 0x38) == 0x10 {
        Some(DecoderOut::Inst(Operation::ADC, OperandShape::RMImdS))
    } else if first & 0xFE == 0x14 {
        Some(DecoderOut::Inst(Operation::ADC, OperandShape::AccImd))
    } else if first & 0xFE == 0xFE && second.is_some() && (unwrap_or_zero(second) & 0x38) == 0x00 {
        Some(DecoderOut::Inst(Operation::INC, OperandShape::RMW))
    } else if first & 0xF8 == 0x40 {
        Some(DecoderOut::Inst(Operation::INC, OperandShape::Reg))
    } else if first & 0xFF == 0x37 {
        Some(DecoderOut::Inst(Operation::AAA, OperandShape::NoOps))
    } else if first & 0xFF == 0x27 {
        Some(DecoderOut::Inst(Operation::DAA, OperandShape::NoOps))
    } else if first & 0xFC == 0x18 {
        Some(DecoderOut::Inst(Operation::SBB, OperandShape::RegRM))
    } else if first & 0xFC == 0x80 && second.is_some() && (unwrap_or_zero(second) & 0x38) == 0x18 {
        Some(DecoderOut::Inst(Operation::SBB, OperandShape::RMImdS))
    } else if first & 0xFE == 0x1C {
        Some(DecoderOut::Inst(Operation::SBB, OperandShape::AccImd))
    } else if first & 0xFE == 0xFE && second.is_some() && (unwrap_or_zero(second) & 0x38) == 0x08 {
        Some(DecoderOut::Inst(Operation::DEC, OperandShape::RMW))
    } else if first & 0xF8 == 0x48 {
        Some(DecoderOut::Inst(Operation::DEC, OperandShape::Reg))
    } else if first & 0xFE == 0xF6 && second.is_some() && (unwrap_or_zero(second) & 0x38) == 0x18 {
        Some(DecoderOut::Inst(Operation::NEG, OperandShape::RMW))
    } else if first & 0xFF == 0x3F {
        Some(DecoderOut::Inst(Operation::AAS, OperandShape::NoOps))
    } else if first & 0xFF == 0x2F {
        Some(DecoderOut::Inst(Operation::DAS, OperandShape::NoOps))
    } else if first & 0xFE == 0xF6 && second.is_some() && (unwrap_or_zero(second) & 0x38) == 0x20 {
        Some(DecoderOut::Inst(Operation::MUL, OperandShape::RMW))
    } else if first & 0xFE == 0xF6 && second.is_some() && (unwrap_or_zero(second) & 0x38) == 0x28 {
        Some(DecoderOut::Inst(Operation::IMUL, OperandShape::RMW))
    } else if first & 0xFF == 0xD4 && second.is_some() && (unwrap_or_zero(second) & 0xFF) == 0x0A {
        Some(DecoderOut::Inst(Operation::AAM, OperandShape::NoOps2))
    } else if first & 0xFF == 0xD5 && second.is_some() && (unwrap_or_zero(second) & 0xFF) == 0x0A {
        Some(DecoderOut::Inst(Operation::AAD, OperandShape::NoOps2))
    } else if first & 0xFE == 0xF6 && second.is_some() && (unwrap_or_zero(second) & 0x38) == 0x30 {
        Some(DecoderOut::Inst(Operation::DIV, OperandShape::RMW))
    } else if first & 0xFE == 0xF6 && second.is_some() && (unwrap_or_zero(second) & 0x38) == 0x38 {
        Some(DecoderOut::Inst(Operation::IDIV, OperandShape::RMW))
    } else if first & 0xFF == 0x98 {
        Some(DecoderOut::Inst(Operation::CBW, OperandShape::NoOps))
    } else if first & 0xFF == 0x99 {
        Some(DecoderOut::Inst(Operation::CWD, OperandShape::NoOps))
    } else if first & 0xFE == 0xF6 && second.is_some() && (unwrap_or_zero(second) & 0x38) == 0x10 {
        Some(DecoderOut::Inst(Operation::NOT, OperandShape::RMW))
    } else if first & 0xFC == 0xD0 && second.is_some() && (unwrap_or_zero(second) & 0x38) == 0x20 {
        Some(DecoderOut::Inst(Operation::SHL, OperandShape::RMVW))
    } else if first & 0xFC == 0xD0 && second.is_some() && (unwrap_or_zero(second) & 0x38) == 0x28 {
        Some(DecoderOut::Inst(Operation::SHR, OperandShape::RMVW))
    } else if first & 0xFC == 0xD0 && second.is_some() && (unwrap_or_zero(second) & 0x38) == 0x38 {
        Some(DecoderOut::Inst(Operation::SAR, OperandShape::RMVW))
    } else if first & 0xFC == 0xD0 && second.is_some() && (unwrap_or_zero(second) & 0x38) == 0x00 {
        Some(DecoderOut::Inst(Operation::ROL, OperandShape::RMVW))
    } else if first & 0xFC == 0xD0 && second.is_some() && (unwrap_or_zero(second) & 0x38) == 0x08 {
        Some(DecoderOut::Inst(Operation::ROR, OperandShape::RMVW))
    } else if first & 0xFC == 0xD0 && second.is_some() && (unwrap_or_zero(second) & 0x38) == 0x10 {
        Some(DecoderOut::Inst(Operation::RCL, OperandShape::RMVW))
    } else if first & 0xFC == 0xD0 && second.is_some() && (unwrap_or_zero(second) & 0x38) == 0x18 {
        Some(DecoderOut::Inst(Operation::RCR, OperandShape::RMVW))
    } else if first & 0xFC == 0x20 {
        Some(DecoderOut::Inst(Operation::AND, OperandShape::RegRM))
    } else if first & 0xFE == 0x80 && second.is_some() && (unwrap_or_zero(second) & 0x38) == 0x20 {
        Some(DecoderOut::Inst(Operation::AND, OperandShape::RMImd))
    } else if first & 0xFE == 0x24 {
        Some(DecoderOut::Inst(Operation::AND, OperandShape::AccImd))
    } else if first & 0xFC == 0x84 {
        Some(DecoderOut::Inst(Operation::TEST, OperandShape::RegRM))
    } else if first & 0xFE == 0xF6 && second.is_some() && (unwrap_or_zero(second) & 0x38) == 0x00 {
        Some(DecoderOut::Inst(Operation::TEST, OperandShape::RMImd))
    } else if first & 0xFE == 0xA8 {
        Some(DecoderOut::Inst(Operation::TEST, OperandShape::AccImd))
    } else if first & 0xFC == 0x08 {
        Some(DecoderOut::Inst(Operation::OR, OperandShape::RegRM))
    } else if first & 0xFE == 0x80 && second.is_some() && (unwrap_or_zero(second) & 0x38) == 0x08 {
        Some(DecoderOut::Inst(Operation::OR, OperandShape::RMImd))
    } else if first & 0xFE == 0x0C {
        Some(DecoderOut::Inst(Operation::OR, OperandShape::AccImd))
    } else if first & 0xFC == 0x30 {
        Some(DecoderOut::Inst(Operation::XOR, OperandShape::RegRM))
    } else if first & 0xFE == 0x80 && second.is_some() && (unwrap_or_zero(second) & 0x38) == 0x30 {
        Some(DecoderOut::Inst(Operation::XOR, OperandShape::RMImd))
    } else if first & 0xFE == 0x34 {
        Some(DecoderOut::Inst(Operation::XOR, OperandShape::AccImd))
    } else if first & 0xFF == 0xA4 {
        Some(DecoderOut::Inst(Operation::MOVSB, OperandShape::NoOps))
    } else if first & 0xFF == 0xA5 {
        Some(DecoderOut::Inst(Operation::MOVSW, OperandShape::NoOps))
    } else if first & 0xFF == 0xAC {
        Some(DecoderOut::Inst(Operation::LODSB, OperandShape::NoOps))
    } else if first & 0xFF == 0xAD {
        Some(DecoderOut::Inst(Operation::LODSW, OperandShape::NoOps))
    } else if first & 0xFF == 0xAA {
        Some(DecoderOut::Inst(Operation::STOSB, OperandShape::NoOps))
    } else if first & 0xFF == 0xAB {
        Some(DecoderOut::Inst(Operation::STOSW, OperandShape::NoOps))
    } else if first & 0xFF == 0xA6 {
        Some(DecoderOut::Inst(Operation::CMPSB, OperandShape::NoOps))
    } else if first & 0xFF == 0xA7 {
        Some(DecoderOut::Inst(Operation::CMPSW, OperandShape::NoOps))
    } else if first & 0xFF == 0xAE {
        Some(DecoderOut::Inst(Operation::SCASB, OperandShape::NoOps))
    } else if first & 0xFF == 0xAF {
        Some(DecoderOut::Inst(Operation::SCASW, OperandShape::NoOps))
    } else if first & 0xFF == 0xE8 {
        Some(DecoderOut::Inst(Operation::Call, OperandShape::Inc16))
    } else if first & 0xFF == 0xFF && second.is_some() && (unwrap_or_zero(second) & 0x38) == 0x10 {
        Some(DecoderOut::Inst(Operation::Call, OperandShape::RM))
    } else if first & 0xFF == 0xFF && second.is_some() && (unwrap_or_zero(second) & 0x38) == 0x18 {
        Some(DecoderOut::Inst(Operation::Call, OperandShape::RM))
    } else if first & 0xFF == 0xE9 {
        Some(DecoderOut::Inst(Operation::Jmp, OperandShape::Inc16))
    } else if first & 0xFF == 0xEB {
        Some(DecoderOut::Inst(Operation::Jmp, OperandShape::Inc8))
    } else if first & 0xFF == 0xFF && second.is_some() && (unwrap_or_zero(second) & 0x38) == 0x20 {
        Some(DecoderOut::Inst(Operation::Jmp, OperandShape::RM))
    } else if first & 0xFF == 0xFF && second.is_some() && (unwrap_or_zero(second) & 0x38) == 0x28 {
        Some(DecoderOut::Inst(Operation::Jmp, OperandShape::RM))
    } else if first & 0xFF == 0xC3 {
        Some(DecoderOut::Inst(Operation::Ret, OperandShape::NoOps))
    } else if first & 0xFF == 0xCB {
        Some(DecoderOut::Inst(Operation::Ret, OperandShape::NoOps))
    } else if first & 0xFF == 0xC2 {
        Some(DecoderOut::Inst(Operation::Ret, OperandShape::Data16))
    } else if first & 0xFF == 0xCA {
        Some(DecoderOut::Inst(Operation::Ret, OperandShape::Data16))
    } else if first & 0xFF == 0xCD {
        Some(DecoderOut::Inst(Operation::INT, OperandShape::Data8))
    } else if first & 0xFF == 0xCC {
        Some(DecoderOut::Inst(Operation::INT3, OperandShape::NoOps))
    } else if first & 0xFF == 0xCE {
        Some(DecoderOut::Inst(Operation::INTO, OperandShape::NoOps))
    } else if first & 0xFF == 0xCF {
        Some(DecoderOut::Inst(Operation::IRET, OperandShape::NoOps))
    } else if first & 0xFF == 0xF8 {
        Some(DecoderOut::Inst(Operation::CLC, OperandShape::NoOps))
    } else if first & 0xFF == 0xF5 {
        Some(DecoderOut::Inst(Operation::CMC, OperandShape::NoOps))
    } else if first & 0xFF == 0xF9 {
        Some(DecoderOut::Inst(Operation::STC, OperandShape::NoOps))
    } else if first & 0xFF == 0xFC {
        Some(DecoderOut::Inst(Operation::CLD, OperandShape::NoOps))
    } else if first & 0xFF == 0xFD {
        Some(DecoderOut::Inst(Operation::STD, OperandShape::NoOps))
    } else if first & 0xFF == 0xFA {
        Some(DecoderOut::Inst(Operation::CLI, OperandShape::NoOps))
    } else if first & 0xFF == 0xFB {
        Some(DecoderOut::Inst(Operation::STI, OperandShape::NoOps))
    } else if first & 0xFF == 0xF4 {
        Some(DecoderOut::Inst(Operation::HLT, OperandShape::NoOps))
    } else if first & 0xFF == 0x9B {
        Some(DecoderOut::Inst(Operation::WAIT, OperandShape::NoOps))
    } else if first & 0xFE == 0xF2 {
        Some(DecoderOut::Prefix(InstructionPrefix::Rep))
    } else if first & 0xFF == 0xF0 {
        Some(DecoderOut::Prefix(InstructionPrefix::Lock))
    } else if first & 0xFF == 0x26 {
        Some(DecoderOut::Prefix(InstructionPrefix::SegmentOverride(SegmentRegister::ES)))
    } else if first & 0xFF == 0x2E {
        Some(DecoderOut::Prefix(InstructionPrefix::SegmentOverride(SegmentRegister::CS)))
    } else if first & 0xFF == 0x36 {
        Some(DecoderOut::Prefix(InstructionPrefix::SegmentOverride(SegmentRegister::SS)))
    } else if first & 0xFF == 0x3E {
        Some(DecoderOut::Prefix(InstructionPrefix::SegmentOverride(SegmentRegister::DS)))
    } else {
        None
    };
    match out {
        Some(o) => Ok(o),
        None => Err(DecodeError::UnknownOpcode { first, second }),
    }
}

} // verus!
