//! One decoder per operand shape. Each consumes the trailing bytes its shape
//! requires from the byte stream and yields a fully formed instruction, or
//! `Truncated` when the stream runs dry.
//!
//! The contract of every `decode` pins down the instruction produced, the
//! exact number of bytes consumed, and that `Truncated` comes exactly when
//! the stream is too short.

use vstd::prelude::*;

use crate::EnumeratePeekable;
use crate::decoder::{DecodeError, OperandShape};
use crate::extractors::{
    extract_cs_ip, extract_data, extract_data_s, extract_inc8, extract_inc16, extract_reg,
    extract_rm, extract_sr, is_dest_in_reg_field, is_v_set, is_wide, spec_data, spec_data_len,
    spec_data_s, spec_data_s_len, spec_extract_reg, spec_extract_sr, spec_is_dest_in_reg_field,
    spec_is_v_set, spec_is_wide, spec_le_word, spec_rm, spec_rm_len, spec_wide_size,
};
use crate::fields::{Data, EffectiveAddress, Inc, Operand, Operation, Register};
use crate::instruction::Inst;

verus! {

broadcast use vstd::seq_lib::lemma_seq_skip_of_skip;

/// Reg with R/M (direction and wide bits): the second byte carries
/// mod/reg/r-m; the D bit orders the two operands.
#[derive(Clone, Copy, PartialEq, Eq, Structural, Debug)]
pub struct RegRM;

pub open spec fn spec_regrm_len(first: u8, rest: Seq<u8>) -> nat {
    1 + spec_rm_len(rest[0])
}

pub open spec fn spec_regrm_inst(first: u8, rest: Seq<u8>, op: Operation) -> Inst {
    let second = rest[0];
    let reg = Operand::Register(spec_extract_reg(0x01, 3, first, second));
    let rm = spec_rm(0x01, first, second, rest.skip(1)).spec_to_operand();
    let d = spec_is_dest_in_reg_field(first);
    Inst {
        operation: op,
        first: Some(if d { reg } else { rm }),
        second: Some(if d { rm } else { reg }),
        prefix: None,
        size: None,
    }
}

impl RegRM {
    pub fn decode(
        &self,
        first_byte: u8,
        byte_stream: &mut EnumeratePeekable,
        op: Operation,
    ) -> (r: Result<Inst, DecodeError>)
        requires
            old(byte_stream).wf(),
        ensures
            final(byte_stream).bytes@ == old(byte_stream).bytes@,
            final(byte_stream).wf(),
            ({
                let rest = old(byte_stream).remaining();
                match r {
                    Ok(inst) => {
                        &&& rest.len() >= spec_regrm_len(first_byte, rest)
                        &&& inst == spec_regrm_inst(first_byte, rest, op)
                        &&& final(byte_stream).pos == old(byte_stream).pos + spec_regrm_len(
                            first_byte,
                            rest,
                        )
                    },
                    Err(e) => {
                        &&& rest.len() < spec_regrm_len(first_byte, rest)
                        &&& e == DecodeError::Truncated
                    },
                }
            }),
    {
        let second_byte = match byte_stream.next() {
            Some(b) => b,
            None => {
                return Err(DecodeError::Truncated);
            },
        };
        let reg = Operand::Register(extract_reg(0x01, 3, first_byte, second_byte));
        let is_reg_dest = is_dest_in_reg_field(first_byte);
        let rm = match extract_rm(0x01, first_byte, second_byte, byte_stream) {
            Ok(rm) => rm.to_operand(),
            Err(e) => {
                return Err(e);
            },
        };
        Ok(
            Inst::with_operands(
                op,
                if is_reg_dest { reg } else { rm },
                if is_reg_dest { rm } else { reg },
            ),
        )
    }
}

/// R/M with a following immediate (wide bit): the reg field of the second
/// byte is an opcode extension already matched by the table.
#[derive(Clone, Copy, PartialEq, Eq, Structural, Debug)]
pub struct RMImd;

pub open spec fn spec_rmimd_len(first: u8, rest: Seq<u8>) -> nat {
    1 + spec_rm_len(rest[0]) + spec_data_len(0x01, first)
}

pub open spec fn spec_rmimd_inst(first: u8, rest: Seq<u8>, op: Operation) -> Inst {
    let second = rest[0];
    let rm = spec_rm(0x01, first, second, rest.skip(1)).spec_to_operand();
    let data = spec_data(0x01, first, rest.skip(1 + spec_rm_len(second) as int));
    Inst {
        operation: op,
        first: Some(rm),
        second: Some(Operand::Immediate(data)),
        prefix: None,
        size: None,
    }
}

impl RMImd {
    pub fn decode(
        &self,
        first_byte: u8,
        byte_stream: &mut EnumeratePeekable,
        op: Operation,
    ) -> (r: Result<Inst, DecodeError>)
        requires
            old(byte_stream).wf(),
        ensures
            final(byte_stream).bytes@ == old(byte_stream).bytes@,
            final(byte_stream).wf(),
            ({
                let rest = old(byte_stream).remaining();
                match r {
                    Ok(inst) => {
                        &&& rest.len() >= spec_rmimd_len(first_byte, rest)
                        &&& inst == spec_rmimd_inst(first_byte, rest, op)
                        &&& final(byte_stream).pos == old(byte_stream).pos + spec_rmimd_len(
                            first_byte,
                            rest,
                        )
                    },
                    Err(e) => {
                        &&& rest.len() < spec_rmimd_len(first_byte, rest)
                        &&& e == DecodeError::Truncated
                    },
                }
            }),
    {
        let second_byte = match byte_stream.next() {
            Some(b) => b,
            None => {
                return Err(DecodeError::Truncated);
            },
        };
        let rm = match extract_rm(0x01, first_byte, second_byte, byte_stream) {
            Ok(rm) => rm.to_operand(),
            Err(e) => {
                return Err(e);
            },
        };
        let data = match extract_data(0x01, first_byte, byte_stream) {
            Ok(d) => d,
            Err(e) => {
                return Err(e);
            },
        };
        Ok(Inst::with_operands(op, rm, Operand::Immediate(data)))
    }
}

/// R/M with a sign-extendable immediate (S and W bits).
#[derive(Clone, Copy, PartialEq, Eq, Structural, Debug)]
pub struct RMImdS;

pub open spec fn spec_rmimds_len(first: u8, rest: Seq<u8>) -> nat {
    1 + spec_rm_len(rest[0]) + spec_data_s_len(0x01, first)
}

pub open spec fn spec_rmimds_inst(first: u8, rest: Seq<u8>, op: Operation) -> Inst {
    let second = rest[0];
    let rm = spec_rm(0x01, first, second, rest.skip(1)).spec_to_operand();
    let data = spec_data_s(0x01, first, rest.skip(1 + spec_rm_len(second) as int));
    Inst {
        operation: op,
        first: Some(rm),
        second: Some(Operand::Immediate(data)),
        prefix: None,
        size: None,
    }
}

impl RMImdS {
    pub fn decode(
        &self,
        first_byte: u8,
        byte_stream: &mut EnumeratePeekable,
        op: Operation,
    ) -> (r: Result<Inst, DecodeError>)
        requires
            old(byte_stream).wf(),
        ensures
            final(byte_stream).bytes@ == old(byte_stream).bytes@,
            final(byte_stream).wf(),
            ({
                let rest = old(byte_stream).remaining();
                match r {
                    Ok(inst) => {
                        &&& rest.len() >= spec_rmimds_len(first_byte, rest)
                        &&& inst == spec_rmimds_inst(first_byte, rest, op)
                        &&& final(byte_stream).pos == old(byte_stream).pos + spec_rmimds_len(
                            first_byte,
                            rest,
                        )
                    },
                    Err(e) => {
                        &&& rest.len() < spec_rmimds_len(first_byte, rest)
                        &&& e == DecodeError::Truncated
                    },
                }
            }),
    {
        let second_byte = match byte_stream.next() {
            Some(b) => b,
            None => {
                return Err(DecodeError::Truncated);
            },
        };
        let rm = match extract_rm(0x01, first_byte, second_byte, byte_stream) {
            Ok(rm) => rm.to_operand(),
            Err(e) => {
                return Err(e);
            },
        };
        let data = match extract_data_s(0x01, first_byte, byte_stream) {
            Ok(d) => d,
            Err(e) => {
                return Err(e);
            },
        };
        Ok(Inst::with_operands(op, rm, Operand::Immediate(data)))
    }
}

/// Register named in the low bits of the first byte, with an immediate.
/// The wide bit is bit 3 of the first byte.
#[derive(Clone, Copy, PartialEq, Eq, Structural, Debug)]
pub struct RegImd;

pub open spec fn spec_regimd_len(first: u8, rest: Seq<u8>) -> nat {
    spec_data_len(0x08, first)
}

pub open spec fn spec_regimd_inst(first: u8, rest: Seq<u8>, op: Operation) -> Inst {
    let reg = Operand::Register(spec_extract_reg(0x08, 0, first, first));
    let data = spec_data(0x08, first, rest);
    Inst {
        operation: op,
        first: Some(reg),
        second: Some(Operand::Immediate(data)),
        prefix: None,
        size: None,
    }
}

impl RegImd {
    pub fn decode(
        &self,
        first_byte: u8,
        byte_stream: &mut EnumeratePeekable,
        op: Operation,
    ) -> (r: Result<Inst, DecodeError>)
        requires
            old(byte_stream).wf(),
        ensures
            final(byte_stream).bytes@ == old(byte_stream).bytes@,
            final(byte_stream).wf(),
            ({
                let rest = old(byte_stream).remaining();
                match r {
                    Ok(inst) => {
                        &&& rest.len() >= spec_regimd_len(first_byte, rest)
                        &&& inst == spec_regimd_inst(first_byte, rest, op)
                        &&& final(byte_stream).pos == old(byte_stream).pos + spec_regimd_len(
                            first_byte,
                            rest,
                        )
                    },
                    Err(e) => {
                        &&& rest.len() < spec_regimd_len(first_byte, rest)
                        &&& e == DecodeError::Truncated
                    },
                }
            }),
    {
        let reg = Operand::Register(extract_reg(0x08, 0, first_byte, first_byte));
        let data = match extract_data(0x08, first_byte, byte_stream) {
            Ok(d) => d,
            Err(e) => {
                return Err(e);
            },
        };
        Ok(Inst::with_operands(op, reg, Operand::Immediate(data)))
    }
}

/// The accumulator register selected by the W bit: AX when wide, else AL.
pub open spec fn spec_accumulator(first: u8) -> Operand {
    Operand::Register(if spec_is_wide(0x01, first) { Register::AX } else { Register::AL })
}

/// A direct address drawn from the immediate bytes, tagged with the width
/// the W bit selects.
pub open spec fn spec_direct_address(first: u8, rest: Seq<u8>) -> Operand {
    Operand::EffectiveAddress(
        EffectiveAddress::DirectAddress(
            spec_data(0x01, first, rest).spec_to_u16(),
            spec_wide_size(0x01, first),
        ),
    )
}

/// Accumulator with a direct address, accumulator first.
#[derive(Clone, Copy, PartialEq, Eq, Structural, Debug)]
pub struct AccDA;

pub open spec fn spec_accda_len(first: u8, rest: Seq<u8>) -> nat {
    spec_data_len(0x01, first)
}

pub open spec fn spec_accda_inst(first: u8, rest: Seq<u8>, op: Operation) -> Inst {
    Inst {
        operation: op,
        first: Some(spec_accumulator(first)),
        second: Some(spec_direct_address(first, rest)),
        prefix: None,
        size: None,
    }
}

impl AccDA {
    pub fn decode(
        &self,
        first_byte: u8,
        byte_stream: &mut EnumeratePeekable,
        op: Operation,
    ) -> (r: Result<Inst, DecodeError>)
        requires
            old(byte_stream).wf(),
        ensures
            final(byte_stream).bytes@ == old(byte_stream).bytes@,
            final(byte_stream).wf(),
            ({
                let rest = old(byte_stream).remaining();
                match r {
                    Ok(inst) => {
                        &&& rest.len() >= spec_accda_len(first_byte, rest)
                        &&& inst == spec_accda_inst(first_byte, rest, op)
                        &&& final(byte_stream).pos == old(byte_stream).pos + spec_accda_len(
                            first_byte,
                            rest,
                        )
                    },
                    Err(e) => {
                        &&& rest.len() < spec_accda_len(first_byte, rest)
                        &&& e == DecodeError::Truncated
                    },
                }
            }),
    {
        let wide = is_wide(0x01, first_byte);
        let ws = crate::extractors::get_wide_size(0x01, first_byte);
        let data = match extract_data(0x01, first_byte, byte_stream) {
            Ok(d) => d,
            Err(e) => {
                return Err(e);
            },
        };
        let acc = Operand::Register(if wide { Register::AX } else { Register::AL });
        let direct_address = Operand::EffectiveAddress(
            EffectiveAddress::DirectAddress(data.to_u16(), ws),
        );
        Ok(Inst::with_operands(op, acc, direct_address))
    }
}

/// Accumulator with a direct address, direct address first.
#[derive(Clone, Copy, PartialEq, Eq, Structural, Debug)]
pub struct DAAcc;

pub open spec fn spec_daacc_len(first: u8, rest: Seq<u8>) -> nat {
    spec_data_len(0x01, first)
}

pub open spec fn spec_daacc_inst(first: u8, rest: Seq<u8>, op: Operation) -> Inst {
    Inst {
        operation: op,
        first: Some(spec_direct_address(first, rest)),
        second: Some(spec_accumulator(first)),
        prefix: None,
        size: None,
    }
}

impl DAAcc {
    pub fn decode(
        &self,
        first_byte: u8,
        byte_stream: &mut EnumeratePeekable,
        op: Operation,
    ) -> (r: Result<Inst, DecodeError>)
        requires
            old(byte_stream).wf(),
        ensures
            final(byte_stream).bytes@ == old(byte_stream).bytes@,
            final(byte_stream).wf(),
            ({
                let rest = old(byte_stream).remaining();
                match r {
                    Ok(inst) => {
                        &&& rest.len() >= spec_daacc_len(first_byte, rest)
                        &&& inst == spec_daacc_inst(first_byte, rest, op)
                        &&& final(byte_stream).pos == old(byte_stream).pos + spec_daacc_len(
                            first_byte,
                            rest,
                        )
                    },
                    Err(e) => {
                        &&& rest.len() < spec_daacc_len(first_byte, rest)
                        &&& e == DecodeError::Truncated
                    },
                }
            }),
    {
        let wide = is_wide(0x01, first_byte);
        let ws = crate::extractors::get_wide_size(0x01, first_byte);
        let data = match extract_data(0x01, first_byte, byte_stream) {
            Ok(d) => d,
            Err(e) => {
                return Err(e);
            },
        };
        let acc = Operand::Register(if wide { Register::AX } else { Register::AL });
        let direct_address = Operand::EffectiveAddress(
            EffectiveAddress::DirectAddress(data.to_u16(), ws),
        );
        Ok(Inst::with_operands(op, direct_address, acc))
    }
}

/// Accumulator with an immediate.
#[derive(Clone, Copy, PartialEq, Eq, Structural, Debug)]
pub struct AccImd;

pub open spec fn spec_accimd_len(first: u8, rest: Seq<u8>) -> nat {
    spec_data_len(0x01, first)
}

pub open spec fn spec_accimd_inst(first: u8, rest: Seq<u8>, op: Operation) -> Inst {
    Inst {
        operation: op,
        first: Some(spec_accumulator(first)),
        second: Some(Operand::Immediate(spec_data(0x01, first, rest))),
        prefix: None,
        size: None,
    }
}

impl AccImd {
    pub fn decode(
        &self,
        first_byte: u8,
        byte_stream: &mut EnumeratePeekable,
        op: Operation,
    ) -> (r: Result<Inst, DecodeError>)
        requires
            old(byte_stream).wf(),
        ensures
            final(byte_stream).bytes@ == old(byte_stream).bytes@,
            final(byte_stream).wf(),
            ({
                let rest = old(byte_stream).remaining();
                match r {
                    Ok(inst) => {
                        &&& rest.len() >= spec_accimd_len(first_byte, rest)
                        &&& inst == spec_accimd_inst(first_byte, rest, op)
                        &&& final(byte_stream).pos == old(byte_stream).pos + spec_accimd_len(
                            first_byte,
                            rest,
                        )
                    },
                    Err(e) => {
                        &&& rest.len() < spec_accimd_len(first_byte, rest)
                        &&& e == DecodeError::Truncated
                    },
                }
            }),
    {
        let wide = is_wide(0x01, first_byte);
        let data = match extract_data(0x01, first_byte, byte_stream) {
            Ok(d) => d,
            Err(e) => {
                return Err(e);
            },
        };
        let acc = Operand::Register(if wide { Register::AX } else { Register::AL });
        Ok(Inst::with_operands(op, acc, Operand::Immediate(data)))
    }
}

/// XCHG of AX with the register in the low bits of the first byte; always
/// 16-bit.
#[derive(Clone, Copy, PartialEq, Eq, Structural, Debug)]
pub struct AccReg;

pub open spec fn spec_accreg_inst(first: u8, op: Operation) -> Inst {
    Inst {
        operation: op,
        first: Some(Operand::Register(Register::AX)),
        second: Some(Operand::Register(spec_extract_reg(0, 0, first, first))),
        prefix: None,
        size: None,
    }
}

impl AccReg {
    pub fn decode(
        &self,
        first_byte: u8,
        byte_stream: &mut EnumeratePeekable,
        op: Operation,
    ) -> (r: Result<Inst, DecodeError>)
        requires
            old(byte_stream).wf(),
        ensures
            *final(byte_stream) == *old(byte_stream),
            r == Ok::<Inst, DecodeError>(spec_accreg_inst(first_byte, op)),
    {
        let reg = Operand::Register(extract_reg(0, 0, first_byte, first_byte));
        Ok(Inst::with_operands(op, Operand::Register(Register::AX), reg))
    }
}

/// A register implicit in the low bits of the first byte; always 16-bit.
#[derive(Clone, Copy, PartialEq, Eq, Structural, Debug)]
pub struct Reg;

pub open spec fn spec_reg_inst(first: u8, op: Operation) -> Inst {
    Inst {
        operation: op,
        first: Some(Operand::Register(spec_extract_reg(0, 0, first, first))),
        second: None,
        prefix: None,
        size: None,
    }
}

impl Reg {
    pub fn decode(
        &self,
        first_byte: u8,
        byte_stream: &mut EnumeratePeekable,
        op: Operation,
    ) -> (r: Result<Inst, DecodeError>)
        requires
            old(byte_stream).wf(),
        ensures
            *final(byte_stream) == *old(byte_stream),
            r == Ok::<Inst, DecodeError>(spec_reg_inst(first_byte, op)),
    {
        let reg = Operand::Register(extract_reg(0, 0, first_byte, first_byte));
        Ok(Inst::with_operand(op, reg))
    }
}

/// A segment register in bits 4..3 of the first byte.
#[derive(Clone, Copy, PartialEq, Eq, Structural, Debug)]
pub struct SR;

pub open spec fn spec_sr_inst(first: u8, op: Operation) -> Inst {
    Inst {
        operation: op,
        first: Some(Operand::SR(spec_extract_sr(3, first))),
        second: None,
        prefix: None,
        size: None,
    }
}

impl SR {
    pub fn decode(
        &self,
        first_byte: u8,
        byte_stream: &mut EnumeratePeekable,
        op: Operation,
    ) -> (r: Result<Inst, DecodeError>)
        requires
            old(byte_stream).wf(),
        ensures
            *final(byte_stream) == *old(byte_stream),
            r == Ok::<Inst, DecodeError>(spec_sr_inst(first_byte, op)),
    {
        let sr = Operand::SR(extract_sr(3, first_byte));
        Ok(Inst::with_operand(op, sr))
    }
}

/// Segment register with R/M: the second byte carries mod/r-m and, in bits
/// 4..3, the segment register; the D bit orders the operands. Always 16-bit.
#[derive(Clone, Copy, PartialEq, Eq, Structural, Debug)]
pub struct SRRM;

pub open spec fn spec_srrm_len(first: u8, rest: Seq<u8>) -> nat {
    1 + spec_rm_len(rest[0])
}

pub open spec fn spec_srrm_inst(first: u8, rest: Seq<u8>, op: Operation) -> Inst {
    let second = rest[0];
    let sr = Operand::SR(spec_extract_sr(3, second));
    let rm = spec_rm(0, first, second, rest.skip(1)).spec_to_operand();
    let d = spec_is_dest_in_reg_field(first);
    Inst {
        operation: op,
        first: Some(if d { sr } else { rm }),
        second: Some(if d { rm } else { sr }),
        prefix: None,
        size: None,
    }
}

impl SRRM {
    pub fn decode(
        &self,
        first_byte: u8,
        byte_stream: &mut EnumeratePeekable,
        op: Operation,
    ) -> (r: Result<Inst, DecodeError>)
        requires
            old(byte_stream).wf(),
        ensures
            final(byte_stream).bytes@ == old(byte_stream).bytes@,
            final(byte_stream).wf(),
            ({
                let rest = old(byte_stream).remaining();
                match r {
                    Ok(inst) => {
                        &&& rest.len() >= spec_srrm_len(first_byte, rest)
                        &&& inst == spec_srrm_inst(first_byte, rest, op)
                        &&& final(byte_stream).pos == old(byte_stream).pos + spec_srrm_len(
                            first_byte,
                            rest,
                        )
                    },
                    Err(e) => {
                        &&& rest.len() < spec_srrm_len(first_byte, rest)
                        &&& e == DecodeError::Truncated
                    },
                }
            }),
    {
        let second_byte = match byte_stream.next() {
            Some(b) => b,
            None => {
                return Err(DecodeError::Truncated);
            },
        };
        let sr = Operand::SR(extract_sr(3, second_byte));
        let is_sr_dest = is_dest_in_reg_field(first_byte);
        let rm = match extract_rm(0, first_byte, second_byte, byte_stream) {
            Ok(rm) => rm.to_operand(),
            Err(e) => {
                return Err(e);
            },
        };
        Ok(
            Inst::with_operands(
                op,
                if is_sr_dest { sr } else { rm },
                if is_sr_dest { rm } else { sr },
            ),
        )
    }
}

/// Reg with R/M, always 16-bit and reg always the destination (LEA, LDS,
/// LES).
#[derive(Clone, Copy, PartialEq, Eq, Structural, Debug)]
pub struct RegRMW;

pub open spec fn spec_regrmw_len(first: u8, rest: Seq<u8>) -> nat {
    1 + spec_rm_len(rest[0])
}

pub open spec fn spec_regrmw_inst(first: u8, rest: Seq<u8>, op: Operation) -> Inst {
    let second = rest[0];
    let reg = Operand::Register(spec_extract_reg(0, 3, first, second));
    let rm = spec_rm(0, first, second, rest.skip(1)).spec_to_operand();
    Inst { operation: op, first: Some(reg), second: Some(rm), prefix: None, size: None }
}

impl RegRMW {
    pub fn decode(
        &self,
        first_byte: u8,
        byte_stream: &mut EnumeratePeekable,
        op: Operation,
    ) -> (r: Result<Inst, DecodeError>)
        requires
            old(byte_stream).wf(),
        ensures
            final(byte_stream).bytes@ == old(byte_stream).bytes@,
            final(byte_stream).wf(),
            ({
                let rest = old(byte_stream).remaining();
                match r {
                    Ok(inst) => {
                        &&& rest.len() >= spec_regrmw_len(first_byte, rest)
                        &&& inst == spec_regrmw_inst(first_byte, rest, op)
                        &&& final(byte_stream).pos == old(byte_stream).pos + spec_regrmw_len(
                            first_byte,
                            rest,
                        )
                    },
                    Err(e) => {
                        &&& rest.len() < spec_regrmw_len(first_byte, rest)
                        &&& e == DecodeError::Truncated
                    },
                }
            }),
    {
        let second_byte = match byte_stream.next() {
            Some(b) => b,
            None => {
                return Err(DecodeError::Truncated);
            },
        };
        let reg = Operand::Register(extract_reg(0, 3, first_byte, second_byte));
        let rm = match extract_rm(0, first_byte, second_byte, byte_stream) {
            Ok(rm) => rm.to_operand(),
            Err(e) => {
                return Err(e);
            },
        };
        Ok(Inst::with_operands(op, reg, rm))
    }
}

/// A lone R/M operand with no W bit; registers are 16-bit and memory
/// operands carry no width tag of their own.
#[derive(Clone, Copy, PartialEq, Eq, Structural, Debug)]
pub struct RM;

pub open spec fn spec_rmshape_len(first: u8, rest: Seq<u8>) -> nat {
    1 + spec_rm_len(rest[0])
}

pub open spec fn spec_rmshape_inst(first: u8, rest: Seq<u8>, op: Operation) -> Inst {
    let second = rest[0];
    let rm = spec_rm(0, first, second, rest.skip(1)).spec_to_operand();
    Inst { operation: op, first: Some(rm), second: None, prefix: None, size: None }
}

impl RM {
    pub fn decode(
        &self,
        first_byte: u8,
        byte_stream: &mut EnumeratePeekable,
        op: Operation,
    ) -> (r: Result<Inst, DecodeError>)
        requires
            old(byte_stream).wf(),
        ensures
            final(byte_stream).bytes@ == old(byte_stream).bytes@,
            final(byte_stream).wf(),
            ({
                let rest = old(byte_stream).remaining();
                match r {
                    Ok(inst) => {
                        &&& rest.len() >= spec_rmshape_len(first_byte, rest)
                        &&& inst == spec_rmshape_inst(first_byte, rest, op)
                        &&& final(byte_stream).pos == old(byte_stream).pos + spec_rmshape_len(
                            first_byte,
                            rest,
                        )
                    },
                    Err(e) => {
                        &&& rest.len() < spec_rmshape_len(first_byte, rest)
                        &&& e == DecodeError::Truncated
                    },
                }
            }),
    {
        let second_byte = match byte_stream.next() {
            Some(b) => b,
            None => {
                return Err(DecodeError::Truncated);
            },
        };
        let rm = match extract_rm(0, first_byte, second_byte, byte_stream) {
            Ok(rm) => rm.to_operand(),
            Err(e) => {
                return Err(e);
            },
        };
        Ok(Inst::with_operand(op, rm))
    }
}

/// A lone R/M operand with a W bit (INC, DEC, NEG, MUL and friends).
#[derive(Clone, Copy, PartialEq, Eq, Structural, Debug)]
pub struct RMW;

pub open spec fn spec_rmw_len(first: u8, rest: Seq<u8>) -> nat {
    1 + spec_rm_len(rest[0])
}

pub open spec fn spec_rmw_inst(first: u8, rest: Seq<u8>, op: Operation) -> Inst {
    let second = rest[0];
    let rm = spec_rm(0x01, first, second, rest.skip(1)).spec_to_operand();
    Inst { operation: op, first: Some(rm), second: None, prefix: None, size: None }
}

impl RMW {
    pub fn decode(
        &self,
        first_byte: u8,
        byte_stream: &mut EnumeratePeekable,
        op: Operation,
    ) -> (r: Result<Inst, DecodeError>)
        requires
            old(byte_stream).wf(),
        ensures
            final(byte_stream).bytes@ == old(byte_stream).bytes@,
            final(byte_stream).wf(),
            ({
                let rest = old(byte_stream).remaining();
                match r {
                    Ok(inst) => {
                        &&& rest.len() >= spec_rmw_len(first_byte, rest)
                        &&& inst == spec_rmw_inst(first_byte, rest, op)
                        &&& final(byte_stream).pos == old(byte_stream).pos + spec_rmw_len(
                            first_byte,
                            rest,
                        )
                    },
                    Err(e) => {
                        &&& rest.len() < spec_rmw_len(first_byte, rest)
                        &&& e == DecodeError::Truncated
                    },
                }
            }),
    {
        let second_byte = match byte_stream.next() {
            Some(b) => b,
            None => {
                return Err(DecodeError::Truncated);
            },
        };
        let rm = match extract_rm(0x01, first_byte, second_byte, byte_stream) {
            Ok(rm) => rm.to_operand(),
            Err(e) => {
                return Err(e);
            },
        };
        Ok(Inst::with_operand(op, rm))
    }
}

/// R/M with a variable shift count: the V bit selects CL or the literal 1.
#[derive(Clone, Copy, PartialEq, Eq, Structural, Debug)]
pub struct RMVW;

pub open spec fn spec_rmvw_len(first: u8, rest: Seq<u8>) -> nat {
    1 + spec_rm_len(rest[0])
}

pub open spec fn spec_rmvw_inst(first: u8, rest: Seq<u8>, op: Operation) -> Inst {
    let second = rest[0];
    let rm = spec_rm(0x01, first, second, rest.skip(1)).spec_to_operand();
    let count = if spec_is_v_set(first) {
        Operand::Register(Register::CL)
    } else {
        Operand::Immediate(Data::U8(1))
    };
    Inst { operation: op, first: Some(rm), second: Some(count), prefix: None, size: None }
}

impl RMVW {
    pub fn decode(
        &self,
        first_byte: u8,
        byte_stream: &mut EnumeratePeekable,
        op: Operation,
    ) -> (r: Result<Inst, DecodeError>)
        requires
            old(byte_stream).wf(),
        ensures
            final(byte_stream).bytes@ == old(byte_stream).bytes@,
            final(byte_stream).wf(),
            ({
                let rest = old(byte_stream).remaining();
                match r {
                    Ok(inst) => {
                        &&& rest.len() >= spec_rmvw_len(first_byte, rest)
                        &&& inst == spec_rmvw_inst(first_byte, rest, op)
                        &&& final(byte_stream).pos == old(byte_stream).pos + spec_rmvw_len(
                            first_byte,
                            rest,
                        )
                    },
                    Err(e) => {
                        &&& rest.len() < spec_rmvw_len(first_byte, rest)
                        &&& e == DecodeError::Truncated
                    },
                }
            }),
    {
        let second_byte = match byte_stream.next() {
            Some(b) => b,
            None => {
                return Err(DecodeError::Truncated);
            },
        };
        let rm = match extract_rm(0x01, first_byte, second_byte, byte_stream) {
            Ok(rm) => rm.to_operand(),
            Err(e) => {
                return Err(e);
            },
        };
        let v = is_v_set(first_byte);
        let count = if v {
            Operand::Register(Register::CL)
        } else {
            Operand::Immediate(Data::U8(1))
        };
        Ok(Inst::with_operands(op, rm, count))
    }
}

/// An 8-bit signed jump increment.
#[derive(Clone, Copy, PartialEq, Eq, Structural, Debug)]
pub struct Inc8;

pub open spec fn spec_inc8_inst(rest: Seq<u8>, op: Operation) -> Inst {
    Inst {
        operation: op,
        first: Some(Operand::Increment(Inc::I8(rest[0] as i8))),
        second: None,
        prefix: None,
        size: None,
    }
}

impl Inc8 {
    pub fn decode(
        &self,
        first_byte: u8,
        byte_stream: &mut EnumeratePeekable,
        op: Operation,
    ) -> (r: Result<Inst, DecodeError>)
        requires
            old(byte_stream).wf(),
        ensures
            final(byte_stream).bytes@ == old(byte_stream).bytes@,
            final(byte_stream).wf(),
            ({
                let rest = old(byte_stream).remaining();
                match r {
                    Ok(inst) => {
                        &&& rest.len() >= 1
                        &&& inst == spec_inc8_inst(rest, op)
                        &&& final(byte_stream).pos == old(byte_stream).pos + 1
                    },
                    Err(e) => {
                        &&& rest.len() < 1
                        &&& e == DecodeError::Truncated
                    },
                }
            }),
    {
        let inc = match extract_inc8(byte_stream) {
            Ok(i) => i,
            Err(e) => {
                return Err(e);
            },
        };
        Ok(Inst::with_operand(op, Operand::Increment(inc)))
    }
}

/// A 16-bit signed jump increment.
#[derive(Clone, Copy, PartialEq, Eq, Structural, Debug)]
pub struct Inc16;

pub open spec fn spec_inc16_inst(rest: Seq<u8>, op: Operation) -> Inst {
    Inst {
        operation: op,
        first: Some(Operand::Increment(Inc::I16(spec_le_word(rest[0], rest[1]) as i16))),
        second: None,
        prefix: None,
        size: None,
    }
}

impl Inc16 {
    pub fn decode(
        &self,
        first_byte: u8,
        byte_stream: &mut EnumeratePeekable,
        op: Operation,
    ) -> (r: Result<Inst, DecodeError>)
        requires
            old(byte_stream).wf(),
        ensures
            final(byte_stream).bytes@ == old(byte_stream).bytes@,
            final(byte_stream).wf(),
            ({
                let rest = old(byte_stream).remaining();
                match r {
                    Ok(inst) => {
                        &&& rest.len() >= 2
                        &&& inst == spec_inc16_inst(rest, op)
                        &&& final(byte_stream).pos == old(byte_stream).pos + 2
                    },
                    Err(e) => {
                        &&& rest.len() < 2
                        &&& e == DecodeError::Truncated
                    },
                }
            }),
    {
        let inc = match extract_inc16(byte_stream) {
            Ok(i) => i,
            Err(e) => {
                return Err(e);
            },
        };
        Ok(Inst::with_operand(op, Operand::Increment(inc)))
    }
}

/// A lone byte immediate (INT n).
#[derive(Clone, Copy, PartialEq, Eq, Structural, Debug)]
pub struct Data8;

pub open spec fn spec_data8_inst(rest: Seq<u8>, op: Operation) -> Inst {
    Inst {
        operation: op,
        first: Some(Operand::Immediate(Data::U8(rest[0]))),
        second: None,
        prefix: None,
        size: None,
    }
}

impl Data8 {
    pub fn decode(
        &self,
        first_byte: u8,
        byte_stream: &mut EnumeratePeekable,
        op: Operation,
    ) -> (r: Result<Inst, DecodeError>)
        requires
            old(byte_stream).wf(),
        ensures
            final(byte_stream).bytes@ == old(byte_stream).bytes@,
            final(byte_stream).wf(),
            ({
                let rest = old(byte_stream).remaining();
                match r {
                    Ok(inst) => {
                        &&& rest.len() >= 1
                        &&& inst == spec_data8_inst(rest, op)
                        &&& final(byte_stream).pos == old(byte_stream).pos + 1
                    },
                    Err(e) => {
                        &&& rest.len() < 1
                        &&& e == DecodeError::Truncated
                    },
                }
            }),
    {
        let b = match byte_stream.next() {
            Some(b) => b,
            None => {
                return Err(DecodeError::Truncated);
            },
        };
        Ok(Inst::with_operand(op, Operand::Immediate(Data::U8(b))))
    }
}

/// A lone word immediate (RET with pop count).
#[derive(Clone, Copy, PartialEq, Eq, Structural, Debug)]
pub struct Data16;

pub open spec fn spec_data16_inst(rest: Seq<u8>, op: Operation) -> Inst {
    Inst {
        operation: op,
        first: Some(Operand::Immediate(Data::U16(spec_le_word(rest[0], rest[1])))),
        second: None,
        prefix: None,
        size: None,
    }
}

impl Data16 {
    pub fn decode(
        &self,
        first_byte: u8,
        byte_stream: &mut EnumeratePeekable,
        op: Operation,
    ) -> (r: Result<Inst, DecodeError>)
        requires
            old(byte_stream).wf(),
        ensures
            final(byte_stream).bytes@ == old(byte_stream).bytes@,
            final(byte_stream).wf(),
            ({
                let rest = old(byte_stream).remaining();
                match r {
                    Ok(inst) => {
                        &&& rest.len() >= 2
                        &&& inst == spec_data16_inst(rest, op)
                        &&& final(byte_stream).pos == old(byte_stream).pos + 2
                    },
                    Err(e) => {
                        &&& rest.len() < 2
                        &&& e == DecodeError::Truncated
                    },
                }
            }),
    {
        let low = match byte_stream.next() {
            Some(b) => b,
            None => {
                return Err(DecodeError::Truncated);
            },
        };
        let high = match byte_stream.next() {
            Some(b) => b,
            None => {
                return Err(DecodeError::Truncated);
            },
        };
        Ok(
            Inst::with_operand(
                op,
                Operand::Immediate(Data::U16(((high as u16) << 8) | (low as u16))),
            ),
        )
    }
}

/// A four-byte far target: low word the instruction pointer, high word the
/// code segment.
#[derive(Clone, Copy, PartialEq, Eq, Structural, Debug)]
pub struct CsIp;

pub open spec fn spec_csip_inst(rest: Seq<u8>, op: Operation) -> Inst {
    Inst {
        operation: op,
        first: Some(
            Operand::CsIp(
                crate::fields::CsIp {
                    instruction_pointer: spec_le_word(rest[0], rest[1]),
                    code_segment: spec_le_word(rest[2], rest[3]),
                },
            ),
        ),
        second: None,
        prefix: None,
        size: None,
    }
}

impl CsIp {
    pub fn decode(
        &self,
        first_byte: u8,
        byte_stream: &mut EnumeratePeekable,
        op: Operation,
    ) -> (r: Result<Inst, DecodeError>)
        requires
            old(byte_stream).wf(),
        ensures
            final(byte_stream).bytes@ == old(byte_stream).bytes@,
            final(byte_stream).wf(),
            ({
                let rest = old(byte_stream).remaining();
                match r {
                    Ok(inst) => {
                        &&& rest.len() >= 4
                        &&& inst == spec_csip_inst(rest, op)
                        &&& final(byte_stream).pos == old(byte_stream).pos + 4
                    },
                    Err(e) => {
                        &&& rest.len() < 4
                        &&& e == DecodeError::Truncated
                    },
                }
            }),
    {
        let cs_ip = match extract_cs_ip(byte_stream) {
            Ok(t) => t,
            Err(e) => {
                return Err(e);
            },
        };
        Ok(Inst::with_operand(op, Operand::CsIp(cs_ip)))
    }
}

/// IN or OUT through a fixed port named by an immediate byte; the
/// accumulator comes first for IN, last for OUT.
#[derive(Clone, Copy, PartialEq, Eq, Structural, Debug)]
pub struct FixedPort;

pub open spec fn spec_fixedport_inst(first: u8, rest: Seq<u8>, op: Operation) -> Inst {
    let acc = spec_accumulator(first);
    let port = Operand::Immediate(Data::U8(rest[0]));
    Inst {
        operation: op,
        first: Some(if op == Operation::IN { acc } else { port }),
        second: Some(if op == Operation::IN { port } else { acc }),
        prefix: None,
        size: None,
    }
}

impl FixedPort {
    pub fn decode(
        &self,
        first_byte: u8,
        byte_stream: &mut EnumeratePeekable,
        op: Operation,
    ) -> (r: Result<Inst, DecodeError>)
        requires
            old(byte_stream).wf(),
        ensures
            final(byte_stream).bytes@ == old(byte_stream).bytes@,
            final(byte_stream).wf(),
            ({
                let rest = old(byte_stream).remaining();
                match r {
                    Ok(inst) => {
                        &&& rest.len() >= 1
                        &&& inst == spec_fixedport_inst(first_byte, rest, op)
                        &&& final(byte_stream).pos == old(byte_stream).pos + 1
                    },
                    Err(e) => {
                        &&& rest.len() < 1
                        &&& e == DecodeError::Truncated
                    },
                }
            }),
    {
        let wide = is_wide(0x01, first_byte);
        let acc = Operand::Register(if wide { Register::AX } else { Register::AL });
        let b = match byte_stream.next() {
            Some(b) => b,
            None => {
                return Err(DecodeError::Truncated);
            },
        };
        let port = Operand::Immediate(Data::U8(b));
        let is_in = matches!(op, Operation::IN);
        Ok(
            Inst::with_operands(
                op,
                if is_in { acc } else { port },
                if is_in { port } else { acc },
            ),
        )
    }
}

/// IN or OUT through the variable port in DX; the accumulator comes first
/// for IN, last for OUT.
#[derive(Clone, Copy, PartialEq, Eq, Structural, Debug)]
pub struct VariablePort;

pub open spec fn spec_variableport_inst(first: u8, op: Operation) -> Inst {
    let acc = spec_accumulator(first);
    let dx = Operand::Register(Register::DX);
    Inst {
        operation: op,
        first: Some(if op == Operation::IN { acc } else { dx }),
        second: Some(if op == Operation::IN { dx } else { acc }),
        prefix: None,
        size: None,
    }
}

impl VariablePort {
    pub fn decode(
        &self,
        first_byte: u8,
        byte_stream: &mut EnumeratePeekable,
        op: Operation,
    ) -> (r: Result<Inst, DecodeError>)
        requires
            old(byte_stream).wf(),
        ensures
            *final(byte_stream) == *old(byte_stream),
            r == Ok::<Inst, DecodeError>(spec_variableport_inst(first_byte, op)),
    {
        let wide = is_wide(0x01, first_byte);
        let acc = Operand::Register(if wide { Register::AX } else { Register::AL });
        let dx = Operand::Register(Register::DX);
        let is_in = matches!(op, Operation::IN);
        Ok(
            Inst::with_operands(
                op,
                if is_in { acc } else { dx },
                if is_in { dx } else { acc },
            ),
        )
    }
}

/// An instruction with no operands and no trailing bytes.
#[derive(Clone, Copy, PartialEq, Eq, Structural, Debug)]
pub struct NoOps;

impl NoOps {
    pub fn decode(
        &self,
        first_byte: u8,
        byte_stream: &mut EnumeratePeekable,
        op: Operation,
    ) -> (r: Result<Inst, DecodeError>)
        requires
            old(byte_stream).wf(),
        ensures
            *final(byte_stream) == *old(byte_stream),
            r == Ok::<Inst, DecodeError>(
                Inst { operation: op, first: None, second: None, prefix: None, size: None },
            ),
    {
        Ok(Inst::new(op))
    }
}

/// An instruction with no operands whose encoding carries one fixed trailing
/// byte (AAM, AAD).
#[derive(Clone, Copy, PartialEq, Eq, Structural, Debug)]
pub struct NoOps2;

impl NoOps2 {
    pub fn decode(
        &self,
        first_byte: u8,
        byte_stream: &mut EnumeratePeekable,
        op: Operation,
    ) -> (r: Result<Inst, DecodeError>)
        requires
            old(byte_stream).wf(),
        ensures
            final(byte_stream).bytes@ == old(byte_stream).bytes@,
            final(byte_stream).wf(),
            ({
                let rest = old(byte_stream).remaining();
                match r {
                    Ok(inst) => {
                        &&& rest.len() >= 1
                        &&& inst == (Inst {
                            operation: op,
                            first: None,
                            second: None,
                            prefix: None,
                            size: None,
                        })
                        &&& final(byte_stream).pos == old(byte_stream).pos + 1
                    },
                    Err(e) => {
                        &&& rest.len() < 1
                        &&& e == DecodeError::Truncated
                    },
                }
            }),
    {
        match byte_stream.next() {
            Some(_) => Ok(Inst::new(op)),
            None => Err(DecodeError::Truncated),
        }
    }
}

/// How many bytes a shape's decoder consumes, given the first byte and the
/// bytes that follow it.
pub open spec fn spec_shape_len(shape: OperandShape, first: u8, rest: Seq<u8>) -> nat {
    match shape {
        OperandShape::RegRM => spec_regrm_len(first, rest),
        OperandShape::RMImd => spec_rmimd_len(first, rest),
        OperandShape::RMImdS => spec_rmimds_len(first, rest),
        OperandShape::RegImd => spec_regimd_len(first, rest),
        OperandShape::AccDA => spec_accda_len(first, rest),
        OperandShape::DAAcc => spec_daacc_len(first, rest),
        OperandShape::AccImd => spec_accimd_len(first, rest),
        OperandShape::AccReg => 0,
        OperandShape::Reg => 0,
        OperandShape::SR => 0,
        OperandShape::SRRM => spec_srrm_len(first, rest),
        OperandShape::RegRMW => spec_regrmw_len(first, rest),
        OperandShape::RM => spec_rmshape_len(first, rest),
        OperandShape::RMW => spec_rmw_len(first, rest),
        OperandShape::RMVW => spec_rmvw_len(first, rest),
        OperandShape::Inc8 => 1,
        OperandShape::Inc16 => 2,
        OperandShape::Data8 => 1,
        OperandShape::Data16 => 2,
        OperandShape::FixedPort => 1,
        OperandShape::VariablePort => 0,
        OperandShape::NoOps => 0,
        OperandShape::NoOps2 => 1,
    }
}

/// The instruction a shape's decoder produces, given enough bytes.
pub open spec fn spec_shape_inst(
    shape: OperandShape,
    first: u8,
    rest: Seq<u8>,
    op: Operation,
) -> Inst {
    match shape {
        OperandShape::RegRM => spec_regrm_inst(first, rest, op),
        OperandShape::RMImd => spec_rmimd_inst(first, rest, op),
        OperandShape::RMImdS => spec_rmimds_inst(first, rest, op),
        OperandShape::RegImd => spec_regimd_inst(first, rest, op),
        OperandShape::AccDA => spec_accda_inst(first, rest, op),
        OperandShape::DAAcc => spec_daacc_inst(first, rest, op),
        OperandShape::AccImd => spec_accimd_inst(first, rest, op),
        OperandShape::AccReg => spec_accreg_inst(first, op),
        OperandShape::Reg => spec_reg_inst(first, op),
        OperandShape::SR => spec_sr_inst(first, op),
        OperandShape::SRRM => spec_srrm_inst(first, rest, op),
        OperandShape::RegRMW => spec_regrmw_inst(first, rest, op),
        OperandShape::RM => spec_rmshape_inst(first, rest, op),
        OperandShape::RMW => spec_rmw_inst(first, rest, op),
        OperandShape::RMVW => spec_rmvw_inst(first, rest, op),
        OperandShape::Inc8 => spec_inc8_inst(rest, op),
        OperandShape::Inc16 => spec_inc16_inst(rest, op),
        OperandShape::Data8 => spec_data8_inst(rest, op),
        OperandShape::Data16 => spec_data16_inst(rest, op),
        OperandShape::FixedPort => spec_fixedport_inst(first, rest, op),
        OperandShape::VariablePort => spec_variableport_inst(first, op),
        OperandShape::NoOps => (Inst {
            operation: op,
            first: None,
            second: None,
            prefix: None,
            size: None,
        }),
        OperandShape::NoOps2 => (Inst {
            operation: op,
            first: None,
            second: None,
            prefix: None,
            size: None,
        }),
    }
}

/// Dispatches among the mod/r-m shapes.
#[verifier::spinoff_prover]
#[verifier::rlimit(100)]
fn decode_with_shape_rm_family(
    shape: OperandShape,
    first_byte: u8,
    byte_stream: &mut EnumeratePeekable,
    op: Operation,
) -> (r: Result<Inst, DecodeError>)
    requires
        old(byte_stream).wf(),
        shape is RegRM || shape is RMImd || shape is RMImdS || shape is SRRM || shape is RegRMW || shape is RM || shape is RMW || shape is RMVW,
    ensures
        final(byte_stream).bytes@ == old(byte_stream).bytes@,
        final(byte_stream).wf(),
        ({
            let rest = old(byte_stream).remaining();
            match r {
                Ok(inst) => {
                    &&& rest.len() >= spec_shape_len(shape, first_byte, rest)
                    &&& inst == spec_shape_inst(shape, first_byte, rest, op)
                    &&& final(byte_stream).pos == old(byte_stream).pos + spec_shape_len(
                        shape,
                        first_byte,
                        rest,
                    )
                },
                Err(e) => {
                    &&& rest.len() < spec_shape_len(shape, first_byte, rest)
                    &&& e == DecodeError::Truncated
                },
            }
        }),
{
    match shape {
        OperandShape::RegRM => RegRM.decode(first_byte, byte_stream, op),
        OperandShape::RMImd => RMImd.decode(first_byte, byte_stream, op),
        OperandShape::RMImdS => RMImdS.decode(first_byte, byte_stream, op),
        OperandShape::SRRM => SRRM.decode(first_byte, byte_stream, op),
        OperandShape::RegRMW => RegRMW.decode(first_byte, byte_stream, op),
        OperandShape::RM => RM.decode(first_byte, byte_stream, op),
        OperandShape::RMW => RMW.decode(first_byte, byte_stream, op),
        OperandShape::RMVW => RMVW.decode(first_byte, byte_stream, op),
        _ => Err(DecodeError::Truncated),
    }
}

/// Dispatches among the accumulator and register shapes.
#[verifier::spinoff_prover]
#[verifier::rlimit(100)]
fn decode_with_shape_acc_family(
    shape: OperandShape,
    first_byte: u8,
    byte_stream: &mut EnumeratePeekable,
    op: Operation,
) -> (r: Result<Inst, DecodeError>)
    requires
        old(byte_stream).wf(),
        shape is RegImd || shape is AccDA || shape is DAAcc || shape is AccImd || shape is AccReg || shape is Reg || shape is SR,
    ensures
        final(byte_stream).bytes@ == old(byte_stream).bytes@,
        final(byte_stream).wf(),
        ({
            let rest = old(byte_stream).remaining();
            match r {
                Ok(inst) => {
                    &&& rest.len() >= spec_shape_len(shape, first_byte, rest)
                    &&& inst == spec_shape_inst(shape, first_byte, rest, op)
                    &&& final(byte_stream).pos == old(byte_stream).pos + spec_shape_len(
                        shape,
                        first_byte,
                        rest,
                    )
                },
                Err(e) => {
                    &&& rest.len() < spec_shape_len(shape, first_byte, rest)
                    &&& e == DecodeError::Truncated
                },
            }
        }),
{
    match shape {
        OperandShape::RegImd => RegImd.decode(first_byte, byte_stream, op),
        OperandShape::AccDA => AccDA.decode(first_byte, byte_stream, op),
        OperandShape::DAAcc => DAAcc.decode(first_byte, byte_stream, op),
        OperandShape::AccImd => AccImd.decode(first_byte, byte_stream, op),
        OperandShape::AccReg => AccReg.decode(first_byte, byte_stream, op),
        OperandShape::Reg => Reg.decode(first_byte, byte_stream, op),
        OperandShape::SR => SR.decode(first_byte, byte_stream, op),
        _ => Err(DecodeError::Truncated),
    }
}

/// Dispatches among the fixed-length shapes.
#[verifier::spinoff_prover]
#[verifier::rlimit(100)]
fn decode_with_shape_small_family(
    shape: OperandShape,
    first_byte: u8,
    byte_stream: &mut EnumeratePeekable,
    op: Operation,
) -> (r: Result<Inst, DecodeError>)
    requires
        old(byte_stream).wf(),
        shape is Inc8 || shape is Inc16 || shape is Data8 || shape is Data16 || shape is FixedPort || shape is VariablePort || shape is NoOps || shape is NoOps2,
    ensures
        final(byte_stream).bytes@ == old(byte_stream).bytes@,
        final(byte_stream).wf(),
        ({
            let rest = old(byte_stream).remaining();
            match r {
                Ok(inst) => {
                    &&& rest.len() >= spec_shape_len(shape, first_byte, rest)
                    &&& inst == spec_shape_inst(shape, first_byte, rest, op)
                    &&& final(byte_stream).pos == old(byte_stream).pos + spec_shape_len(
                        shape,
                        first_byte,
                        rest,
                    )
                },
                Err(e) => {
                    &&& rest.len() < spec_shape_len(shape, first_byte, rest)
                    &&& e == DecodeError::Truncated
                },
            }
        }),
{
    match shape {
        OperandShape::Inc8 => Inc8.decode(first_byte, byte_stream, op),
        OperandShape::Inc16 => Inc16.decode(first_byte, byte_stream, op),
        OperandShape::Data8 => Data8.decode(first_byte, byte_stream, op),
        OperandShape::Data16 => Data16.decode(first_byte, byte_stream, op),
        OperandShape::FixedPort => FixedPort.decode(first_byte, byte_stream, op),
        OperandShape::VariablePort => VariablePort.decode(first_byte, byte_stream, op),
        OperandShape::NoOps => NoOps.decode(first_byte, byte_stream, op),
        OperandShape::NoOps2 => NoOps2.decode(first_byte, byte_stream, op),
        _ => Err(DecodeError::Truncated),
    }
}

/// Dispatches to the decoder of the given shape.
#[verifier::spinoff_prover]
#[verifier::rlimit(100)]
pub fn decode_with_shape(
    shape: OperandShape,
    first_byte: u8,
    byte_stream: &mut EnumeratePeekable,
    op: Operation,
) -> (r: Result<Inst, DecodeError>)
    requires
        old(byte_stream).wf(),
    ensures
        final(byte_stream).bytes@ == old(byte_stream).bytes@,
        final(byte_stream).wf(),
        ({
            let rest = old(byte_stream).remaining();
            match r {
                Ok(inst) => {
                    &&& rest.len() >= spec_shape_len(shape, first_byte, rest)
                    &&& inst == spec_shape_inst(shape, first_byte, rest, op)
                    &&& final(byte_stream).pos == old(byte_stream).pos + spec_shape_len(
                        shape,
                        first_byte,
                        rest,
                    )
                },
                Err(e) => {
                    &&& rest.len() < spec_shape_len(shape, first_byte, rest)
                    &&& e == DecodeError::Truncated
                },
            }
        }),
{
    match shape {
        OperandShape::RegRM => decode_with_shape_rm_family(shape, first_byte, byte_stream, op),
        OperandShape::RMImd => decode_with_shape_rm_family(shape, first_byte, byte_stream, op),
        OperandShape::RMImdS => decode_with_shape_rm_family(shape, first_byte, byte_stream, op),
        OperandShape::SRRM => decode_with_shape_rm_family(shape, first_byte, byte_stream, op),
        OperandShape::RegRMW => decode_with_shape_rm_family(shape, first_byte, byte_stream, op),
        OperandShape::RM => decode_with_shape_rm_family(shape, first_byte, byte_stream, op),
        OperandShape::RMW => decode_with_shape_rm_family(shape, first_byte, byte_stream, op),
        OperandShape::RMVW => decode_with_shape_rm_family(shape, first_byte, byte_stream, op),
        OperandShape::RegImd => decode_with_shape_acc_family(shape, first_byte, byte_stream, op),
        OperandShape::AccDA => decode_with_shape_acc_family(shape, first_byte, byte_stream, op),
        OperandShape::DAAcc => decode_with_shape_acc_family(shape, first_byte, byte_stream, op),
        OperandShape::AccImd => decode_with_shape_acc_family(shape, first_byte, byte_stream, op),
        OperandShape::AccReg => decode_with_shape_acc_family(shape, first_byte, byte_stream, op),
        OperandShape::Reg => decode_with_shape_acc_family(shape, first_byte, byte_stream, op),
        OperandShape::SR => decode_with_shape_acc_family(shape, first_byte, byte_stream, op),
        OperandShape::Inc8 => decode_with_shape_small_family(shape, first_byte, byte_stream, op),
        OperandShape::Inc16 => decode_with_shape_small_family(shape, first_byte, byte_stream, op),
        OperandShape::Data8 => decode_with_shape_small_family(shape, first_byte, byte_stream, op),
        OperandShape::Data16 => decode_with_shape_small_family(shape, first_byte, byte_stream, op),
        OperandShape::FixedPort => decode_with_shape_small_family(shape, first_byte, byte_stream, op),
        OperandShape::VariablePort => decode_with_shape_small_family(shape, first_byte, byte_stream, op),
        OperandShape::NoOps => decode_with_shape_small_family(shape, first_byte, byte_stream, op),
        OperandShape::NoOps2 => decode_with_shape_small_family(shape, first_byte, byte_stream, op),
    }
}

} // verus!
