//! Semantic handlers: MOV, the arithmetic family (ADD/SUB/CMP/INC/DEC) and
//! the logical family (TEST/XOR/SHR), each specified completely by a
//! specification function over the register file, the flag set and the
//! memory image.
//!
//! No handler publishes partial state: when a handler fails, the registers,
//! flags and memory are exactly as they were.

use vstd::prelude::*;

use crate::cpu::{
    spec_flags_after_arithmetic, spec_flags_after_logical, spec_high, spec_low, Flags, Memory,
    Registers,
};
use crate::extractors::spec_le_word;
use crate::fields::{
    spec_data_add, spec_data_sub, Data, DataWithCarry, EffectiveAddress, Operand, Operation, Wide,
};
use crate::program::Instruction;

verus! {

/// Why executing an instruction failed. Nothing is retried and no partial
/// state is committed; the simulator stops at the failing instruction.
#[derive(Clone, Copy, PartialEq, Eq, Structural, Debug)]
pub enum ExecError {
    /// The instruction lacks an operand its operation needs.
    MissingOperand,
    /// The operand pairing has no simulation.
    UnsupportedOperands,
    /// Operand widths disagree (or a byte slot was handed a word).
    WidthMismatch,
    /// A word access at the last byte of memory.
    AddressOutOfRange,
    /// A shift count at least as large as the operand width.
    ShiftOutOfRange,
    /// The operation decodes but has no simulation.
    UnsupportedOperation,
    /// LOOP with CX already at zero.
    CxUnderflow,
    /// A branch moved IP outside its 16 bits.
    IpOverflow,
    /// A branch delta that lands between instruction boundaries.
    BranchOffBoundary,
    /// A clock accumulator overflowed.
    ClockOverflow,
    /// The instruction has no clock estimate.
    UnsupportedClocks,
    /// The driver's step budget ran out; the budget is the largest usize,
    /// so a run only hits this after pointer-width-many instructions.
    StepLimit,
}

/// The arithmetic operations sharing the compute-then-set-flags path.
#[derive(Clone, Copy, PartialEq, Eq, Structural, Debug)]
pub enum ArithmeticOp {
    Add,
    Sub,
    Cmp,
    Inc,
    Dec,
}

/// A width-matched one, for INC and DEC.
pub open spec fn spec_one_like(d: Data) -> Data {
    match d {
        Data::U8(_) => Data::U8(1),
        Data::U16(_) => Data::U16(1),
    }
}

/// Whether the operand widths admit the operation: the two-operand forms
/// need matching widths; INC and DEC ignore the right-hand side.
pub open spec fn spec_compute_ok(op: ArithmeticOp, lhs: Data, rhs: Data) -> bool {
    match op {
        ArithmeticOp::Add | ArithmeticOp::Sub | ArithmeticOp::Cmp => lhs.same_width(rhs),
        ArithmeticOp::Inc | ArithmeticOp::Dec => true,
    }
}

/// The result of the operation with its carries: ADD and SUB/CMP are the
/// wrapping operations; INC and DEC synthesize a width-matched one.
pub open spec fn spec_compute(op: ArithmeticOp, lhs: Data, rhs: Data) -> DataWithCarry {
    match op {
        ArithmeticOp::Add => spec_data_add(lhs, rhs),
        ArithmeticOp::Sub | ArithmeticOp::Cmp => spec_data_sub(lhs, rhs),
        ArithmeticOp::Inc => spec_data_add(lhs, spec_one_like(lhs)),
        ArithmeticOp::Dec => spec_data_sub(lhs, spec_one_like(lhs)),
    }
}

impl ArithmeticOp {
    /// Computes the operation on width-matched operands.
    pub fn compute(&self, lhs: Data, rhs: Data) -> (r: DataWithCarry)
        requires
            spec_compute_ok(*self, lhs, rhs),
        ensures
            r == spec_compute(*self, lhs, rhs),
    {
        match self {
            Self::Add => lhs.wrapping_add(rhs),
            Self::Inc => lhs.wrapping_add(
                match lhs {
                    Data::U16(_) => Data::U16(1),
                    Data::U8(_) => Data::U8(1),
                },
            ),
            Self::Dec => lhs.wrapping_sub(
                match lhs {
                    Data::U16(_) => Data::U16(1),
                    Data::U8(_) => Data::U8(1),
                },
            ),
            Self::Sub => lhs.wrapping_sub(rhs),
            Self::Cmp => lhs.wrapping_sub(rhs),
        }
    }
}

/// The logical operations sharing the compute-then-clear-carries path.
#[derive(Clone, Copy, PartialEq, Eq, Structural, Debug)]
pub enum LogicalOp {
    Test,
    Xor,
    Shr,
}

/// The logical result, or why the operand pairing is refused: TEST and XOR
/// need matching widths; SHR needs a byte count smaller than the operand
/// width.
pub open spec fn spec_logical_compute(op: LogicalOp, lhs: Data, rhs: Data) -> Result<
    Data,
    ExecError,
> {
    match op {
        LogicalOp::Test => match (lhs, rhs) {
            (Data::U8(x), Data::U8(y)) => Ok(Data::U8(x & y)),
            (Data::U16(x), Data::U16(y)) => Ok(Data::U16(x & y)),
            _ => Err(ExecError::WidthMismatch),
        },
        LogicalOp::Xor => match (lhs, rhs) {
            (Data::U8(x), Data::U8(y)) => Ok(Data::U8(x ^ y)),
            (Data::U16(x), Data::U16(y)) => Ok(Data::U16(x ^ y)),
            _ => Err(ExecError::WidthMismatch),
        },
        LogicalOp::Shr => match (lhs, rhs) {
            (Data::U8(x), Data::U8(y)) => if y < 8 {
                Ok(Data::U8(x >> y))
            } else {
                Err(ExecError::ShiftOutOfRange)
            },
            (Data::U16(x), Data::U8(y)) => if y < 16 {
                Ok(Data::U16(x >> y))
            } else {
                Err(ExecError::ShiftOutOfRange)
            },
            _ => Err(ExecError::WidthMismatch),
        },
    }
}

impl LogicalOp {
    /// Computes the logical operation, refusing ill-matched operands.
    pub fn compute(&self, lhs: Data, rhs: Data) -> (r: Result<Data, ExecError>)
        ensures
            r == spec_logical_compute(*self, lhs, rhs),
    {
        match self {
            Self::Test => match (lhs, rhs) {
                (Data::U8(x), Data::U8(y)) => Ok(Data::U8(x & y)),
                (Data::U16(x), Data::U16(y)) => Ok(Data::U16(x & y)),
                _ => Err(ExecError::WidthMismatch),
            },
            Self::Xor => match (lhs, rhs) {
                (Data::U8(x), Data::U8(y)) => Ok(Data::U8(x ^ y)),
                (Data::U16(x), Data::U16(y)) => Ok(Data::U16(x ^ y)),
                _ => Err(ExecError::WidthMismatch),
            },
            Self::Shr => match (lhs, rhs) {
                (Data::U8(x), Data::U8(y)) => if y < 8 {
                    Ok(Data::U8(x >> y))
                } else {
                    Err(ExecError::ShiftOutOfRange)
                },
                (Data::U16(x), Data::U8(y)) => if y < 16 {
                    Ok(Data::U16(x >> y))
                } else {
                    Err(ExecError::ShiftOutOfRange)
                },
                _ => Err(ExecError::WidthMismatch),
            },
        }
    }
}

/// A memory image with a little-endian word stored at `addr`.
pub open spec fn spec_store_16(mem: Seq<u8>, addr: u16, val: u16) -> Seq<u8> {
    mem.update(addr as int, spec_low(val)).update(addr as int + 1, spec_high(val))
}

/// What MOV does to the registers and the memory, or why it fails, case by
/// operand pair. MOV writes no flags.
pub open spec fn spec_handle_mov(regs: Registers, mem: Seq<u8>, inst: Instruction) -> Result<
    (Registers, Seq<u8>),
    ExecError,
> {
    match (inst.first, inst.second) {
        (Some(first), Some(second)) => match (first, second) {
            (Operand::Register(reg), Operand::Immediate(data)) => if reg.spec_is_wide() || data
                is U8 {
                Ok((regs.spec_set_imd(reg, data), mem))
            } else {
                Err(ExecError::WidthMismatch)
            },
            (Operand::Register(r1), Operand::Register(r2)) => if r1.spec_is_wide()
                || !r2.spec_is_wide() {
                Ok((regs.spec_set_imd(r1, regs.spec_get(r2)), mem))
            } else {
                Err(ExecError::WidthMismatch)
            },
            (Operand::Register(reg), Operand::SR(sr)) => if reg.spec_is_wide() {
                Ok((regs.spec_set_imd(reg, regs.spec_get_sr(sr)), mem))
            } else {
                Err(ExecError::WidthMismatch)
            },
            (Operand::SR(sr), Operand::Register(reg)) => Ok(
                (regs.spec_set_sr_imd(sr, regs.spec_get(reg)), mem),
            ),
            (Operand::EffectiveAddress(ea), Operand::Immediate(Data::U16(imd))) => {
                let addr = regs.spec_calculate_eff_addr(ea);
                if addr < 0xFFFF {
                    Ok((regs, spec_store_16(mem, addr, imd)))
                } else {
                    Err(ExecError::AddressOutOfRange)
                }
            },
            (Operand::EffectiveAddress(ea), Operand::Immediate(Data::U8(imd))) => Ok(
                (regs, mem.update(regs.spec_calculate_eff_addr(ea) as int, imd)),
            ),
            (Operand::Register(reg), Operand::EffectiveAddress(ea)) => {
                let addr = regs.spec_calculate_eff_addr(ea);
                if ea.spec_wide() == Wide::Byte || (ea.spec_wide() == Wide::Implicit
                    && !reg.spec_is_wide()) {
                    Ok((regs.spec_set_imd(reg, Data::U8(mem[addr as int])), mem))
                } else if !(addr < 0xFFFF) {
                    Err(ExecError::AddressOutOfRange)
                } else if reg.spec_is_wide() {
                    Ok(
                        (
                            regs.spec_set_imd(
                                reg,
                                Data::U16(spec_le_word(mem[addr as int], mem[addr as int + 1])),
                            ),
                            mem,
                        ),
                    )
                } else {
                    Err(ExecError::WidthMismatch)
                }
            },
            (Operand::EffectiveAddress(ea), Operand::Register(reg)) => {
                let addr = regs.spec_calculate_eff_addr(ea);
                match ea.spec_wide() {
                    Wide::Byte => match regs.spec_get(reg) {
                        Data::U8(b) => Ok((regs, mem.update(addr as int, b))),
                        Data::U16(_) => Err(ExecError::WidthMismatch),
                    },
                    Wide::Word => if addr < 0xFFFF {
                        Ok((regs, spec_store_16(mem, addr, regs.spec_get(reg).spec_to_u16())))
                    } else {
                        Err(ExecError::AddressOutOfRange)
                    },
                    Wide::Implicit => match regs.spec_get(reg) {
                        Data::U8(b) => Ok((regs, mem.update(addr as int, b))),
                        Data::U16(v) => if addr < 0xFFFF {
                            Ok((regs, spec_store_16(mem, addr, v)))
                        } else {
                            Err(ExecError::AddressOutOfRange)
                        },
                    },
                }
            },
            _ => Err(ExecError::UnsupportedOperands),
        },
        _ => Err(ExecError::MissingOperand),
    }
}

/// Executes MOV. On failure nothing changes.
pub fn handle_mov(inst: &Instruction, registers: &mut Registers, memory: &mut Memory) -> (r:
    Result<(), ExecError>)
    requires
        old(memory).wf(),
    ensures
        final(memory).wf(),
        ({
            let s = spec_handle_mov(*old(registers), old(memory).0@, *inst);
            match r {
                Ok(_) => {
                    &&& s is Ok
                    &&& *final(registers) == s->Ok_0.0
                    &&& final(memory).0@ == s->Ok_0.1
                },
                Err(e) => {
                    &&& s == Err::<(Registers, Seq<u8>), ExecError>(e)
                    &&& *final(registers) == *old(registers)
                    &&& final(memory).0@ == old(memory).0@
                },
            }
        }),
{
    let first = match inst.first {
        Some(f) => f,
        None => {
            return Err(ExecError::MissingOperand);
        },
    };
    let second = match inst.second {
        Some(s) => s,
        None => {
            return Err(ExecError::MissingOperand);
        },
    };
    match (first, second) {
        (Operand::Register(reg), Operand::Immediate(data)) => {
            if !(reg.is_wide() || matches!(data, Data::U8(_))) {
                return Err(ExecError::WidthMismatch);
            }
            registers.set_imd(reg, data);
            Ok(())
        },
        (Operand::Register(r1), Operand::Register(r2)) => {
            if !(r1.is_wide() || !r2.is_wide()) {
                return Err(ExecError::WidthMismatch);
            }
            registers.set_reg(r1, r2);
            Ok(())
        },
        (Operand::Register(reg), Operand::SR(sr)) => {
            if !reg.is_wide() {
                return Err(ExecError::WidthMismatch);
            }
            registers.set_reg_from_sr(reg, sr);
            Ok(())
        },
        (Operand::SR(sr), Operand::Register(reg)) => {
            registers.set_sr_from_reg(sr, reg);
            Ok(())
        },
        (Operand::EffectiveAddress(ea), Operand::Immediate(Data::U16(imd))) => {
            let addr = registers.calculate_eff_addr(ea);
            if !(addr < 0xFFFF) {
                return Err(ExecError::AddressOutOfRange);
            }
            memory.store_16(addr, imd);
            Ok(())
        },
        (Operand::EffectiveAddress(ea), Operand::Immediate(Data::U8(imd))) => {
            let addr = registers.calculate_eff_addr(ea);
            memory.store_8(addr, imd);
            Ok(())
        },
        (Operand::Register(reg), Operand::EffectiveAddress(ea)) => {
            let addr = registers.calculate_eff_addr(ea);
            if matches!(ea.wide(), Wide::Byte) || (matches!(ea.wide(), Wide::Implicit)
                && !reg.is_wide()) {
                let imd = memory.load_8(addr);
                registers.set_imd(reg, Data::U8(imd));
                return Ok(());
            }
            if !(addr < 0xFFFF) {
                return Err(ExecError::AddressOutOfRange);
            }
            if !reg.is_wide() {
                return Err(ExecError::WidthMismatch);
            }
            let imd = memory.load_16(addr);
            registers.set_imd(reg, Data::U16(imd));
            Ok(())
        },
        (Operand::EffectiveAddress(ea), Operand::Register(reg)) => {
            let data = registers.get(reg);
            let addr = registers.calculate_eff_addr(ea);
            match ea.wide() {
                Wide::Byte => {
                    let b = match data.to_u8() {
                        Some(b) => b,
                        None => {
                            return Err(ExecError::WidthMismatch);
                        },
                    };
                    memory.store_8(addr, b);
                    Ok(())
                },
                Wide::Word => {
                    if !(addr < 0xFFFF) {
                        return Err(ExecError::AddressOutOfRange);
                    }
                    memory.store_16(addr, data.to_u16());
                    Ok(())
                },
                Wide::Implicit => match data {
                    Data::U8(b) => {
                        memory.store_8(addr, b);
                        Ok(())
                    },
                    Data::U16(v) => {
                        if !(addr < 0xFFFF) {
                            return Err(ExecError::AddressOutOfRange);
                        }
                        memory.store_16(addr, v);
                        Ok(())
                    },
                },
            }
        },
        _ => Err(ExecError::UnsupportedOperands),
    }
}


/// The right-hand operand of an arithmetic instruction: the second operand
/// where there is one; INC and DEC run without one and a placeholder is
/// supplied, which the computation replaces with a width-matched one.
pub open spec fn spec_arith_second(inst: Instruction) -> Option<Operand> {
    match inst.second {
        Some(s) => Some(s),
        None => if inst.operation == Operation::INC || inst.operation == Operation::DEC {
            Some(Operand::Immediate(Data::U16(1)))
        } else {
            None
        },
    }
}

/// What one arithmetic case does once the operands are fetched: compute on
/// width-matched values, write the result back unless comparing, and set
/// the flags from operands, operation and result.
pub open spec fn spec_arith_finish(
    op: ArithmeticOp,
    regs: Registers,
    mem: Seq<u8>,
    reg: crate::fields::Register,
    lhs: Data,
    rhs: Data,
) -> Result<(Registers, Flags, Seq<u8>), ExecError> {
    if !spec_compute_ok(op, lhs, rhs) {
        Err(ExecError::WidthMismatch)
    } else {
        let newval = spec_compute(op, lhs, rhs);
        let regs2 = if op == ArithmeticOp::Cmp {
            regs
        } else {
            regs.spec_set_imd(reg, newval.0)
        };
        Ok((regs2, spec_flags_after_arithmetic(lhs, rhs, op, newval), mem))
    }
}

/// What the arithmetic family does to registers, flags and memory, or why
/// it fails, case by operand pair. CMP computes and sets flags but writes
/// nothing back.
pub open spec fn spec_handle_arithmetic(
    op: ArithmeticOp,
    regs: Registers,
    flags: Flags,
    mem: Seq<u8>,
    inst: Instruction,
) -> Result<(Registers, Flags, Seq<u8>), ExecError> {
    match (inst.first, spec_arith_second(inst)) {
        (Some(first), Some(second)) => match (first, second) {
            (Operand::Register(reg), Operand::Immediate(rhs)) => spec_arith_finish(
                op,
                regs,
                mem,
                reg,
                regs.spec_get(reg),
                rhs,
            ),
            (Operand::Register(r1), Operand::Register(r2)) => spec_arith_finish(
                op,
                regs,
                mem,
                r1,
                regs.spec_get(r1),
                regs.spec_get(r2),
            ),
            (Operand::Register(reg), Operand::EffectiveAddress(ea)) => {
                let addr = regs.spec_calculate_eff_addr(ea);
                if ea.spec_wide() == Wide::Byte || (ea.spec_wide() == Wide::Implicit
                    && !reg.spec_is_wide()) {
                    spec_arith_finish(
                        op,
                        regs,
                        mem,
                        reg,
                        regs.spec_get(reg),
                        Data::U8(mem[addr as int]),
                    )
                } else if addr < 0xFFFF {
                    spec_arith_finish(
                        op,
                        regs,
                        mem,
                        reg,
                        regs.spec_get(reg),
                        Data::U16(spec_le_word(mem[addr as int], mem[addr as int + 1])),
                    )
                } else {
                    Err(ExecError::AddressOutOfRange)
                }
            },
            (Operand::EffectiveAddress(ea), Operand::Register(reg)) => spec_arith_to_memory(
                op,
                regs,
                flags,
                mem,
                ea,
                regs.spec_get(reg),
            ),
            (Operand::EffectiveAddress(ea), Operand::Immediate(imd)) => spec_arith_to_memory(
                op,
                regs,
                flags,
                mem,
                ea,
                imd,
            ),
            _ => Err(ExecError::UnsupportedOperands),
        },
        _ => Err(ExecError::MissingOperand),
    }
}

/// The memory-destination arithmetic cases: the value at the effective
/// address is loaded at the operand's width (a width tag of `Implicit`
/// takes the right-hand value's width), combined with the right-hand
/// value, and stored back unless comparing; the flags come from the
/// computation.
pub open spec fn spec_arith_to_memory(
    op: ArithmeticOp,
    regs: Registers,
    flags: Flags,
    mem: Seq<u8>,
    ea: EffectiveAddress,
    rhs: Data,
) -> Result<(Registers, Flags, Seq<u8>), ExecError> {
    let addr = regs.spec_calculate_eff_addr(ea);
    if ea.spec_wide() == Wide::Byte || (ea.spec_wide() == Wide::Implicit && rhs is U8) {
        let lhs = Data::U8(mem[addr as int]);
        if !spec_compute_ok(op, lhs, rhs) {
            Err(ExecError::WidthMismatch)
        } else {
            let newval = spec_compute(op, lhs, rhs);
            let mem2 = if op == ArithmeticOp::Cmp {
                mem
            } else {
                mem.update(addr as int, newval.0.spec_low_byte())
            };
            Ok((regs, spec_flags_after_arithmetic(lhs, rhs, op, newval), mem2))
        }
    } else if addr < 0xFFFF {
        let lhs = Data::U16(spec_le_word(mem[addr as int], mem[addr as int + 1]));
        if !spec_compute_ok(op, lhs, rhs) {
            Err(ExecError::WidthMismatch)
        } else {
            let newval = spec_compute(op, lhs, rhs);
            let mem2 = if op == ArithmeticOp::Cmp {
                mem
            } else {
                spec_store_16(mem, addr, newval.0.spec_to_u16())
            };
            Ok((regs, spec_flags_after_arithmetic(lhs, rhs, op, newval), mem2))
        }
    } else {
        Err(ExecError::AddressOutOfRange)
    }
}

/// Executes an arithmetic instruction. On failure nothing changes.
pub fn handle_arithmetic(
    op: ArithmeticOp,
    inst: &Instruction,
    registers: &mut Registers,
    flags: &mut Flags,
    memory: &mut Memory,
) -> (r: Result<(), ExecError>)
    requires
        old(memory).wf(),
    ensures
        final(memory).wf(),
        ({
            let s = spec_handle_arithmetic(op, *old(registers), *old(flags), old(memory).0@, *inst);
            match r {
                Ok(_) => {
                    &&& s is Ok
                    &&& *final(registers) == s->Ok_0.0
                    &&& *final(flags) == s->Ok_0.1
                    &&& final(memory).0@ == s->Ok_0.2
                },
                Err(e) => {
                    &&& s == Err::<(Registers, Flags, Seq<u8>), ExecError>(e)
                    &&& *final(registers) == *old(registers)
                    &&& *final(flags) == *old(flags)
                    &&& final(memory).0@ == old(memory).0@
                },
            }
        }),
{
    let first = match inst.first {
        Some(f) => f,
        None => {
            return Err(ExecError::MissingOperand);
        },
    };
    let second = match inst.second {
        Some(s) => s,
        None => {
            if matches!(inst.operation, Operation::INC | Operation::DEC) {
                Operand::Immediate(Data::U16(1))
            } else {
                return Err(ExecError::MissingOperand);
            }
        },
    };
    match (first, second) {
        (Operand::Register(reg), Operand::Immediate(rhs)) => {
            let lhs = registers.get(reg);
            arith_finish(op, registers, flags, reg, lhs, rhs)
        },
        (Operand::Register(r1), Operand::Register(r2)) => {
            let lhs = registers.get(r1);
            let rhs = registers.get(r2);
            arith_finish(op, registers, flags, r1, lhs, rhs)
        },
        (Operand::Register(reg), Operand::EffectiveAddress(ea)) => {
            let addr = registers.calculate_eff_addr(ea);
            let byte_wide = matches!(ea.wide(), Wide::Byte) || (matches!(
                ea.wide(),
                Wide::Implicit,
            ) && !reg.is_wide());
            let rhs = if byte_wide {
                Data::U8(memory.load_8(addr))
            } else {
                if !(addr < 0xFFFF) {
                    return Err(ExecError::AddressOutOfRange);
                }
                Data::U16(memory.load_16(addr))
            };
            let lhs = registers.get(reg);
            arith_finish(op, registers, flags, reg, lhs, rhs)
        },
        (Operand::EffectiveAddress(ea), Operand::Register(reg)) => {
            let rhs = registers.get(reg);
            arith_to_memory(op, registers, flags, memory, ea, rhs)
        },
        (Operand::EffectiveAddress(ea), Operand::Immediate(imd)) => {
            arith_to_memory(op, registers, flags, memory, ea, imd)
        },
        _ => Err(ExecError::UnsupportedOperands),
    }
}

/// Shared tail of the register-destination arithmetic cases.
fn arith_finish(
    op: ArithmeticOp,
    registers: &mut Registers,
    flags: &mut Flags,
    reg: crate::fields::Register,
    lhs: Data,
    rhs: Data,
) -> (r: Result<(), ExecError>)
    requires
        lhs == old(registers).spec_get(reg),
    ensures
        ({
            let s = spec_arith_finish(op, *old(registers), Seq::<u8>::empty(), reg, lhs, rhs);
            match r {
                Ok(_) => {
                    &&& s is Ok
                    &&& *final(registers) == s->Ok_0.0
                    &&& *final(flags) == s->Ok_0.1
                },
                Err(e) => {
                    &&& s == Err::<(Registers, Flags, Seq<u8>), ExecError>(e)
                    &&& *final(registers) == *old(registers)
                    &&& *final(flags) == *old(flags)
                },
            }
        }),
{
    let ok = match op {
        ArithmeticOp::Add | ArithmeticOp::Sub | ArithmeticOp::Cmp => {
            lhs.to_u8().is_some() == rhs.to_u8().is_some()
        },
        ArithmeticOp::Inc | ArithmeticOp::Dec => true,
    };
    if !ok {
        return Err(ExecError::WidthMismatch);
    }
    let newval = op.compute(lhs, rhs);
    if !matches!(op, ArithmeticOp::Cmp) {
        registers.set_imd(reg, newval.0);
    }
    flags.set(lhs, rhs, op, newval);
    Ok(())
}

/// Shared tail of the memory-destination arithmetic cases.
fn arith_to_memory(
    op: ArithmeticOp,
    registers: &mut Registers,
    flags: &mut Flags,
    memory: &mut Memory,
    ea: EffectiveAddress,
    rhs: Data,
) -> (r: Result<(), ExecError>)
    requires
        old(memory).wf(),
    ensures
        final(memory).wf(),
        *final(registers) == *old(registers),
        ({
            let s = spec_arith_to_memory(op, *old(registers), *old(flags), old(memory).0@, ea, rhs);
            match r {
                Ok(_) => {
                    &&& s is Ok
                    &&& *final(registers) == s->Ok_0.0
                    &&& *final(flags) == s->Ok_0.1
                    &&& final(memory).0@ == s->Ok_0.2
                },
                Err(e) => {
                    &&& s == Err::<(Registers, Flags, Seq<u8>), ExecError>(e)
                    &&& *final(flags) == *old(flags)
                    &&& final(memory).0@ == old(memory).0@
                },
            }
        }),
{
    let addr = registers.calculate_eff_addr(ea);
    if matches!(ea.wide(), Wide::Byte) || (matches!(ea.wide(), Wide::Implicit) && matches!(
        rhs,
        Data::U8(_),
    )) {
        let lhs = Data::U8(memory.load_8(addr));
        let ok = match op {
            ArithmeticOp::Add | ArithmeticOp::Sub | ArithmeticOp::Cmp => rhs.to_u8().is_some(),
            ArithmeticOp::Inc | ArithmeticOp::Dec => true,
        };
        if !ok {
            return Err(ExecError::WidthMismatch);
        }
        let newval = op.compute(lhs, rhs);
        if !matches!(op, ArithmeticOp::Cmp) {
            let b = match newval.0 {
                Data::U8(b) => b,
                Data::U16(v) => (v & 0xFF) as u8,
            };
            memory.store_8(addr, b);
        }
        flags.set(lhs, rhs, op, newval);
        return Ok(());
    }
    if !(addr < 0xFFFF) {
        return Err(ExecError::AddressOutOfRange);
    }
    let lhs = Data::U16(memory.load_16(addr));
    let ok = match op {
        ArithmeticOp::Add | ArithmeticOp::Sub | ArithmeticOp::Cmp => {
            rhs.to_u8().is_none()
        },
        ArithmeticOp::Inc | ArithmeticOp::Dec => true,
    };
    if !ok {
        return Err(ExecError::WidthMismatch);
    }
    let newval = op.compute(lhs, rhs);
    if !matches!(op, ArithmeticOp::Cmp) {
        memory.store_16(addr, newval.0.to_u16());
    }
    flags.set(lhs, rhs, op, newval);
    Ok(())
}

/// What the logical family does to registers and flags, or why it fails,
/// case by operand pair. TEST computes and sets flags but writes nothing
/// back; memory is never touched.
pub open spec fn spec_handle_logical(
    op: LogicalOp,
    regs: Registers,
    flags: Flags,
    inst: Instruction,
) -> Result<(Registers, Flags), ExecError> {
    match (inst.first, inst.second) {
        (Some(first), Some(second)) => match (first, second) {
            (Operand::Register(r1), Operand::Register(r2)) => spec_logical_finish(
                op,
                regs,
                r1,
                regs.spec_get(r1),
                regs.spec_get(r2),
            ),
            (Operand::Register(reg), Operand::Immediate(rhs)) => spec_logical_finish(
                op,
                regs,
                reg,
                regs.spec_get(reg),
                rhs,
            ),
            _ => Err(ExecError::UnsupportedOperands),
        },
        _ => Err(ExecError::MissingOperand),
    }
}

/// What one logical case does once the operands are fetched.
pub open spec fn spec_logical_finish(
    op: LogicalOp,
    regs: Registers,
    reg: crate::fields::Register,
    lhs: Data,
    rhs: Data,
) -> Result<(Registers, Flags), ExecError> {
    match spec_logical_compute(op, lhs, rhs) {
        Ok(newval) => {
            let regs2 = if op == LogicalOp::Test {
                regs
            } else {
                regs.spec_set_imd(reg, newval)
            };
            Ok((regs2, spec_flags_after_logical(newval)))
        },
        Err(e) => Err(e),
    }
}

/// Executes a logical instruction. On failure nothing changes.
pub fn handle_logical(
    op: LogicalOp,
    inst: &Instruction,
    registers: &mut Registers,
    flags: &mut Flags,
    memory: &mut Memory,
) -> (r: Result<(), ExecError>)
    ensures
        *final(memory) == *old(memory),
        ({
            let s = spec_handle_logical(op, *old(registers), *old(flags), *inst);
            match r {
                Ok(_) => {
                    &&& s is Ok
                    &&& *final(registers) == s->Ok_0.0
                    &&& *final(flags) == s->Ok_0.1
                },
                Err(e) => {
                    &&& s == Err::<(Registers, Flags), ExecError>(e)
                    &&& *final(registers) == *old(registers)
                    &&& *final(flags) == *old(flags)
                },
            }
        }),
{
    let first = match inst.first {
        Some(f) => f,
        None => {
            return Err(ExecError::MissingOperand);
        },
    };
    let second = match inst.second {
        Some(s) => s,
        None => {
            return Err(ExecError::MissingOperand);
        },
    };
    match (first, second) {
        (Operand::Register(r1), Operand::Register(r2)) => {
            let lhs = registers.get(r1);
            let rhs = registers.get(r2);
            logical_finish(op, registers, flags, r1, lhs, rhs)
        },
        (Operand::Register(reg), Operand::Immediate(rhs)) => {
            let lhs = registers.get(reg);
            logical_finish(op, registers, flags, reg, lhs, rhs)
        },
        _ => Err(ExecError::UnsupportedOperands),
    }
}

/// Shared tail of the logical cases.
fn logical_finish(
    op: LogicalOp,
    registers: &mut Registers,
    flags: &mut Flags,
    reg: crate::fields::Register,
    lhs: Data,
    rhs: Data,
) -> (r: Result<(), ExecError>)
    requires
        lhs == old(registers).spec_get(reg),
    ensures
        ({
            let s = spec_logical_finish(op, *old(registers), reg, lhs, rhs);
            match r {
                Ok(_) => {
                    &&& s is Ok
                    &&& *final(registers) == s->Ok_0.0
                    &&& *final(flags) == s->Ok_0.1
                },
                Err(e) => {
                    &&& s == Err::<(Registers, Flags), ExecError>(e)
                    &&& *final(registers) == *old(registers)
                    &&& *final(flags) == *old(flags)
                },
            }
        }),
{
    let newval = match op.compute(lhs, rhs) {
        Ok(v) => v,
        Err(e) => {
            return Err(e);
        },
    };
    if !matches!(op, LogicalOp::Test) {
        registers.set_imd(reg, newval);
    }
    flags.set_logical(newval);
    Ok(())
}

/// CMP changes nothing but the flags: whenever a CMP execution succeeds,
/// the registers and the memory of the post-state are exactly those of the
/// pre-state.
pub proof fn lemma_cmp_purity(
    regs: Registers,
    flags: Flags,
    mem: Seq<u8>,
    inst: Instruction,
)
    ensures
        spec_handle_arithmetic(ArithmeticOp::Cmp, regs, flags, mem, inst) matches Ok(post)
            ==> post.0 == regs && post.2 == mem,
{
}

/// TEST changes nothing but the flags: whenever a TEST execution succeeds,
/// the registers of the post-state are exactly those of the pre-state (the
/// logical family never touches memory).
pub proof fn lemma_test_purity(regs: Registers, flags: Flags, inst: Instruction)
    ensures
        spec_handle_logical(LogicalOp::Test, regs, flags, inst) matches Ok(post) ==> post.0
            == regs,
{
}

/// The parity flag reflects the even parity of the low byte of the result,
/// for both widths, after every arithmetic flag update.
pub proof fn lemma_parity_arithmetic(
    lhs: Data,
    rhs: Data,
    op: ArithmeticOp,
    computation: DataWithCarry,
)
    ensures
        spec_flags_after_arithmetic(lhs, rhs, op, computation).parity
            == crate::fields::spec_even_parity(computation.0.spec_low_byte()),
{
}

/// The parity flag reflects the even parity of the low byte of the result
/// after every logical flag update.
pub proof fn lemma_parity_logical(value: Data)
    ensures
        spec_flags_after_logical(value).parity == crate::fields::spec_even_parity(
            value.spec_low_byte(),
        ),
{
}

} // verus!
