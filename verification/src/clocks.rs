//! The clock estimator: per-instruction 8086 and 8088 clock counts, from a
//! base cost, the effective-address cost, and the transfer penalty. The
//! 8088 pays four clocks per memory transfer unconditionally (its bus is a
//! byte wide); the 8086 pays them only for unaligned word accesses.

use vstd::prelude::*;

use crate::fields::{Data, EffectiveAddress, Operand, Operation, Register, Wide};
use crate::handlers::ExecError;
use crate::program::Instruction;

verus! {

/// The clocks a taken conditional branch costs.
#[derive(Clone, Copy, PartialEq, Eq, Structural, Debug)]
pub struct JmpTakenClocks(pub usize);

/// The clocks a conditional branch costs when not taken.
#[derive(Clone, Copy, PartialEq, Eq, Structural, Debug)]
pub struct JmpNotTakenClocks(pub usize);

/// Base plus transfer penalty: the 8088 always pays four clocks per
/// transfer; the 8086 only on an odd (unaligned) effective address.
pub open spec fn spec_clocks_for_wide(base: int, transfers: int, is_odd_ea: bool) -> (int, int) {
    ((if is_odd_ea {
        base + 4 * transfers
    } else {
        base
    }), base + 4 * transfers)
}

/// The (8086, 8088) clock estimate of an instruction, or why there is
/// none. MOV and ADD forms, INC and DEC of a register, and RET are
/// estimated; ADD with a byte-wide memory operand and every other
/// operation are refused. MOV between the accumulator and a direct
/// address has the fixed base 10; every other memory form pays its base
/// plus the effective-address cost.
pub open spec fn spec_instruction_clocks(inst: Instruction, is_ea_odd: bool) -> Result<
    (int, int),
    ExecError,
> {
    match inst.operation {
        Operation::Add => match (inst.first, inst.second) {
            (Some(first), Some(second)) => match (first, second) {
                (Operand::Register(_), Operand::Register(_)) => Ok((3int, 3int)),
                (Operand::Register(_), Operand::EffectiveAddress(ea)) => if ea.spec_wide()
                    == Wide::Byte {
                    Err(ExecError::UnsupportedClocks)
                } else {
                    Ok(spec_clocks_for_wide(9 + ea.spec_clocks(), 1, is_ea_odd))
                },
                (Operand::EffectiveAddress(ea), Operand::Register(_)) => if ea.spec_wide()
                    == Wide::Byte {
                    Err(ExecError::UnsupportedClocks)
                } else {
                    Ok(spec_clocks_for_wide(16 + ea.spec_clocks(), 2, is_ea_odd))
                },
                (Operand::Register(_), Operand::Immediate(_)) => Ok((4int, 4int)),
                (Operand::EffectiveAddress(ea), Operand::Immediate(_)) => if ea.spec_wide()
                    == Wide::Byte {
                    Err(ExecError::UnsupportedClocks)
                } else {
                    Ok(spec_clocks_for_wide(17 + ea.spec_clocks(), 2, is_ea_odd))
                },
                _ => Err(ExecError::UnsupportedClocks),
            },
            _ => Err(ExecError::MissingOperand),
        },
        Operation::Mov => match (inst.first, inst.second) {
            (Some(first), Some(second)) => if (first matches Operand::EffectiveAddress(
                EffectiveAddress::DirectAddress(_, _),
            )) && second == Operand::Register(Register::AX) {
                Ok(spec_clocks_for_wide(10, 1, is_ea_odd))
            } else if first == Operand::Register(Register::AX) && (
            second matches Operand::EffectiveAddress(EffectiveAddress::DirectAddress(_, _))) {
                Ok(spec_clocks_for_wide(10, 1, is_ea_odd))
            } else {
                match (first, second) {
                    (Operand::Register(_), Operand::Register(_)) => Ok((2int, 2int)),
                    (Operand::Register(_), Operand::EffectiveAddress(ea)) => Ok(
                        spec_clocks_for_wide(8 + ea.spec_clocks(), 1, is_ea_odd),
                    ),
                    (Operand::EffectiveAddress(ea), Operand::Register(_)) => Ok(
                        spec_clocks_for_wide(9 + ea.spec_clocks(), 1, is_ea_odd),
                    ),
                    (Operand::Register(_), Operand::Immediate(Data::U16(_))) => Ok((4int, 4int)),
                    (Operand::EffectiveAddress(ea), Operand::Immediate(Data::U16(_))) => Ok(
                        spec_clocks_for_wide(10 + ea.spec_clocks(), 1, is_ea_odd),
                    ),
                    (Operand::SR(_), Operand::Register(_)) => Ok((2int, 2int)),
                    (Operand::SR(_), Operand::EffectiveAddress(ea)) => Ok(
                        spec_clocks_for_wide(8 + ea.spec_clocks(), 1, is_ea_odd),
                    ),
                    (Operand::Register(_), Operand::SR(_)) => Ok((2int, 2int)),
                    (Operand::EffectiveAddress(ea), Operand::SR(_)) => Ok(
                        spec_clocks_for_wide(9 + ea.spec_clocks(), 1, is_ea_odd),
                    ),
                    _ => Err(ExecError::UnsupportedClocks),
                }
            },
            _ => Err(ExecError::MissingOperand),
        },
        Operation::INC | Operation::DEC => match inst.first {
            Some(Operand::Register(reg)) => if reg.spec_is_wide() {
                Ok((2int, 2int))
            } else {
                Ok((3int, 3int))
            },
            Some(_) => Err(ExecError::UnsupportedClocks),
            None => Err(ExecError::MissingOperand),
        },
        Operation::Ret => Ok((8int, 8int)),
        _ => Err(ExecError::UnsupportedClocks),
    }
}

/// The 8088 estimate never undercuts the 8086 estimate: whenever an
/// instruction has a clock estimate, the 8088 count is at least the 8086
/// count, because the 8088 pays the byte-bus transfer penalty
/// unconditionally while the 8086 pays it only on unaligned accesses.
pub proof fn lemma_clock_monotonicity(inst: Instruction, is_ea_odd: bool)
    ensures
        spec_instruction_clocks(inst, is_ea_odd) matches Ok(pair) ==> pair.1 >= pair.0,
{
}

impl Instruction {
    fn get_clocks_for_wide(&self, base: usize, transfers: usize, is_odd_ea: bool) -> (r: (
        usize,
        usize,
    ))
        requires
            base <= 100,
            transfers <= 2,
        ensures
            (r.0 as int, r.1 as int) == spec_clocks_for_wide(
                base as int,
                transfers as int,
                is_odd_ea,
            ),
    {
        let mut c86 = base;
        let mut c88 = base;
        if is_odd_ea {
            c86 = c86 + transfers * 4;
        }
        c88 = c88 + transfers * 4;
        (c86, c88)
    }

    /// The (8086, 8088) clock estimate of this instruction; `is_ea_odd`
    /// says whether its memory operand, if any, resolves to an odd address.
    pub fn clocks(&self, is_ea_odd: bool) -> (r: Result<(usize, usize), ExecError>)
        ensures
            match r {
                Ok(pair) => spec_instruction_clocks(*self, is_ea_odd) == Ok::<
                    (int, int),
                    ExecError,
                >((pair.0 as int, pair.1 as int)),
                Err(e) => spec_instruction_clocks(*self, is_ea_odd) == Err::<
                    (int, int),
                    ExecError,
                >(e),
            },
    {
        match self.operation {
            Operation::Add => {
                let first = match self.first {
                    Some(f) => f,
                    None => {
                        return Err(ExecError::MissingOperand);
                    },
                };
                let second = match self.second {
                    Some(s) => s,
                    None => {
                        return Err(ExecError::MissingOperand);
                    },
                };
                match (first, second) {
                    (Operand::Register(_), Operand::Register(_)) => Ok((3, 3)),
                    (Operand::Register(_), Operand::EffectiveAddress(ea)) => {
                        if matches!(ea.wide(), Wide::Byte) {
                            return Err(ExecError::UnsupportedClocks);
                        }
                        Ok(self.get_clocks_for_wide(9 + ea.clocks(), 1, is_ea_odd))
                    },
                    (Operand::EffectiveAddress(ea), Operand::Register(_)) => {
                        if matches!(ea.wide(), Wide::Byte) {
                            return Err(ExecError::UnsupportedClocks);
                        }
                        Ok(self.get_clocks_for_wide(16 + ea.clocks(), 2, is_ea_odd))
                    },
                    (Operand::Register(_), Operand::Immediate(_)) => Ok((4, 4)),
                    (Operand::EffectiveAddress(ea), Operand::Immediate(_)) => {
                        if matches!(ea.wide(), Wide::Byte) {
                            return Err(ExecError::UnsupportedClocks);
                        }
                        Ok(self.get_clocks_for_wide(17 + ea.clocks(), 2, is_ea_odd))
                    },
                    _ => Err(ExecError::UnsupportedClocks),
                }
            },
            Operation::Mov => {
                let first = match self.first {
                    Some(f) => f,
                    None => {
                        return Err(ExecError::MissingOperand);
                    },
                };
                let second = match self.second {
                    Some(s) => s,
                    None => {
                        return Err(ExecError::MissingOperand);
                    },
                };
                let first_is_da = matches!(
                    first,
                    Operand::EffectiveAddress(EffectiveAddress::DirectAddress(_, _)),
                );
                let second_is_da = matches!(
                    second,
                    Operand::EffectiveAddress(EffectiveAddress::DirectAddress(_, _)),
                );
                if first_is_da && matches!(second, Operand::Register(Register::AX)) {
                    return Ok(self.get_clocks_for_wide(10, 1, is_ea_odd));
                }
                if matches!(first, Operand::Register(Register::AX)) && second_is_da {
                    return Ok(self.get_clocks_for_wide(10, 1, is_ea_odd));
                }
                match (first, second) {
                    (Operand::Register(_), Operand::Register(_)) => Ok((2, 2)),
                    (Operand::Register(_), Operand::EffectiveAddress(ea)) => Ok(
                        self.get_clocks_for_wide(8 + ea.clocks(), 1, is_ea_odd),
                    ),
                    (Operand::EffectiveAddress(ea), Operand::Register(_)) => Ok(
                        self.get_clocks_for_wide(9 + ea.clocks(), 1, is_ea_odd),
                    ),
                    (Operand::Register(_), Operand::Immediate(Data::U16(_))) => Ok((4, 4)),
                    (Operand::EffectiveAddress(ea), Operand::Immediate(Data::U16(_))) => Ok(
                        self.get_clocks_for_wide(10 + ea.clocks(), 1, is_ea_odd),
                    ),
                    (Operand::SR(_), Operand::Register(_)) => Ok((2, 2)),
                    (Operand::SR(_), Operand::EffectiveAddress(ea)) => Ok(
                        self.get_clocks_for_wide(8 + ea.clocks(), 1, is_ea_odd),
                    ),
                    (Operand::Register(_), Operand::SR(_)) => Ok((2, 2)),
                    (Operand::EffectiveAddress(ea), Operand::SR(_)) => Ok(
                        self.get_clocks_for_wide(9 + ea.clocks(), 1, is_ea_odd),
                    ),
                    _ => Err(ExecError::UnsupportedClocks),
                }
            },
            Operation::INC | Operation::DEC => match self.first {
                Some(Operand::Register(reg)) => if reg.is_wide() {
                    Ok((2, 2))
                } else {
                    Ok((3, 3))
                },
                Some(_) => Err(ExecError::UnsupportedClocks),
                None => Err(ExecError::MissingOperand),
            },
            Operation::Ret => Ok((8, 8)),
            _ => Err(ExecError::UnsupportedClocks),
        }
    }

    /// Whether this operation is one of the sixteen conditional jumps.
    pub open spec fn spec_is_conditional_advance(&self) -> bool {
        matches!(
            self.operation,
            Operation::JE | Operation::JL | Operation::JLE | Operation::JB | Operation::JBE
                | Operation::JP | Operation::JO | Operation::JS | Operation::JNE | Operation::JNL
                | Operation::JNLE | Operation::JNB | Operation::JNBE | Operation::JNP
                | Operation::JNO | Operation::JNS,
        )
    }

    #[verifier::when_used_as_spec(spec_is_conditional_advance)]
    pub fn is_conditional_advance(&self) -> (r: bool)
        ensures
            r == self.spec_is_conditional_advance(),
    {
        matches!(
            self.operation,
            Operation::JE | Operation::JL | Operation::JLE | Operation::JB | Operation::JBE
                | Operation::JP | Operation::JO | Operation::JS | Operation::JNE | Operation::JNL
                | Operation::JNLE | Operation::JNB | Operation::JNBE | Operation::JNP
                | Operation::JNO | Operation::JNS,
        )
    }

    /// The taken and not-taken clock pair of a conditional jump: 16 clocks
    /// when taken, 4 when not; an operation that is no conditional jump
    /// carries none.
    pub open spec fn spec_clocks_for_coditional_advance(&self) -> Result<
        (JmpTakenClocks, JmpNotTakenClocks),
        ExecError,
    > {
        if self.spec_is_conditional_advance() {
            Ok((JmpTakenClocks(16), JmpNotTakenClocks(4)))
        } else {
            Err(ExecError::UnsupportedClocks)
        }
    }

    /// The taken and not-taken clocks of this conditional jump.
    pub fn clocks_for_coditional_advance(&self) -> (r: Result<
        (JmpTakenClocks, JmpNotTakenClocks),
        ExecError,
    >)
        requires
            self.spec_is_conditional_advance(),
        ensures
            r == self.spec_clocks_for_coditional_advance(),
    {
        if self.is_conditional_advance() {
            Ok((JmpTakenClocks(16), JmpNotTakenClocks(4)))
        } else {
            Err(ExecError::UnsupportedClocks)
        }
    }
}

} // verus!
