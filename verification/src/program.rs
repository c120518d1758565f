//! The program assembler: wraps sized instructions into an indexable program
//! with a cursor in instruction units, and translates signed byte deltas
//! into cursor movement for IP-relative branching.

use vstd::prelude::*;

use crate::fields::{Operand, Operation};
use crate::instruction::{Inst, InstructionPrefix};

verus! {

/// A fully decoded, sized instruction, ready for program assembly.
#[derive(Clone, Copy, PartialEq, Eq, Structural, Debug)]
pub struct Instruction {
    pub operation: Operation,
    pub first: Option<Operand>,
    pub second: Option<Operand>,
    pub prefix: Option<InstructionPrefix>,
    pub size: usize,
}

/// Why a program could not be assembled or a branch not taken.
#[derive(Clone, Copy, PartialEq, Eq, Structural, Debug)]
pub enum ProgramError {
    /// An instruction carried no size (or a zero size, which no decoded
    /// instruction can have); it cannot take part in byte-delta walking.
    UnsizedInstruction,
    /// A branch delta does not land on an instruction boundary, or walks
    /// outside the program.
    BranchOffBoundary,
}

impl Instruction {
    /// Converts a decoded instruction into a sized one; an instruction
    /// without a positive size is refused.
    pub fn try_from_inst(value: Inst) -> (r: Result<Instruction, ProgramError>)
        ensures
            match r {
                Ok(inst) => {
                    &&& value.size is Some
                    &&& value.size->0 >= 1
                    &&& inst == (Instruction {
                        operation: value.operation,
                        first: value.first,
                        second: value.second,
                        prefix: value.prefix,
                        size: value.size->0,
                    })
                },
                Err(e) => {
                    &&& !(value.size is Some && value.size->0 >= 1)
                    &&& e == ProgramError::UnsizedInstruction
                },
            },
    {
        match value.size {
            Some(size) => {
                if size >= 1 {
                    Ok(
                        Instruction {
                            operation: value.operation,
                            first: value.first,
                            second: value.second,
                            prefix: value.prefix,
                            size,
                        },
                    )
                } else {
                    Err(ProgramError::UnsizedInstruction)
                }
            },
            None => Err(ProgramError::UnsizedInstruction),
        }
    }
}

/// An ordered sequence of sized instructions plus a cursor in instruction
/// units (not bytes).
pub struct Program {
    pub ip: usize,
    pub instructions: Vec<Instruction>,
}

/// The byte offset of the `i`-th instruction boundary: the sum of the sizes
/// of the first `i` instructions.
pub open spec fn spec_byte_offset(insts: Seq<Instruction>, i: int) -> int
    decreases i,
{
    if i <= 0 {
        0
    } else {
        spec_byte_offset(insts, i - 1) + insts[i - 1].size
    }
}

/// Byte offsets grow by at least one per instruction when all sizes are
/// positive, so instruction boundaries are strictly increasing.
pub proof fn lemma_byte_offset_monotonic(insts: Seq<Instruction>, i: int, j: int)
    requires
        0 <= i <= j <= insts.len(),
        forall|k: int| 0 <= k < insts.len() ==> (#[trigger] insts[k]).size >= 1,
    ensures
        spec_byte_offset(insts, i) + (j - i) <= spec_byte_offset(insts, j),
    decreases j - i,
{
    if i < j {
        lemma_byte_offset_monotonic(insts, i, j - 1);
    }
}

impl Program {
    /// Every instruction has a positive size and the cursor is inside
    /// `[0, len]`.
    pub open spec fn wf(self) -> bool {
        &&& self.ip <= self.instructions@.len()
        &&& forall|k: int|
            0 <= k < self.instructions@.len() ==> (#[trigger] self.instructions@[k]).size >= 1
    }

    /// The byte offset of the cursor.
    pub open spec fn spec_cursor_offset(self) -> int {
        spec_byte_offset(self.instructions@, self.ip as int)
    }

    /// Assembles decoded instructions into a program with the cursor at the
    /// start; any unsized instruction is refused.
    pub fn from_insts(value: Vec<Inst>) -> (r: Result<Program, ProgramError>)
        ensures
            match r {
                Ok(p) => {
                    &&& p.wf()
                    &&& p.ip == 0
                    &&& p.instructions@.len() == value@.len()
                    &&& forall|k: int|
                        0 <= k < value@.len() ==> {
                            let v = #[trigger] value@[k];
                            &&& v.size is Some
                            &&& p.instructions@[k] == (Instruction {
                                operation: v.operation,
                                first: v.first,
                                second: v.second,
                                prefix: v.prefix,
                                size: v.size->0,
                            })
                        }
                },
                Err(e) => {
                    &&& e == ProgramError::UnsizedInstruction
                    &&& exists|k: int|
                        0 <= k < value@.len() && !((#[trigger] value@[k]).size is Some
                            && value@[k].size->0 >= 1)
                },
            },
    {
        let mut instructions: Vec<Instruction> = Vec::new();
        let mut i: usize = 0;
        while i < value.len()
            invariant
                i <= value@.len(),
                instructions@.len() == i as int,
                forall|k: int|
                    0 <= k < i as int ==> {
                        let v = #[trigger] value@[k];
                        &&& v.size is Some
                        &&& v.size->0 >= 1
                        &&& instructions@[k] == (Instruction {
                            operation: v.operation,
                            first: v.first,
                            second: v.second,
                            prefix: v.prefix,
                            size: v.size->0,
                        })
                    },
            decreases value@.len() - i,
        {
            let inst = match Instruction::try_from_inst(value[i]) {
                Ok(inst) => inst,
                Err(e) => {
                    return Err(e);
                },
            };
            instructions.push(inst);
            i = i + 1;
        }
        proof {
            assert forall|k: int|
                0 <= k < instructions@.len() implies (#[trigger] instructions@[k]).size
                >= 1 by {
                assert(value@[k].size is Some);
            }
        }
        Ok(Program { ip: 0, instructions })
    }

    /// Hands out the instruction under the cursor and advances it, or
    /// returns `None` at the end of the program.
    pub fn next_instruction(&mut self) -> (r: Option<Instruction>)
        requires
            old(self).wf(),
        ensures
            final(self).instructions@ == old(self).instructions@,
            final(self).wf(),
            old(self).ip < old(self).instructions@.len() ==> {
                &&& r == Some(old(self).instructions@[old(self).ip as int])
                &&& final(self).ip == old(self).ip + 1
            },
            old(self).ip == old(self).instructions@.len() ==> {
                &&& r is None
                &&& final(self).ip == old(self).ip
            },
    {
        if self.ip < self.instructions.len() {
            let inst = self.instructions[self.ip];
            self.ip = self.ip + 1;
            Some(inst)
        } else {
            None
        }
    }

    /// Steps the cursor back one instruction and reports that instruction's
    /// size in bytes, or returns `None` at the start.
    fn go_back(&mut self) -> (r: Option<usize>)
        requires
            old(self).wf(),
        ensures
            final(self).instructions@ == old(self).instructions@,
            final(self).wf(),
            old(self).ip > 0 ==> {
                &&& r == Some(old(self).instructions@[old(self).ip - 1].size)
                &&& final(self).ip == old(self).ip - 1
            },
            old(self).ip == 0 ==> {
                &&& r is None
                &&& final(self).ip == old(self).ip
            },
    {
        if self.ip > 0 {
            let size = self.instructions[self.ip - 1].size;
            self.ip = self.ip - 1;
            Some(size)
        } else {
            None
        }
    }

    /// Moves the cursor by a signed byte delta, walking instruction by
    /// instruction until the delta is exactly consumed.
    ///
    /// Succeeds exactly when the target byte offset is an instruction
    /// boundary within the program; then the cursor lands on it. Otherwise
    /// the branch is off-boundary, the cursor is left where the walk
    /// stopped, and an error surfaces.
    pub fn advance_by(&mut self, nbytes: i16) -> (r: Result<(), ProgramError>)
        requires
            old(self).wf(),
        ensures
            final(self).instructions@ == old(self).instructions@,
            final(self).wf(),
            match r {
                Ok(_) => {
                    &&& final(self).spec_cursor_offset() == old(self).spec_cursor_offset()
                        + nbytes
                    &&& final(self).ip <= final(self).instructions@.len()
                },
                Err(e) => {
                    &&& e == ProgramError::BranchOffBoundary
                    &&& final(self).ip == old(self).ip
                    &&& forall|k: int|
                        0 <= k <= old(self).instructions@.len()
                            ==> spec_byte_offset(old(self).instructions@, k) != old(
                            self,
                        ).spec_cursor_offset() + nbytes
                },
            },
    {
        let ghost insts = self.instructions@;
        let ghost target = old(self).spec_cursor_offset() + nbytes;
        let entry_ip: usize = self.ip;
        let mut rem: i32 = nbytes as i32;
        while rem != 0
            invariant
                self.wf(),
                insts == old(self).instructions@,
                target == old(self).spec_cursor_offset() + nbytes,
                entry_ip == old(self).ip,
                entry_ip <= insts.len(),
                self.instructions@ == insts,
                -0x8000 <= rem <= 0x8000,
                self.spec_cursor_offset() + rem == target,
            decreases (if rem >= 0 { rem as int } else { -(rem as int) }),
        {
            if rem > 0 {
                let ghost ip0 = self.ip as int;
                match self.next_instruction() {
                    Some(inst) => {
                        if inst.size > (rem as usize) {
                            // overshot the target: between two boundaries
                            proof {
                                lemma_no_boundary_at(insts, target, self.ip as int);
                            }
                            self.ip = entry_ip;
                            return Err(ProgramError::BranchOffBoundary);
                        }
                        rem = rem - (inst.size as i32);
                    },
                    None => {
                        // ran off the end: the target is past the program
                        proof {
                            lemma_no_boundary_past_end(insts, target);
                        }
                        self.ip = entry_ip;
                        return Err(ProgramError::BranchOffBoundary);
                    },
                }
            } else {
                match self.go_back() {
                    Some(size) => {
                        if size > ((-rem) as usize) {
                            // overshot the target walking backwards
                            proof {
                                lemma_no_boundary_at(insts, target, self.ip as int + 1);
                            }
                            self.ip = entry_ip;
                            return Err(ProgramError::BranchOffBoundary);
                        }
                        rem = rem + (size as i32);
                    },
                    None => {
                        // ran off the start: the target is before the program
                        proof {
                            lemma_no_boundary_before_start(insts, target);
                        }
                        self.ip = entry_ip;
                        return Err(ProgramError::BranchOffBoundary);
                    },
                }
            }
        }
        Ok(())
    }
}

/// No instruction boundary has a byte offset strictly between the `at - 1`-th
/// and the `at`-th; a target offset strictly between them is off-boundary.
proof fn lemma_no_boundary_at(insts: Seq<Instruction>, target: int, at: int)
    requires
        forall|k: int| 0 <= k < insts.len() ==> (#[trigger] insts[k]).size >= 1,
        1 <= at <= insts.len(),
        spec_byte_offset(insts, at - 1) < target < spec_byte_offset(insts, at),
    ensures
        forall|k: int| 0 <= k <= insts.len() ==> spec_byte_offset(insts, k) != target,
{
    assert forall|k: int| 0 <= k <= insts.len() implies spec_byte_offset(insts, k)
        != target by {
        if k <= at - 1 {
            lemma_byte_offset_monotonic(insts, k, at - 1);
        } else {
            lemma_byte_offset_monotonic(insts, at, k);
        }
    }
}

/// A target offset beyond the last boundary is off-boundary.
proof fn lemma_no_boundary_past_end(insts: Seq<Instruction>, target: int)
    requires
        forall|k: int| 0 <= k < insts.len() ==> (#[trigger] insts[k]).size >= 1,
        spec_byte_offset(insts, insts.len() as int) < target,
    ensures
        forall|k: int| 0 <= k <= insts.len() ==> spec_byte_offset(insts, k) != target,
{
    assert forall|k: int| 0 <= k <= insts.len() implies spec_byte_offset(insts, k)
        != target by {
        lemma_byte_offset_monotonic(insts, k, insts.len() as int);
    }
}

/// A target offset before the first boundary is off-boundary.
proof fn lemma_no_boundary_before_start(insts: Seq<Instruction>, target: int)
    requires
        forall|k: int| 0 <= k < insts.len() ==> (#[trigger] insts[k]).size >= 1,
        target < 0,
    ensures
        forall|k: int| 0 <= k <= insts.len() ==> spec_byte_offset(insts, k) != target,
{
    assert forall|k: int| 0 <= k <= insts.len() implies spec_byte_offset(insts, k)
        != target by {
        lemma_byte_offset_monotonic(insts, 0, k);
    }
}

} // verus!
