//! The decoded instruction: an operation, up to two operands, an optional
//! prefix, and a byte size that is set once all of the instruction's bytes
//! have been consumed.

use vstd::prelude::*;

use crate::fields::{Operand, Operation, SegmentRegister};

verus! {

/// A prefix byte attached to the following instruction. LOCK combined with a
/// segment override joins into `LockSegmentOverride`; any other pair keeps
/// the most recent prefix.
#[derive(Clone, Copy, PartialEq, Eq, Structural, Debug)]
pub enum InstructionPrefix {
    Lock,
    Rep,
    SegmentOverride(SegmentRegister),
    LockSegmentOverride(SegmentRegister),
}

/// The joining rule for two consecutive prefixes: LOCK with a segment
/// override (in either order) becomes `LockSegmentOverride`; any other pair
/// keeps the most recent one.
pub open spec fn spec_join_prefix(
    prev: InstructionPrefix,
    curr: InstructionPrefix,
) -> InstructionPrefix {
    match (prev, curr) {
        (InstructionPrefix::Lock, InstructionPrefix::SegmentOverride(seg)) =>
            InstructionPrefix::LockSegmentOverride(seg),
        (InstructionPrefix::SegmentOverride(seg), InstructionPrefix::Lock) =>
            InstructionPrefix::LockSegmentOverride(seg),
        _ => curr,
    }
}

/// Joins two consecutive prefixes.
pub fn join_prefix(prev: InstructionPrefix, curr: InstructionPrefix) -> (r: InstructionPrefix)
    ensures
        r == spec_join_prefix(prev, curr),
{
    match (prev, curr) {
        (InstructionPrefix::Lock, InstructionPrefix::SegmentOverride(seg)) =>
            InstructionPrefix::LockSegmentOverride(seg),
        (InstructionPrefix::SegmentOverride(seg), InstructionPrefix::Lock) =>
            InstructionPrefix::LockSegmentOverride(seg),
        _ => curr,
    }
}

/// A decoded instruction. `size` is `None` until the decoder has observed
/// where the next instruction starts; an unsized instruction cannot be
/// assembled into a program.
#[derive(Clone, Copy, PartialEq, Eq, Structural, Debug)]
pub struct Inst {
    pub operation: Operation,
    pub first: Option<Operand>,
    pub second: Option<Operand>,
    pub prefix: Option<InstructionPrefix>,
    pub size: Option<usize>,
}

impl Inst {
    /// An instruction with no operands, unsized and without a prefix.
    pub fn new(op: Operation) -> (r: Inst)
        ensures
            r == (Inst { operation: op, first: None, second: None, prefix: None, size: None }),
    {
        Inst { operation: op, first: None, second: None, prefix: None, size: None }
    }

    /// An instruction with one operand.
    pub fn with_operand(op: Operation, first: Operand) -> (r: Inst)
        ensures
            r == (Inst {
                operation: op,
                first: Some(first),
                second: None,
                prefix: None,
                size: None,
            }),
    {
        Inst { operation: op, first: Some(first), second: None, prefix: None, size: None }
    }

    /// An instruction with one operand; a second spelling of
    /// [`Inst::with_operand`] kept for callers that prefer it.
    pub fn with_operand_v2(op: Operation, first: Operand) -> (r: Inst)
        ensures
            r == (Inst {
                operation: op,
                first: Some(first),
                second: None,
                prefix: None,
                size: None,
            }),
    {
        Inst { operation: op, first: Some(first), second: None, prefix: None, size: None }
    }

    /// An instruction with two operands.
    pub fn with_operands(op: Operation, first: Operand, second: Operand) -> (r: Inst)
        ensures
            r == (Inst {
                operation: op,
                first: Some(first),
                second: Some(second),
                prefix: None,
                size: None,
            }),
    {
        Inst { operation: op, first: Some(first), second: Some(second), prefix: None, size: None }
    }

    /// An instruction with two operands; a second spelling of
    /// [`Inst::with_operands`] kept for callers that prefer it.
    pub fn with_operands_v2(op: Operation, first: Operand, second: Operand) -> (r: Inst)
        ensures
            r == (Inst {
                operation: op,
                first: Some(first),
                second: Some(second),
                prefix: None,
                size: None,
            }),
    {
        Inst { operation: op, first: Some(first), second: Some(second), prefix: None, size: None }
    }

    /// Attaches a prefix to the instruction.
    pub fn add_instruction_prefix(&mut self, prefix: InstructionPrefix)
        ensures
            *final(self) == (Inst { prefix: Some(prefix), ..*old(self) }),
    {
        self.prefix = Some(prefix);
    }

    /// Records the instruction's size in bytes.
    pub fn set_size(&mut self, size: usize)
        ensures
            *final(self) == (Inst { size: Some(size), ..*old(self) }),
    {
        self.size = Some(size);
    }

    /// The instruction's size in bytes, once set.
    pub fn size(&self) -> (r: Option<usize>)
        ensures
            r == self.size,
    {
        self.size
    }
}

} // verus!
