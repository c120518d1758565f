//! Decoder, text emitter and functional simulator for a subset of the Intel
//! 8086/8088 16-bit instruction set.
//!
//! A flat binary image is decoded into a structured instruction stream
//! (`decode_8086`), re-emitted as assembler text (`write_8086`), and executed
//! on a modeled CPU — registers, flags, a 64 KiB memory and an instruction
//! pointer — with optional per-instruction clock estimates for the 8086 and
//! 8088 (`simulator::Simulator`).

pub mod decoder;
pub mod disasm;
pub mod extractors;
pub mod clocks;
pub mod cpu;
pub mod fields;
pub mod handlers;
pub mod instruction;
pub mod operands;
pub mod program;
pub mod simulator;
pub mod text;

pub use disasm::decode_8086;
pub use text::write_8086;

use vstd::prelude::*;

verus! {

/// A cursor over a byte buffer with peeking and a running count of the bytes
/// handed out. Instruction sizes are learned by subtracting cursor positions,
/// so the count is part of the contract of every decoding step.
pub struct EnumeratePeekable<'a> {
    pub bytes: &'a [u8],
    pub pos: usize,
}

impl<'a> EnumeratePeekable<'a> {
    /// The cursor never runs past the end of the buffer.
    pub open spec fn wf(self) -> bool {
        self.pos <= self.bytes@.len()
    }

    /// The bytes not yet handed out.
    pub open spec fn remaining(self) -> Seq<u8> {
        self.bytes@.skip(self.pos as int)
    }

    pub fn new(bytes: &'a [u8]) -> (r: Self)
        ensures
            r.bytes@ == bytes@,
            r.pos == 0,
            r.wf(),
    {
        EnumeratePeekable { bytes, pos: 0 }
    }

    /// Hands out the next byte and advances, or returns `None` at the end.
    pub fn next(&mut self) -> (r: Option<u8>)
        requires
            old(self).wf(),
        ensures
            final(self).bytes@ == old(self).bytes@,
            final(self).wf(),
            old(self).pos < old(self).bytes@.len() ==> {
                &&& r == Some(old(self).bytes@[old(self).pos as int])
                &&& final(self).pos == old(self).pos + 1
            },
            old(self).pos == old(self).bytes@.len() ==> {
                &&& r is None
                &&& final(self).pos == old(self).pos
            },
    {
        if self.pos < self.bytes.len() {
            let b = self.bytes[self.pos];
            self.pos = self.pos + 1;
            Some(b)
        } else {
            None
        }
    }

    /// Looks at the next byte without consuming it.
    pub fn peek(&self) -> (r: Option<u8>)
        requires
            self.wf(),
        ensures
            self.pos < self.bytes@.len() ==> r == Some(self.bytes@[self.pos as int]),
            self.pos == self.bytes@.len() ==> r is None,
    {
        if self.pos < self.bytes.len() {
            Some(self.bytes[self.pos])
        } else {
            None
        }
    }

    /// Like `next`, but also reports the index of the byte handed out.
    pub fn next_with_index(&mut self) -> (r: Option<(usize, u8)>)
        requires
            old(self).wf(),
        ensures
            final(self).bytes@ == old(self).bytes@,
            final(self).wf(),
            old(self).pos < old(self).bytes@.len() ==> {
                &&& r == Some((old(self).pos, old(self).bytes@[old(self).pos as int]))
                &&& final(self).pos == old(self).pos + 1
            },
            old(self).pos == old(self).bytes@.len() ==> {
                &&& r is None
                &&& final(self).pos == old(self).pos
            },
    {
        if self.pos < self.bytes.len() {
            let b = self.bytes[self.pos];
            let i = self.pos;
            self.pos = self.pos + 1;
            Some((i, b))
        } else {
            None
        }
    }

    /// How many bytes have been handed out so far.
    pub fn vended_count(&self) -> (r: usize)
        ensures
            r == self.pos,
    {
        self.pos
    }
}

} // verus!
