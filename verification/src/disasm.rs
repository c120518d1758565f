//! The outer decode loop: reads the byte stream, dispatches through the
//! opcode table, accumulates prefixes onto the next real instruction, and
//! sizes each instruction from the stream positions at which instructions
//! start.
//!
//! `decode_8086` is specified completely by `spec_decode`: the instruction
//! list it returns (or the error) is exactly what the specification
//! function computes from the bytes, and on success the instruction sizes
//! partition the input: every instruction is sized, at least one byte each,
//! and the sizes sum to the input length.

use vstd::prelude::*;

use crate::EnumeratePeekable;
use crate::decoder::{decode_instruction, spec_decode_instruction, DecodeError, DecoderOut};
use crate::instruction::{spec_join_prefix, join_prefix, Inst, InstructionPrefix};
use crate::operands::{decode_with_shape, spec_shape_inst, spec_shape_len};

verus! {

/// The size a decoded instruction carries; unsized instructions count zero.
pub open spec fn spec_size_of(inst: Inst) -> int {
    match inst.size {
        Some(s) => s as int,
        None => 0,
    }
}

/// The sum of the instructions' byte sizes.
pub open spec fn spec_sizes_sum(insts: Seq<Inst>) -> int
    decreases insts.len(),
{
    if insts.len() == 0 {
        0
    } else {
        spec_sizes_sum(insts.drop_last()) + spec_size_of(insts.last())
    }
}

/// One pass of the decode loop, as a function of the whole byte image:
/// `pos` is the cursor, `pending` the accumulated prefix, `start` the byte
/// index at which the current instruction (prefixes included) began, and
/// `acc` the instructions decoded so far.
///
/// A prefix byte joins the pending prefix and recurses; an instruction byte
/// dispatches through the table, draws the shape's bytes, attaches the
/// pending prefix, and is sized from `start` to the byte after its last.
/// The stream ending with a prefix pending is a truncated instruction.
pub open spec fn spec_decode_loop(
    bytes: Seq<u8>,
    pos: int,
    pending: Option<InstructionPrefix>,
    start: int,
    acc: Seq<Inst>,
) -> Result<Seq<Inst>, DecodeError>
    decreases bytes.len() - pos,
{
    if pos < 0 || pos >= bytes.len() {
        if pending is Some {
            Err(DecodeError::Truncated)
        } else {
            Ok(acc)
        }
    } else {
        let first = bytes[pos];
        let second = if pos + 1 < bytes.len() {
            Some(bytes[pos + 1])
        } else {
            None
        };
        match spec_decode_instruction(first, second) {
            None => Err(DecodeError::UnknownOpcode { first, second }),
            Some(DecoderOut::Prefix(prefix)) => {
                let joined = match pending {
                    Some(prev) => spec_join_prefix(prev, prefix),
                    None => prefix,
                };
                let new_start = if pending is Some {
                    start
                } else {
                    pos
                };
                spec_decode_loop(bytes, pos + 1, Some(joined), new_start, acc)
            },
            Some(DecoderOut::Inst(op, shape)) => {
                let rest = bytes.skip(pos + 1);
                let len = spec_shape_len(shape, first, rest) as int;
                if rest.len() < len {
                    Err(DecodeError::Truncated)
                } else {
                    let inst0 = spec_shape_inst(shape, first, rest, op);
                    let istart = if pending is Some {
                        start
                    } else {
                        pos
                    };
                    let sized = Inst {
                        prefix: pending,
                        size: Some((pos + 1 + len - istart) as usize),
                        ..inst0
                    };
                    spec_decode_loop(bytes, pos + 1 + len, None, istart, acc.push(sized))
                }
            },
        }
    }
}

/// What decoding a whole byte image yields.
pub open spec fn spec_decode(bytes: Seq<u8>) -> Result<Seq<Inst>, DecodeError> {
    spec_decode_loop(bytes, 0, None, 0, Seq::empty())
}

/// Decodes a flat binary image into its instruction stream.
///
/// The result is exactly [`spec_decode`] of the bytes. On success every
/// instruction carries a size of at least one byte, and the sizes sum to
/// the length of the input.
pub fn decode_8086(byte_stream_raw: &[u8]) -> (r: Result<Vec<Inst>, DecodeError>)
    ensures
        match r {
            Ok(insts) => spec_decode(byte_stream_raw@) == Ok::<Seq<Inst>, DecodeError>(insts@),
            Err(e) => spec_decode(byte_stream_raw@) == Err::<Seq<Inst>, DecodeError>(e),
        },
        match r {
            Ok(insts) => {
                &&& forall|i: int|
                    0 <= i < insts@.len() ==> (#[trigger] insts@[i]).size is Some
                        && insts@[i].size->0 >= 1
                &&& spec_sizes_sum(insts@) == byte_stream_raw@.len()
            },
            Err(_) => true,
        },
{
    let ghost bytes = byte_stream_raw@;
    let mut stream = EnumeratePeekable::new(byte_stream_raw);
    let mut instructions: Vec<Inst> = Vec::new();
    let mut inst_prefix: Option<InstructionPrefix> = None;
    let mut start: usize = 0;
    loop
        invariant
            stream.wf(),
            stream.bytes@ == bytes,
            byte_stream_raw@ == bytes,
            inst_prefix is None ==> spec_sizes_sum(instructions@) == stream.pos,
            inst_prefix is Some ==> spec_sizes_sum(instructions@) == start && start
                <= stream.pos,
            forall|i: int|
                0 <= i < instructions@.len() ==> (#[trigger] instructions@[i]).size is Some
                    && instructions@[i].size->0 >= 1,
            spec_decode(bytes) == spec_decode_loop(
                bytes,
                stream.pos as int,
                inst_prefix,
                start as int,
                instructions@,
            ),
        ensures
            stream.wf(),
            stream.bytes@ == bytes,
            stream.pos == bytes.len(),
            inst_prefix is None ==> spec_sizes_sum(instructions@) == stream.pos,
            forall|i: int|
                0 <= i < instructions@.len() ==> (#[trigger] instructions@[i]).size is Some
                    && instructions@[i].size->0 >= 1,
            spec_decode(bytes) == spec_decode_loop(
                bytes,
                stream.pos as int,
                inst_prefix,
                start as int,
                instructions@,
            ),
        decreases bytes.len() - stream.pos,
    {
        let ghost pos0 = stream.pos as int;
        let ghost pending0 = inst_prefix;
        let ghost start0 = start as int;
        let ghost acc0 = instructions@;
        let (idx, first_byte) = match stream.next_with_index() {
            Some(p) => p,
            None => {
                break;
            },
        };
        if inst_prefix.is_none() {
            start = idx;
        }
        let second_byte = stream.peek();
        proof {
            assert(second_byte == (if pos0 + 1 < bytes.len() {
                Some(bytes[pos0 + 1])
            } else {
                None::<u8>
            }));
        }
        match decode_instruction(first_byte, second_byte) {
            Err(e) => {
                return Err(e);
            },
            Ok(DecoderOut::Prefix(prefix)) => {
                inst_prefix = Some(
                    match inst_prefix {
                        Some(prev) => join_prefix(prev, prefix),
                        None => prefix,
                    },
                );
                proof {
                    assert(spec_decode_loop(bytes, pos0, pending0, start0, acc0)
                        == spec_decode_loop(
                        bytes,
                        stream.pos as int,
                        inst_prefix,
                        start as int,
                        instructions@,
                    ));
                }
            },
            Ok(DecoderOut::Inst(op, shape)) => {
                let ghost rest = bytes.skip(pos0 + 1);
                let mut inst = match decode_with_shape(shape, first_byte, &mut stream, op) {
                    Ok(inst) => inst,
                    Err(e) => {
                        return Err(e);
                    },
                };
                if let Some(prefix) = inst_prefix {
                    inst.add_instruction_prefix(prefix);
                    inst_prefix = None;
                }
                let vended = stream.vended_count();
                inst.set_size(vended - start);
                instructions.push(inst);
                proof {
                    let len = spec_shape_len(shape, bytes[pos0], rest) as int;
                    assert(instructions@ == acc0.push(inst));
                    assert(acc0.push(inst).drop_last() =~= acc0);
                    assert(spec_sizes_sum(instructions@) == spec_sizes_sum(acc0)
                        + spec_size_of(inst));
                    assert(spec_decode_loop(bytes, pos0, pending0, start0, acc0)
                        == spec_decode_loop(
                        bytes,
                        stream.pos as int,
                        inst_prefix,
                        start as int,
                        instructions@,
                    ));
                }
            },
        }
    }
    proof {
        assert(spec_decode(bytes) == (if inst_prefix is Some {
            Err::<Seq<Inst>, DecodeError>(DecodeError::Truncated)
        } else {
            Ok::<Seq<Inst>, DecodeError>(instructions@)
        }));
    }
    if inst_prefix.is_some() {
        return Err(DecodeError::Truncated);
    }
    Ok(instructions)
}

} // verus!
