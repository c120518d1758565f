//! Shared bit-field extractors: the W, S, D and V bits of the first byte,
//! the mod/reg/r-m fields of the second byte, displacements, immediates
//! (with and without sign extension), jump increments and far targets.
//!
//! Extractors that consume bytes draw them from an [`EnumeratePeekable`] and
//! report `Truncated` when the stream runs dry mid-instruction.

use vstd::prelude::*;

use crate::EnumeratePeekable;
use crate::decoder::DecodeError;
use crate::fields::{
    register_from_u8, spec_register_from_u8, spec_sr_from_u8, sr_from_u8, CsIp, Data,
    EffectiveAddress, Inc, Register, SegmentRegister, Wide, RM,
};

verus! {

/// The S bit: bit 1 of the first byte.
pub open spec fn spec_sign_extend(first_byte: u8) -> bool {
    first_byte & 0x02 == 0x02
}

/// Whether the immediate of this instruction is one byte sign-extended to a
/// word (meaningful together with `W = 1`).
pub fn sign_extend(first_byte: u8) -> (r: bool)
    ensures
        r == spec_sign_extend(first_byte),
{
    first_byte & 0x02 == 0x02
}

/// The W bit under a per-shape mask. A mask of zero means the shape has no
/// W bit, and the test is vacuously true.
pub open spec fn spec_is_wide(wide_mask: u8, first_byte: u8) -> bool {
    first_byte & wide_mask == wide_mask
}

/// Whether the instruction operates on words rather than bytes.
pub fn is_wide(wide_mask: u8, first_byte: u8) -> (r: bool)
    ensures
        r == spec_is_wide(wide_mask, first_byte),
{
    first_byte & wide_mask == wide_mask
}

/// The width tag a memory operand of this shape carries: none when the shape
/// has no W bit, else byte or word by the W bit.
pub open spec fn spec_wide_size(wide_mask: u8, first_byte: u8) -> Wide {
    if wide_mask == 0 {
        Wide::Implicit
    } else if spec_is_wide(wide_mask, first_byte) {
        Wide::Word
    } else {
        Wide::Byte
    }
}

pub fn get_wide_size(wide_mask: u8, first_byte: u8) -> (r: Wide)
    ensures
        r == spec_wide_size(wide_mask, first_byte),
{
    if wide_mask == 0 {
        Wide::Implicit
    } else if is_wide(wide_mask, first_byte) {
        Wide::Word
    } else {
        Wide::Byte
    }
}

/// The D bit: bit 1 of the first byte. When set, the `reg` field names the
/// destination operand.
pub open spec fn spec_is_dest_in_reg_field(first_byte: u8) -> bool {
    first_byte & 0x02 == 0x02
}

pub fn is_dest_in_reg_field(first_byte: u8) -> (r: bool)
    ensures
        r == spec_is_dest_in_reg_field(first_byte),
{
    first_byte & 0x02 == 0x02
}

/// The V bit: bit 1 of the first byte. When set, a shift count comes from CL;
/// when clear it is the literal 1.
pub open spec fn spec_is_v_set(first_byte: u8) -> bool {
    first_byte & 0x02 == 0x02
}

pub fn is_v_set(first_byte: u8) -> (r: bool)
    ensures
        r == spec_is_v_set(first_byte),
{
    first_byte & 0x02 == 0x02
}

/// The mod field: bits 7..6 of the second byte.
pub open spec fn spec_extract_mod(second_byte: u8) -> u8 {
    (second_byte >> 6) & 0x03
}

pub fn extract_mod(second_byte: u8) -> (r: u8)
    ensures
        r == spec_extract_mod(second_byte),
        r < 4,
{
    let r = (second_byte >> 6) & 0x03;
    assert(r < 4) by (bit_vector)
        requires
            r == (second_byte >> 6) & 0x03,
    ;
    r
}

/// The r-m field: bits 2..0 of the second byte.
pub open spec fn spec_extract_rm_bin(second_byte: u8) -> u8 {
    second_byte & 0x07
}

pub fn extract_rm_bin(second_byte: u8) -> (r: u8)
    ensures
        r == spec_extract_rm_bin(second_byte),
        r < 8,
{
    let r = second_byte & 0x07;
    assert(r < 8) by (bit_vector)
        requires
            r == second_byte & 0x07,
    ;
    r
}

/// A register field extracted from `reg_byte` after a per-shape right shift,
/// decoded through the standard register table under the W bit.
pub open spec fn spec_extract_reg(
    wide_mask: u8,
    right_shift: u8,
    first_byte: u8,
    reg_byte: u8,
) -> Register {
    spec_register_from_u8((reg_byte >> right_shift) & 0x07, spec_is_wide(wide_mask, first_byte))
}

pub fn extract_reg(wide_mask: u8, right_shift: u8, first_byte: u8, reg_byte: u8) -> (r: Register)
    requires
        right_shift < 8,
    ensures
        r == spec_extract_reg(wide_mask, right_shift, first_byte, reg_byte),
{
    let wide = is_wide(wide_mask, first_byte);
    let bits = (reg_byte >> right_shift) & 0x07;
    assert(bits < 8) by (bit_vector)
        requires
            bits == (reg_byte >> right_shift) & 0x07,
    ;
    register_from_u8(bits, wide)
}

/// A segment-register field extracted after a per-shape right shift.
pub open spec fn spec_extract_sr(right_shift: u8, sr_byte: u8) -> SegmentRegister {
    spec_sr_from_u8((sr_byte >> right_shift) & 0x03)
}

pub fn extract_sr(right_shift: u8, sr_byte: u8) -> (r: SegmentRegister)
    requires
        right_shift < 8,
    ensures
        r == spec_extract_sr(right_shift, sr_byte),
{
    let bits = (sr_byte >> right_shift) & 0x03;
    assert(bits < 4) by (bit_vector)
        requires
            bits == (sr_byte >> right_shift) & 0x03,
    ;
    sr_from_u8(bits)
}

/// A byte sign-extended to 16 bits, as a `u16` bit pattern.
pub open spec fn spec_sign_extend_u8(b: u8) -> u16 {
    ((b as i8) as i16) as u16
}

/// A 16-bit value from two little-endian bytes.
pub open spec fn spec_le_word(low: u8, high: u8) -> u16 {
    (((high as u16) << 8) | (low as u16)) as u16
}

/// How many displacement bytes follow, by the mod and r-m fields:
/// one for `mod = 01`, two for `mod = 10` and for the direct-address special
/// case `mod = 00, r-m = 110`, none otherwise.
pub open spec fn spec_disp_len(modf: u8, rm: u8) -> nat {
    if modf == 1 {
        1
    } else if modf == 2 || (modf == 0 && rm == 6) {
        2
    } else {
        0
    }
}

/// The displacement drawn from the bytes that follow: `mod = 01` reads one
/// byte sign-extended; `mod = 10` and the direct-address case read a
/// little-endian word.
pub open spec fn spec_disp(modf: u8, rm: u8, rest: Seq<u8>) -> Option<u16> {
    if modf == 1 {
        Some(spec_sign_extend_u8(rest[0]))
    } else if modf == 2 || (modf == 0 && rm == 6) {
        Some(spec_le_word(rest[0], rest[1]))
    } else {
        None
    }
}

/// Draws the displacement bytes selected by the mod and r-m fields.
pub fn extract_disp(
    modf: u8,
    rm: u8,
    stream: &mut EnumeratePeekable,
) -> (r: Result<Option<u16>, DecodeError>)
    requires
        old(stream).wf(),
    ensures
        final(stream).bytes@ == old(stream).bytes@,
        final(stream).wf(),
        match r {
            Ok(d) => {
                &&& old(stream).remaining().len() >= spec_disp_len(modf, rm)
                &&& d == spec_disp(modf, rm, old(stream).remaining())
                &&& final(stream).pos == old(stream).pos + spec_disp_len(modf, rm)
            },
            Err(e) => {
                &&& old(stream).remaining().len() < spec_disp_len(modf, rm)
                &&& e == DecodeError::Truncated
            },
        },
{
    if modf == 1 {
        match stream.next() {
            Some(b) => Ok(Some((b as i8) as u16)),
            None => Err(DecodeError::Truncated),
        }
    } else if modf == 2 || (modf == 0 && rm == 6) {
        let low = match stream.next() {
            Some(b) => b,
            None => {
                return Err(DecodeError::Truncated);
            },
        };
        let high = match stream.next() {
            Some(b) => b,
            None => {
                return Err(DecodeError::Truncated);
            },
        };
        Ok(Some(((high as u16) << 8) | (low as u16)))
    } else {
        Ok(None)
    }
}

/// How many bytes the whole mod/r-m operand consumes after the second byte.
pub open spec fn spec_rm_len(second_byte: u8) -> nat {
    spec_disp_len(spec_extract_mod(second_byte), spec_extract_rm_bin(second_byte))
}

/// The register-or-memory operand encoded by the mod and r-m fields:
/// `mod = 11` names a register; `mod = 00, r-m = 110` is a direct address;
/// every other pairing is a base form with the displacement of
/// [`spec_disp`].
pub open spec fn spec_rm(wide_mask: u8, first_byte: u8, second_byte: u8, rest: Seq<u8>) -> RM {
    let modf = spec_extract_mod(second_byte);
    let rm = spec_extract_rm_bin(second_byte);
    let wide = spec_is_wide(wide_mask, first_byte);
    let ws = spec_wide_size(wide_mask, first_byte);
    let disp = spec_disp(modf, rm, rest);
    if modf == 3 {
        RM::Reg(spec_register_from_u8(rm, wide))
    } else if modf == 0 && rm == 6 {
        RM::Mem(EffectiveAddress::DirectAddress(disp->0, ws))
    } else {
        if rm == 0 { RM::Mem(EffectiveAddress::BX_SI(disp, ws)) }
        else if rm == 1 { RM::Mem(EffectiveAddress::BX_DI(disp, ws)) }
        else if rm == 2 { RM::Mem(EffectiveAddress::BP_SI(disp, ws)) }
        else if rm == 3 { RM::Mem(EffectiveAddress::BP_DI(disp, ws)) }
        else if rm == 4 { RM::Mem(EffectiveAddress::SI(disp, ws)) }
        else if rm == 5 { RM::Mem(EffectiveAddress::DI(disp, ws)) }
        else if rm == 6 { RM::Mem(EffectiveAddress::BP(disp->0, ws)) }
        else { RM::Mem(EffectiveAddress::BX(disp, ws)) }
    }
}

/// Decodes the register-or-memory operand, drawing its displacement bytes.
pub fn extract_rm(
    wide_mask: u8,
    first_byte: u8,
    second_byte: u8,
    stream: &mut EnumeratePeekable,
) -> (r: Result<RM, DecodeError>)
    requires
        old(stream).wf(),
    ensures
        final(stream).bytes@ == old(stream).bytes@,
        final(stream).wf(),
        match r {
            Ok(rm) => {
                &&& old(stream).remaining().len() >= spec_rm_len(second_byte)
                &&& rm == spec_rm(wide_mask, first_byte, second_byte, old(stream).remaining())
                &&& final(stream).pos == old(stream).pos + spec_rm_len(second_byte)
            },
            Err(e) => {
                &&& old(stream).remaining().len() < spec_rm_len(second_byte)
                &&& e == DecodeError::Truncated
            },
        },
{
    let wide = is_wide(wide_mask, first_byte);
    let ws = get_wide_size(wide_mask, first_byte);
    let modf = extract_mod(second_byte);
    let rm = extract_rm_bin(second_byte);
    let disp = match extract_disp(modf, rm, stream) {
        Ok(d) => d,
        Err(e) => {
            return Err(e);
        },
    };
    if modf == 3 {
        Ok(RM::Reg(register_from_u8(rm, wide)))
    } else if modf == 0 && rm == 6 {
        let d = match disp {
            Some(d) => d,
            None => {
                // unreachable: this mod/r-m pairing always carries a displacement
                return Err(DecodeError::Truncated);
            },
        };
        Ok(RM::Mem(EffectiveAddress::DirectAddress(d, ws)))
    } else {
        Ok(match rm {
            0 => RM::Mem(EffectiveAddress::BX_SI(disp, ws)),
            1 => RM::Mem(EffectiveAddress::BX_DI(disp, ws)),
            2 => RM::Mem(EffectiveAddress::BP_SI(disp, ws)),
            3 => RM::Mem(EffectiveAddress::BP_DI(disp, ws)),
            4 => RM::Mem(EffectiveAddress::SI(disp, ws)),
            5 => RM::Mem(EffectiveAddress::DI(disp, ws)),
            6 => {
                let d = match disp {
                    Some(d) => d,
                    None => {
                        // unreachable: mod = 01 or 10 here, both carry one
                        return Err(DecodeError::Truncated);
                    },
                };
                RM::Mem(EffectiveAddress::BP(d, ws))
            },
            _ => RM::Mem(EffectiveAddress::BX(disp, ws)),
        })
    }
}

/// How many immediate bytes the W bit selects: two when wide, one otherwise.
pub open spec fn spec_data_len(wide_mask: u8, first_byte: u8) -> nat {
    if spec_is_wide(wide_mask, first_byte) {
        2
    } else {
        1
    }
}

/// The immediate the W bit selects: a little-endian word when wide, a byte
/// otherwise.
pub open spec fn spec_data(wide_mask: u8, first_byte: u8, rest: Seq<u8>) -> Data {
    if spec_is_wide(wide_mask, first_byte) {
        Data::U16(spec_le_word(rest[0], rest[1]))
    } else {
        Data::U8(rest[0])
    }
}

/// Draws the immediate selected by the W bit.
pub fn extract_data(
    wide_mask: u8,
    first_byte: u8,
    stream: &mut EnumeratePeekable,
) -> (r: Result<Data, DecodeError>)
    requires
        old(stream).wf(),
    ensures
        final(stream).bytes@ == old(stream).bytes@,
        final(stream).wf(),
        match r {
            Ok(d) => {
                &&& old(stream).remaining().len() >= spec_data_len(wide_mask, first_byte)
                &&& d == spec_data(wide_mask, first_byte, old(stream).remaining())
                &&& final(stream).pos == old(stream).pos + spec_data_len(wide_mask, first_byte)
            },
            Err(e) => {
                &&& old(stream).remaining().len() < spec_data_len(wide_mask, first_byte)
                &&& e == DecodeError::Truncated
            },
        },
{
    if is_wide(wide_mask, first_byte) {
        let low = match stream.next() {
            Some(b) => b,
            None => {
                return Err(DecodeError::Truncated);
            },
        };
        let high = match stream.next() {
            Some(b) => b,
            None => {
                return Err(DecodeError::Truncated);
            },
        };
        Ok(Data::U16(((high as u16) << 8) | (low as u16)))
    } else {
        match stream.next() {
            Some(b) => Ok(Data::U8(b)),
            None => Err(DecodeError::Truncated),
        }
    }
}

/// How many immediate bytes the S and W bits select: `S = 1, W = 1` reads
/// a single byte; otherwise the W bit decides as for [`spec_data_len`].
pub open spec fn spec_data_s_len(wide_mask: u8, first_byte: u8) -> nat {
    if spec_sign_extend(first_byte) && spec_is_wide(wide_mask, first_byte) {
        1
    } else {
        spec_data_len(wide_mask, first_byte)
    }
}

/// The immediate the S and W bits select: with `S = 1, W = 1` one byte
/// sign-extended to a word; otherwise as for [`spec_data`] (sign extension
/// applies only to the word width, so `S = 1, W = 0` reads a plain byte).
pub open spec fn spec_data_s(wide_mask: u8, first_byte: u8, rest: Seq<u8>) -> Data {
    if spec_sign_extend(first_byte) && spec_is_wide(wide_mask, first_byte) {
        Data::U16(spec_sign_extend_u8(rest[0]))
    } else {
        spec_data(wide_mask, first_byte, rest)
    }
}

/// Draws the immediate selected by the S and W bits.
pub fn extract_data_s(
    wide_mask: u8,
    first_byte: u8,
    stream: &mut EnumeratePeekable,
) -> (r: Result<Data, DecodeError>)
    requires
        old(stream).wf(),
    ensures
        final(stream).bytes@ == old(stream).bytes@,
        final(stream).wf(),
        match r {
            Ok(d) => {
                &&& old(stream).remaining().len() >= spec_data_s_len(wide_mask, first_byte)
                &&& d == spec_data_s(wide_mask, first_byte, old(stream).remaining())
                &&& final(stream).pos == old(stream).pos + spec_data_s_len(wide_mask, first_byte)
            },
            Err(e) => {
                &&& old(stream).remaining().len() < spec_data_s_len(wide_mask, first_byte)
                &&& e == DecodeError::Truncated
            },
        },
{
    if sign_extend(first_byte) && is_wide(wide_mask, first_byte) {
        match stream.next() {
            Some(b) => Ok(Data::U16((b as i8) as u16)),
            None => Err(DecodeError::Truncated),
        }
    } else {
        extract_data(wide_mask, first_byte, stream)
    }
}

/// An 8-bit jump increment: one signed byte.
pub fn extract_inc8(stream: &mut EnumeratePeekable) -> (r: Result<Inc, DecodeError>)
    requires
        old(stream).wf(),
    ensures
        final(stream).bytes@ == old(stream).bytes@,
        final(stream).wf(),
        match r {
            Ok(inc) => {
                &&& old(stream).remaining().len() >= 1
                &&& inc == Inc::I8(old(stream).remaining()[0] as i8)
                &&& final(stream).pos == old(stream).pos + 1
            },
            Err(e) => {
                &&& old(stream).remaining().len() == 0
                &&& e == DecodeError::Truncated
            },
        },
{
    match stream.next() {
        Some(b) => Ok(Inc::I8(b as i8)),
        None => Err(DecodeError::Truncated),
    }
}

/// A 16-bit jump increment: two little-endian bytes, read as signed.
pub fn extract_inc16(stream: &mut EnumeratePeekable) -> (r: Result<Inc, DecodeError>)
    requires
        old(stream).wf(),
    ensures
        final(stream).bytes@ == old(stream).bytes@,
        final(stream).wf(),
        match r {
            Ok(inc) => {
                &&& old(stream).remaining().len() >= 2
                &&& inc == Inc::I16(
                    spec_le_word(old(stream).remaining()[0], old(stream).remaining()[1]) as i16,
                )
                &&& final(stream).pos == old(stream).pos + 2
            },
            Err(e) => {
                &&& old(stream).remaining().len() < 2
                &&& e == DecodeError::Truncated
            },
        },
{
    let low = match stream.next() {
        Some(b) => b,
        None => {
            return Err(DecodeError::Truncated);
        },
    };
    let high = match stream.next() {
        Some(b) => b,
        None => {
            return Err(DecodeError::Truncated);
        },
    };
    Ok(Inc::I16((((high as u16) << 8) | (low as u16)) as i16))
}

/// A far target: four little-endian bytes, the low word the instruction
/// pointer and the high word the code segment.
pub fn extract_cs_ip(stream: &mut EnumeratePeekable) -> (r: Result<CsIp, DecodeError>)
    requires
        old(stream).wf(),
    ensures
        final(stream).bytes@ == old(stream).bytes@,
        final(stream).wf(),
        match r {
            Ok(t) => {
                &&& old(stream).remaining().len() >= 4
                &&& t == (CsIp {
                    instruction_pointer: spec_le_word(
                        old(stream).remaining()[0],
                        old(stream).remaining()[1],
                    ),
                    code_segment: spec_le_word(
                        old(stream).remaining()[2],
                        old(stream).remaining()[3],
                    ),
                })
                &&& final(stream).pos == old(stream).pos + 4
            },
            Err(e) => {
                &&& old(stream).remaining().len() < 4
                &&& e == DecodeError::Truncated
            },
        },
{
    let ip_low = match stream.next() {
        Some(b) => b,
        None => {
            return Err(DecodeError::Truncated);
        },
    };
    let ip_high = match stream.next() {
        Some(b) => b,
        None => {
            return Err(DecodeError::Truncated);
        },
    };
    let cs_low = match stream.next() {
        Some(b) => b,
        None => {
            return Err(DecodeError::Truncated);
        },
    };
    let cs_high = match stream.next() {
        Some(b) => b,
        None => {
            return Err(DecodeError::Truncated);
        },
    };
    Ok(CsIp {
        instruction_pointer: ((ip_high as u16) << 8) | (ip_low as u16),
        code_segment: ((cs_high as u16) << 8) | (cs_low as u16),
    })
}

} // verus!
