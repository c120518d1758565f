//! Whole-stream decode tests: instruction content, sizing, prefixes and
//! error reporting.

use sim8086::decode_8086;
use sim8086::decoder::DecodeError;
use sim8086::fields::SegmentRegister;
use sim8086::instruction::InstructionPrefix;
use sim8086::text::inst_text;
use sim8086::write_8086;

#[test]
fn decode() {
    let bytes: [u8; 9] = [
        0b10100011, 0b00000000, 0b00000001, 0b11000111, 0b10000100, 0b00000100, 0b00000000,
        0b00000000, 0b00000001,
    ];
    let instructions = decode_8086(&bytes[..]).unwrap();
    assert_eq!(inst_text(&instructions[0]), "mov word [256], ax");
    assert_eq!(inst_text(&instructions[1]), "mov word [si + 4], 256");
}

#[test]
fn sizes_sum_to_input_length() {
    // mov [256], ax (3 bytes); mov word [si + 4], 256 (6 bytes)
    let bytes: [u8; 9] = [0xA3, 0x00, 0x01, 0xC7, 0x84, 0x04, 0x00, 0x00, 0x01];
    let instructions = decode_8086(&bytes[..]).unwrap();
    assert_eq!(instructions.len(), 2);
    assert_eq!(instructions[0].size, Some(3));
    assert_eq!(instructions[1].size, Some(6));
    let total: usize = instructions.iter().map(|i| i.size.unwrap()).sum();
    assert_eq!(total, bytes.len());
}

#[test]
fn prefix_attaches_to_next_instruction_and_counts_in_its_size() {
    // lock; add [bx], ax  -> one instruction of 3 bytes with the lock prefix
    let bytes: [u8; 3] = [0xF0, 0x01, 0x07];
    let instructions = decode_8086(&bytes[..]).unwrap();
    assert_eq!(instructions.len(), 1);
    assert_eq!(instructions[0].prefix, Some(InstructionPrefix::Lock));
    assert_eq!(instructions[0].size, Some(3));
    assert_eq!(inst_text(&instructions[0]), "lock add word [bx], ax");
}

#[test]
fn lock_and_segment_override_join() {
    // lock; es; mov [bx], ax
    let bytes: [u8; 4] = [0xF0, 0x26, 0x89, 0x07];
    let instructions = decode_8086(&bytes[..]).unwrap();
    assert_eq!(instructions.len(), 1);
    assert_eq!(
        instructions[0].prefix,
        Some(InstructionPrefix::LockSegmentOverride(SegmentRegister::ES))
    );
    assert_eq!(instructions[0].size, Some(4));
    assert_eq!(inst_text(&instructions[0]), "lock mov word es:[bx], ax");
}

#[test]
fn unknown_opcode_is_reported_with_the_byte_pair() {
    // 0x60 is not an 8086 opcode
    let bytes: [u8; 2] = [0x60, 0x00];
    assert_eq!(
        decode_8086(&bytes[..]),
        Err(DecodeError::UnknownOpcode { first: 0x60, second: Some(0x00) })
    );
    let lone: [u8; 1] = [0x60];
    assert_eq!(
        decode_8086(&lone[..]),
        Err(DecodeError::UnknownOpcode { first: 0x60, second: None })
    );
}

#[test]
fn truncated_instruction_is_an_error() {
    // mov r/m16, imm16 cut off after the mod/r-m byte
    let bytes: [u8; 2] = [0xC7, 0x06];
    assert_eq!(decode_8086(&bytes[..]), Err(DecodeError::Truncated));
    // a trailing prefix with no instruction is truncated too
    let bytes2: [u8; 1] = [0xF0];
    assert_eq!(decode_8086(&bytes2[..]), Err(DecodeError::Truncated));
}

#[test]
fn empty_input_decodes_to_no_instructions() {
    let instructions = decode_8086(&[]).unwrap();
    assert!(instructions.is_empty());
}

#[test]
fn listing_writes_header_and_lines() {
    let bytes: [u8; 5] = [0xB8, 0x01, 0x00, 0x89, 0xC3];
    let instructions = decode_8086(&bytes[..]).unwrap();
    assert_eq!(write_8086(&instructions), "bits 16;\nmov ax, 1\nmov bx, ax\n");
}

#[test]
fn push_pop_memory_hard_code_word() {
    // push word [bp + si]; pop word [bp + si]
    let bytes: [u8; 4] = [0xFF, 0x32, 0x8F, 0x02];
    let instructions = decode_8086(&bytes[..]).unwrap();
    assert_eq!(inst_text(&instructions[0]), "push word [bp + si]");
    assert_eq!(inst_text(&instructions[1]), "pop word [bp + si]");
}

#[test]
fn xchg_prints_operands_swapped() {
    // xchg ax, bx (0x87 0xD8: reg=bx, rm=ax)
    let bytes: [u8; 2] = [0x87, 0xD8];
    let instructions = decode_8086(&bytes[..]).unwrap();
    assert_eq!(inst_text(&instructions[0]), "xchg ax, bx");
}

#[test]
fn negative_displacement_prints_with_sign() {
    // mov ax, [bx - 5]
    let bytes: [u8; 3] = [0x8B, 0x47, 0xFB];
    let instructions = decode_8086(&bytes[..]).unwrap();
    assert_eq!(inst_text(&instructions[0]), "mov ax, word [bx -5]");
}

#[test]
fn jump_increment_prints_relative_to_next_instruction() {
    let bytes: [u8; 2] = [0x74, 0xFE];
    let instructions = decode_8086(&bytes[..]).unwrap();
    assert_eq!(inst_text(&instructions[0]), "je $+2+-2");
}
