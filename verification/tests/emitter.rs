//! Text-emission coverage across the opcode families the table recognises:
//! each decoded instruction renders as the expected assembler line.

use sim8086::decode_8086;
use sim8086::text::inst_text;

fn lines_of(bytes: &[u8]) -> Vec<String> {
    decode_8086(bytes)
        .unwrap()
        .iter()
        .map(inst_text)
        .collect()
}

#[test]
fn no_operand_mnemonics_render() {
    let bytes: [u8; 14] = [
        0xD7, 0x9F, 0x9E, 0x9C, 0x9D, 0x37, 0x27, 0x3F, 0x2F, 0x98, 0x99, 0xF4, 0x9B, 0xCF,
    ];
    assert_eq!(
        lines_of(&bytes),
        vec![
            "xlat", "lahf", "sahf", "pushf", "popf", "aaa", "daa", "aas", "das", "cbw", "cwd",
            "hlt", "wait", "iret"
        ]
    );
}

#[test]
fn flag_mnemonics_render() {
    let bytes: [u8; 7] = [0xF8, 0xF5, 0xF9, 0xFC, 0xFD, 0xFA, 0xFB];
    assert_eq!(
        lines_of(&bytes),
        vec!["clc", "cmc", "stc", "cld", "std", "cli", "sti"]
    );
}

#[test]
fn string_mnemonics_render() {
    let bytes: [u8; 10] = [0xA4, 0xA5, 0xAC, 0xAD, 0xAA, 0xAB, 0xA6, 0xA7, 0xAE, 0xAF];
    assert_eq!(
        lines_of(&bytes),
        vec![
            "movsb", "movsw", "lodsb", "lodsw", "stosb", "stosw", "cmpsb", "cmpsw", "scasb",
            "scasw"
        ]
    );
}

#[test]
fn rep_prefix_renders_before_string_op() {
    let bytes: [u8; 2] = [0xF3, 0xA4];
    assert_eq!(lines_of(&bytes), vec!["rep movsb"]);
}

#[test]
fn shifts_and_rotates_render() {
    let bytes: [u8; 8] = [0xD1, 0xE3, 0xD3, 0xEB, 0xD0, 0xC8, 0xD1, 0xD3];
    assert_eq!(
        lines_of(&bytes),
        vec!["shl bx, 1", "shr bx, cl", "ror al, 1", "rcl bx, 1"]
    );
}

#[test]
fn unary_arithmetic_renders() {
    let bytes: [u8; 12] = [0xF7, 0xDB, 0xF7, 0xE3, 0xF7, 0xEB, 0xF7, 0xF3, 0xF7, 0xFB, 0xF7, 0xD3];
    assert_eq!(
        lines_of(&bytes),
        vec!["neg bx", "mul bx", "imul bx", "div bx", "idiv bx", "not bx"]
    );
}

#[test]
fn ports_and_interrupts_render() {
    let bytes: [u8; 8] = [0xE4, 0x05, 0xEE, 0xCD, 0x21, 0xC2, 0x04, 0x00];
    assert_eq!(
        lines_of(&bytes),
        vec!["in al, 5", "out dx, al", "int 33", "ret 4"]
    );
}

#[test]
fn calls_and_jumps_render() {
    let bytes: [u8; 8] = [0xE8, 0x00, 0x01, 0xEB, 0x05, 0xFF, 0xD3, 0xC3];
    assert_eq!(
        lines_of(&bytes),
        vec!["call $+3+256", "jmp $+2+5", "call bx", "ret"]
    );
}

#[test]
fn loads_render_without_width_keyword() {
    let bytes: [u8; 7] = [0x8D, 0x47, 0x02, 0xC4, 0x07, 0xC5, 0x07];
    assert_eq!(
        lines_of(&bytes),
        vec!["lea ax, [bx + 2]", "les ax, [bx]", "lds ax, [bx]"]
    );
}

#[test]
fn segment_override_renders_inline() {
    let bytes: [u8; 3] = [0x26, 0x8B, 0x07];
    assert_eq!(lines_of(&bytes), vec!["mov ax, word es:[bx]"]);
}

#[test]
fn xchg_with_accumulator_renders_swapped() {
    let bytes: [u8; 1] = [0x93];
    assert_eq!(lines_of(&bytes), vec!["xchg bx, ax"]);
}

#[test]
fn push_pop_families_render() {
    let bytes: [u8; 6] = [0x06, 0x07, 0x1E, 0x53, 0x43, 0x4B];
    assert_eq!(
        lines_of(&bytes),
        vec!["push es", "pop es", "push ds", "push bx", "inc bx", "dec bx"]
    );
}

#[test]
fn adc_sbb_and_logic_render() {
    let bytes: [u8; 12] = [
        0x10, 0xD8, 0x18, 0xD8, 0x20, 0xD8, 0x08, 0xD8, 0x30, 0xD8, 0x84, 0xD8,
    ];
    assert_eq!(
        lines_of(&bytes),
        vec![
            "adc al, bl", "sbb al, bl", "and al, bl", "or al, bl", "xor al, bl", "test al, bl"
        ]
    );
}

#[test]
fn accumulator_immediate_forms_render() {
    let bytes: [u8; 9] = [0x04, 0x05, 0x2C, 0x07, 0x3D, 0x00, 0x01, 0xA8, 0x01];
    assert_eq!(
        lines_of(&bytes),
        vec!["add al, 5", "sub al, 7", "cmp ax, 256", "test al, 1"]
    );
}
