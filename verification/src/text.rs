//! The text emitter: renders instructions as assembler text (NASM-flavored)
//! and the simulator state as the register/flag report. Every rendering
//! function is specified exactly by a spec function on sequences of
//! characters.

use vstd::prelude::*;

use crate::fields::{
    CsIp, EffectiveAddress, Inc, Operand, Operation, Register, SegmentRegister, Wide,
};
use crate::cpu::{Flags, Registers};
use crate::instruction::{Inst, InstructionPrefix};
use crate::simulator::Simulator;

verus! {

/// The character of a decimal digit.
pub open spec fn spec_digit_char(d: int) -> char {
    if d == 0 { '0' }
    else if d == 1 { '1' }
    else if d == 2 { '2' }
    else if d == 3 { '3' }
    else if d == 4 { '4' }
    else if d == 5 { '5' }
    else if d == 6 { '6' }
    else if d == 7 { '7' }
    else if d == 8 { '8' }
    else { '9' }
}

/// The decimal rendering of a non-negative number, most significant digit
/// first, with no leading zeros (zero itself is "0").
pub open spec fn spec_dec(n: nat) -> Seq<char>
    decreases n,
{
    if n < 10 {
        seq![spec_digit_char(n as int)]
    } else {
        spec_dec(n / 10).push(spec_digit_char((n % 10) as int))
    }
}

/// The decimal rendering of a signed number: a minus sign before the
/// magnitude when negative.
pub open spec fn spec_dec_signed(v: int) -> Seq<char> {
    if v < 0 {
        seq!['-'] + spec_dec((-v) as nat)
    } else {
        spec_dec(v as nat)
    }
}

/// A one-character string for a decimal digit.
fn digit_str(d: u16) -> (r: &'static str)
    requires
        d < 10,
    ensures
        r@ == seq![spec_digit_char(d as int)],
{
    let r = match d {
        0 => "0",
        1 => "1",
        2 => "2",
        3 => "3",
        4 => "4",
        5 => "5",
        6 => "6",
        7 => "7",
        8 => "8",
        _ => "9",
    };
    proof {
        reveal_strlit("0");
        reveal_strlit("1");
        reveal_strlit("2");
        reveal_strlit("3");
        reveal_strlit("4");
        reveal_strlit("5");
        reveal_strlit("6");
        reveal_strlit("7");
        reveal_strlit("8");
        reveal_strlit("9");
    }
    r
}

/// Renders a 16-bit number in decimal.
pub fn u16_text(n: u16) -> (r: String)
    ensures
        r@ == spec_dec(n as nat),
{
    let d0 = n % 10;
    let q1 = n / 10;
    let d1 = q1 % 10;
    let q2 = n / 100;
    let d2 = q2 % 10;
    let q3 = n / 1000;
    let d3 = q3 % 10;
    let q4 = n / 10000;
    proof {
        assert(q1 / 10 == q2) by (nonlinear_arith)
            requires
                q1 == n / 10,
                q2 == n / 100,
        ;
        assert(q2 / 10 == q3) by (nonlinear_arith)
            requires
                q2 == n / 100,
                q3 == n / 1000,
        ;
        assert(q3 / 10 == q4) by (nonlinear_arith)
            requires
                q3 == n / 1000,
                q4 == n / 10000,
        ;
    }
    let mut out = String::new();
    if n >= 10000 {
        out.append(digit_str(q4));
    }
    if n >= 1000 {
        out.append(digit_str(d3));
    }
    if n >= 100 {
        out.append(digit_str(d2));
    }
    if n >= 10 {
        out.append(digit_str(d1));
    }
    out.append(digit_str(d0));
    proof {
        reveal_with_fuel(spec_dec, 6);
        assert(out@ =~= spec_dec(n as nat));
    }
    out
}

/// Renders a signed 16-bit number in decimal.
pub fn i16_text(v: i16) -> (r: String)
    ensures
        r@ == spec_dec_signed(v as int),
{
    if v >= 0 {
        u16_text(v as u16)
    } else {
        let mag: u16 = ((-(v as i32)) as u16);
        let mut out = String::new();
        out.append("-");
        let m = u16_text(mag);
        out.append(m.as_str());
        proof {
            reveal_strlit("-");
            assert(out@ =~= spec_dec_signed(v as int));
        }
        out
    }
}

/// The character of a hexadecimal digit.
pub open spec fn spec_hex_char(d: int) -> char {
    if d < 10 {
        spec_digit_char(d)
    } else if d == 10 { 'a' }
    else if d == 11 { 'b' }
    else if d == 12 { 'c' }
    else if d == 13 { 'd' }
    else if d == 14 { 'e' }
    else { 'f' }
}

/// The `0x`-prefixed, four-digit lowercase hexadecimal rendering of a
/// 16-bit number.
pub open spec fn spec_hex4(n: u16) -> Seq<char> {
    seq!['0', 'x'] + seq![
        spec_hex_char(n as int / 4096),
        spec_hex_char((n as int / 256) % 16),
        spec_hex_char((n as int / 16) % 16),
        spec_hex_char(n as int % 16),
    ]
}

/// A one-character string for a hexadecimal digit.
fn hex_digit_str(d: u16) -> (r: &'static str)
    requires
        d < 16,
    ensures
        r@ == seq![spec_hex_char(d as int)],
{
    if d < 10 {
        digit_str(d)
    } else {
        let r = match d {
            10 => "a",
            11 => "b",
            12 => "c",
            13 => "d",
            14 => "e",
            _ => "f",
        };
        proof {
            reveal_strlit("a");
            reveal_strlit("b");
            reveal_strlit("c");
            reveal_strlit("d");
            reveal_strlit("e");
            reveal_strlit("f");
        }
        r
    }
}

/// Renders a 16-bit number as `0x` plus four lowercase hex digits.
pub fn hex4_text(n: u16) -> (r: String)
    ensures
        r@ == spec_hex4(n),
{
    let mut out = String::new();
    out.append("0x");
    out.append(hex_digit_str(n / 4096));
    out.append(hex_digit_str((n / 256) % 16));
    out.append(hex_digit_str((n / 16) % 16));
    out.append(hex_digit_str(n % 16));
    proof {
        reveal_strlit("0x");
        assert(out@ =~= spec_hex4(n));
    }
    out
}


/// The mnemonic of an operation, as the assembler spells it.
pub open spec fn spec_op_text(op: Operation) -> Seq<char> {
    match op {
        Operation::Mov => "mov"@,
        Operation::Add => "add"@,
        Operation::Sub => "sub"@,
        Operation::Cmp => "cmp"@,
        Operation::JE => "je"@,
        Operation::JL => "jl"@,
        Operation::JLE => "jle"@,
        Operation::JB => "jb"@,
        Operation::JBE => "jbe"@,
        Operation::JP => "jp"@,
        Operation::JO => "jo"@,
        Operation::JS => "js"@,
        Operation::JNE => "jne"@,
        Operation::JNL => "jnl"@,
        Operation::JNLE => "jnle"@,
        Operation::JNB => "jnb"@,
        Operation::JNBE => "jnbe"@,
        Operation::JNP => "jnp"@,
        Operation::JNO => "jno"@,
        Operation::JNS => "jns"@,
        Operation::LOOP => "loop"@,
        Operation::LOOPZ => "loopz"@,
        Operation::LOOPNZ => "loopnz"@,
        Operation::JCXZ => "jcxz"@,
        Operation::Push => "push"@,
        Operation::Pop => "pop"@,
        Operation::XCHG => "xchg"@,
        Operation::IN => "in"@,
        Operation::OUT => "out"@,
        Operation::XLAT => "xlat"@,
        Operation::LEA => "lea"@,
        Operation::LDS => "lds"@,
        Operation::LES => "les"@,
        Operation::LAHF => "lahf"@,
        Operation::SAHF => "sahf"@,
        Operation::PUSHF => "pushf"@,
        Operation::POPF => "popf"@,
        Operation::ADC => "adc"@,
        Operation::INC => "inc"@,
        Operation::AAA => "aaa"@,
        Operation::DAA => "daa"@,
        Operation::SBB => "sbb"@,
        Operation::DEC => "dec"@,
        Operation::NEG => "neg"@,
        Operation::AAS => "aas"@,
        Operation::DAS => "das"@,
        Operation::MUL => "mul"@,
        Operation::IMUL => "imul"@,
        Operation::AAM => "aam"@,
        Operation::DIV => "div"@,
        Operation::IDIV => "idiv"@,
        Operation::AAD => "aad"@,
        Operation::CBW => "cbw"@,
        Operation::CWD => "cwd"@,
        Operation::NOT => "not"@,
        Operation::SHL => "shl"@,
        Operation::SHR => "shr"@,
        Operation::SAR => "sar"@,
        Operation::ROL => "rol"@,
        Operation::ROR => "ror"@,
        Operation::RCL => "rcl"@,
        Operation::RCR => "rcr"@,
        Operation::AND => "and"@,
        Operation::TEST => "test"@,
        Operation::OR => "or"@,
        Operation::XOR => "xor"@,
        Operation::MOVSB => "movsb"@,
        Operation::MOVSW => "movsw"@,
        Operation::LODSB => "lodsb"@,
        Operation::LODSW => "lodsw"@,
        Operation::STOSB => "stosb"@,
        Operation::STOSW => "stosw"@,
        Operation::CMPSB => "cmpsb"@,
        Operation::CMPSW => "cmpsw"@,
        Operation::SCASB => "scasb"@,
        Operation::SCASW => "scasw"@,
        Operation::Call => "call"@,
        Operation::CallFar => "call far"@,
        Operation::Jmp => "jmp"@,
        Operation::JmpFar => "jmp far"@,
        Operation::Ret => "ret"@,
        Operation::RetFar => "retf"@,
        Operation::INT => "int"@,
        Operation::INT3 => "int3"@,
        Operation::INTO => "into"@,
        Operation::IRET => "iret"@,
        Operation::CLC => "clc"@,
        Operation::CMC => "cmc"@,
        Operation::STC => "stc"@,
        Operation::CLD => "cld"@,
        Operation::STD => "std"@,
        Operation::CLI => "cli"@,
        Operation::STI => "sti"@,
        Operation::HLT => "hlt"@,
        Operation::WAIT => "wait"@,
        Operation::Lock => "lock"@,
        Operation::Rep => "rep"@,
        Operation::SegmentOverrideES => "segmentoverridees"@,
        Operation::SegmentOverrideCS => "segmentoverridecs"@,
        Operation::SegmentOverrideSS => "segmentoverridess"@,
        Operation::SegmentOverrideDS => "segmentoverrideds"@,
    }
}

/// The mnemonic of an operation.
pub fn op_str(op: Operation) -> (r: &'static str)
    ensures
        r@ == spec_op_text(op),
{
    match op {
        Operation::Mov => "mov",
        Operation::Add => "add",
        Operation::Sub => "sub",
        Operation::Cmp => "cmp",
        Operation::JE => "je",
        Operation::JL => "jl",
        Operation::JLE => "jle",
        Operation::JB => "jb",
        Operation::JBE => "jbe",
        Operation::JP => "jp",
        Operation::JO => "jo",
        Operation::JS => "js",
        Operation::JNE => "jne",
        Operation::JNL => "jnl",
        Operation::JNLE => "jnle",
        Operation::JNB => "jnb",
        Operation::JNBE => "jnbe",
        Operation::JNP => "jnp",
        Operation::JNO => "jno",
        Operation::JNS => "jns",
        Operation::LOOP => "loop",
        Operation::LOOPZ => "loopz",
        Operation::LOOPNZ => "loopnz",
        Operation::JCXZ => "jcxz",
        Operation::Push => "push",
        Operation::Pop => "pop",
        Operation::XCHG => "xchg",
        Operation::IN => "in",
        Operation::OUT => "out",
        Operation::XLAT => "xlat",
        Operation::LEA => "lea",
        Operation::LDS => "lds",
        Operation::LES => "les",
        Operation::LAHF => "lahf",
        Operation::SAHF => "sahf",
        Operation::PUSHF => "pushf",
        Operation::POPF => "popf",
        Operation::ADC => "adc",
        Operation::INC => "inc",
        Operation::AAA => "aaa",
        Operation::DAA => "daa",
        Operation::SBB => "sbb",
        Operation::DEC => "dec",
        Operation::NEG => "neg",
        Operation::AAS => "aas",
        Operation::DAS => "das",
        Operation::MUL => "mul",
        Operation::IMUL => "imul",
        Operation::AAM => "aam",
        Operation::DIV => "div",
        Operation::IDIV => "idiv",
        Operation::AAD => "aad",
        Operation::CBW => "cbw",
        Operation::CWD => "cwd",
        Operation::NOT => "not",
        Operation::SHL => "shl",
        Operation::SHR => "shr",
        Operation::SAR => "sar",
        Operation::ROL => "rol",
        Operation::ROR => "ror",
        Operation::RCL => "rcl",
        Operation::RCR => "rcr",
        Operation::AND => "and",
        Operation::TEST => "test",
        Operation::OR => "or",
        Operation::XOR => "xor",
        Operation::MOVSB => "movsb",
        Operation::MOVSW => "movsw",
        Operation::LODSB => "lodsb",
        Operation::LODSW => "lodsw",
        Operation::STOSB => "stosb",
        Operation::STOSW => "stosw",
        Operation::CMPSB => "cmpsb",
        Operation::CMPSW => "cmpsw",
        Operation::SCASB => "scasb",
        Operation::SCASW => "scasw",
        Operation::Call => "call",
        Operation::CallFar => "call far",
        Operation::Jmp => "jmp",
        Operation::JmpFar => "jmp far",
        Operation::Ret => "ret",
        Operation::RetFar => "retf",
        Operation::INT => "int",
        Operation::INT3 => "int3",
        Operation::INTO => "into",
        Operation::IRET => "iret",
        Operation::CLC => "clc",
        Operation::CMC => "cmc",
        Operation::STC => "stc",
        Operation::CLD => "cld",
        Operation::STD => "std",
        Operation::CLI => "cli",
        Operation::STI => "sti",
        Operation::HLT => "hlt",
        Operation::WAIT => "wait",
        Operation::Lock => "lock",
        Operation::Rep => "rep",
        Operation::SegmentOverrideES => "segmentoverridees",
        Operation::SegmentOverrideCS => "segmentoverridecs",
        Operation::SegmentOverrideSS => "segmentoverridess",
        Operation::SegmentOverrideDS => "segmentoverrideds",
    }
}

/// The name of a register.
pub open spec fn spec_register_text(reg: Register) -> Seq<char> {
    match reg {
        Register::AX => "ax"@,
        Register::BX => "bx"@,
        Register::CX => "cx"@,
        Register::DX => "dx"@,
        Register::AH => "ah"@,
        Register::BH => "bh"@,
        Register::CH => "ch"@,
        Register::DH => "dh"@,
        Register::AL => "al"@,
        Register::BL => "bl"@,
        Register::CL => "cl"@,
        Register::DL => "dl"@,
        Register::SP => "sp"@,
        Register::BP => "bp"@,
        Register::SI => "si"@,
        Register::DI => "di"@,
    }
}

/// The name of a register.
pub fn register_str(reg: Register) -> (r: &'static str)
    ensures
        r@ == spec_register_text(reg),
{
    match reg {
        Register::AX => "ax",
        Register::BX => "bx",
        Register::CX => "cx",
        Register::DX => "dx",
        Register::AH => "ah",
        Register::BH => "bh",
        Register::CH => "ch",
        Register::DH => "dh",
        Register::AL => "al",
        Register::BL => "bl",
        Register::CL => "cl",
        Register::DL => "dl",
        Register::SP => "sp",
        Register::BP => "bp",
        Register::SI => "si",
        Register::DI => "di",
    }
}

/// The name of a segment register.
pub open spec fn spec_sr_text(sr: SegmentRegister) -> Seq<char> {
    match sr {
        SegmentRegister::ES => "es"@,
        SegmentRegister::CS => "cs"@,
        SegmentRegister::SS => "ss"@,
        SegmentRegister::DS => "ds"@,
    }
}

/// The name of a segment register.
pub fn sr_str(sr: SegmentRegister) -> (r: &'static str)
    ensures
        r@ == spec_sr_text(sr),
{
    match sr {
        SegmentRegister::ES => "es",
        SegmentRegister::CS => "cs",
        SegmentRegister::SS => "ss",
        SegmentRegister::DS => "ds",
    }
}

/// The size keyword of a width tag, with its trailing space; the implicit
/// width prints nothing.
pub open spec fn spec_wide_text(w: Wide) -> Seq<char> {
    match w {
        Wide::Byte => "byte "@,
        Wide::Word => "word "@,
        Wide::Implicit => ""@,
    }
}

/// The size keyword of a width tag.
pub fn wide_str(w: Wide) -> (r: &'static str)
    ensures
        r@ == spec_wide_text(w),
{
    match w {
        Wide::Byte => "byte ",
        Wide::Word => "word ",
        Wide::Implicit => "",
    }
}


/// The displacement as the emitter spells it: negative values render with
/// their minus sign, non-negative ones with an explicit `+ `.
pub open spec fn spec_disp_repr(d: u16) -> Seq<char> {
    if (d as i16) < 0 {
        spec_dec_signed(d as i16 as int)
    } else {
        "+ "@ + spec_dec((d as i16) as nat)
    }
}

/// Renders a displacement with its explicit sign.
pub fn disp_str_repr(d: u16) -> (r: String)
    ensures
        r@ == spec_disp_repr(d),
{
    let i = d as i16;
    if i < 0 {
        i16_text(i)
    } else {
        let mut out = String::new();
        out.append("+ ");
        let t = i16_text(i);
        out.append(t.as_str());
        proof {
            reveal_strlit("+ ");
            assert(out@ =~= spec_disp_repr(d));
        }
        out
    }
}

/// A base form followed by an optional displacement and the closing
/// bracket.
pub open spec fn spec_base_disp(base: Seq<char>, d: Option<u16>) -> Seq<char> {
    match d {
        Some(y) => base + " "@ + spec_disp_repr(y) + "]"@,
        None => base + "]"@,
    }
}

/// The bracketed effective-address operand, without any size keyword.
pub open spec fn spec_ea_text(ea: EffectiveAddress) -> Seq<char> {
    match ea {
        EffectiveAddress::DirectAddress(x, _) => "["@ + spec_dec(x as nat) + "]"@,
        EffectiveAddress::BX_SI(d, _) => spec_base_disp("[bx + si"@, d),
        EffectiveAddress::BX_DI(d, _) => spec_base_disp("[bx + di"@, d),
        EffectiveAddress::BP_SI(d, _) => spec_base_disp("[bp + si"@, d),
        EffectiveAddress::BP_DI(d, _) => spec_base_disp("[bp + di"@, d),
        EffectiveAddress::SI(d, _) => spec_base_disp("[si"@, d),
        EffectiveAddress::DI(d, _) => spec_base_disp("[di"@, d),
        EffectiveAddress::BP(x, _) => "[bp "@ + spec_disp_repr(x) + "]"@,
        EffectiveAddress::BX(d, _) => spec_base_disp("[bx"@, d),
    }
}

fn base_disp_text(base: &str, d: Option<u16>) -> (r: String)
    ensures
        r@ == spec_base_disp(base@, d),
{
    let mut out = String::new();
    out.append(base);
    match d {
        Some(y) => {
            out.append(" ");
            let t = disp_str_repr(y);
            out.append(t.as_str());
            out.append("]");
        },
        None => {
            out.append("]");
        },
    }
    proof {
        reveal_strlit(" ");
        reveal_strlit("]");
        assert(out@ =~= spec_base_disp(base@, d));
    }
    out
}

/// Renders an effective-address operand.
pub fn ea_text(ea: EffectiveAddress) -> (r: String)
    ensures
        r@ == spec_ea_text(ea),
{
    match ea {
        EffectiveAddress::DirectAddress(x, _) => {
            let mut out = String::new();
            out.append("[");
            let t = u16_text(x);
            out.append(t.as_str());
            out.append("]");
            proof {
                reveal_strlit("[");
                reveal_strlit("]");
                assert(out@ =~= spec_ea_text(ea));
            }
            out
        },
        EffectiveAddress::BX_SI(d, _) => base_disp_text("[bx + si", d),
        EffectiveAddress::BX_DI(d, _) => base_disp_text("[bx + di", d),
        EffectiveAddress::BP_SI(d, _) => base_disp_text("[bp + si", d),
        EffectiveAddress::BP_DI(d, _) => base_disp_text("[bp + di", d),
        EffectiveAddress::SI(d, _) => base_disp_text("[si", d),
        EffectiveAddress::DI(d, _) => base_disp_text("[di", d),
        EffectiveAddress::BP(x, _) => {
            let mut out = String::new();
            out.append("[bp ");
            let t = disp_str_repr(x);
            out.append(t.as_str());
            out.append("]");
            proof {
                reveal_strlit("[bp ");
                reveal_strlit("]");
                assert(out@ =~= spec_ea_text(ea));
            }
            out
        },
        EffectiveAddress::BX(d, _) => base_disp_text("[bx", d),
    }
}

/// A jump increment, rendered relative to the start of the next
/// instruction: `$+2+n` for the 8-bit form, `$+3+n` for the 16-bit form.
pub open spec fn spec_inc_text(inc: Inc) -> Seq<char> {
    match inc {
        Inc::I8(x) => "$+2+"@ + spec_dec_signed(x as int),
        Inc::I16(x) => "$+3+"@ + spec_dec_signed(x as int),
    }
}

/// A far target, rendered as `segment:offset` in decimal.
pub open spec fn spec_cs_ip_text(t: CsIp) -> Seq<char> {
    spec_dec(t.code_segment as nat) + ":"@ + spec_dec(t.instruction_pointer as nat)
}

/// Any operand, rendered bare (no size keyword or segment override).
pub open spec fn spec_operand_text(x: Operand) -> Seq<char> {
    match x {
        Operand::EffectiveAddress(ea) => spec_ea_text(ea),
        Operand::Register(reg) => spec_register_text(reg),
        Operand::Immediate(d) => spec_dec(d.spec_to_u16() as nat),
        Operand::Increment(inc) => spec_inc_text(inc),
        Operand::SR(sr) => spec_sr_text(sr),
        Operand::CsIp(t) => spec_cs_ip_text(t),
    }
}

/// Renders an operand bare.
pub fn operand_text(x: Operand) -> (r: String)
    ensures
        r@ == spec_operand_text(x),
{
    match x {
        Operand::EffectiveAddress(ea) => ea_text(ea),
        Operand::Register(reg) => {
            let mut out = String::new();
            out.append(register_str(reg));
            proof {
                assert(out@ =~= spec_operand_text(x));
            }
            out
        },
        Operand::Immediate(d) => u16_text(d.to_u16()),
        Operand::Increment(inc) => {
            let mut out = String::new();
            match inc {
                Inc::I8(v) => {
                    out.append("$+2+");
                    let t = i16_text(v as i16);
                    out.append(t.as_str());
                },
                Inc::I16(v) => {
                    out.append("$+3+");
                    let t = i16_text(v);
                    out.append(t.as_str());
                },
            }
            proof {
                reveal_strlit("$+2+");
                reveal_strlit("$+3+");
                assert(out@ =~= spec_operand_text(x));
            }
            out
        },
        Operand::SR(sr) => {
            let mut out = String::new();
            out.append(sr_str(sr));
            proof {
                assert(out@ =~= spec_operand_text(x));
            }
            out
        },
        Operand::CsIp(t) => {
            let mut out = String::new();
            let a = u16_text(t.code_segment);
            out.append(a.as_str());
            out.append(":");
            let b = u16_text(t.instruction_pointer);
            out.append(b.as_str());
            proof {
                reveal_strlit(":");
                assert(out@ =~= spec_operand_text(x));
            }
            out
        },
    }
}


/// The size keyword and inline segment override an effective-address
/// operand carries in an instruction: its width tag's keyword, then
/// `sr:` when the instruction has a segment-override prefix, then the
/// bracketed address. Other operands render bare.
pub open spec fn spec_operand_in_inst_text(
    x: Operand,
    prefix: Option<InstructionPrefix>,
) -> Seq<char> {
    match x {
        Operand::EffectiveAddress(ea) => spec_wide_text(ea.spec_wide()) + (match prefix {
            Some(InstructionPrefix::SegmentOverride(sr)) => spec_sr_text(sr) + ":"@,
            Some(InstructionPrefix::LockSegmentOverride(sr)) => spec_sr_text(sr) + ":"@,
            _ => ""@,
        }) + spec_ea_text(ea),
        _ => spec_operand_text(x),
    }
}

fn operand_in_inst_text(x: Operand, prefix: Option<InstructionPrefix>) -> (r: String)
    ensures
        r@ == spec_operand_in_inst_text(x, prefix),
{
    match x {
        Operand::EffectiveAddress(ea) => {
            let mut out = String::new();
            out.append(wide_str(ea.wide()));
            match prefix {
                Some(InstructionPrefix::SegmentOverride(sr)) => {
                    out.append(sr_str(sr));
                    out.append(":");
                },
                Some(InstructionPrefix::LockSegmentOverride(sr)) => {
                    out.append(sr_str(sr));
                    out.append(":");
                },
                _ => {},
            }
            let t = ea_text(ea);
            out.append(t.as_str());
            proof {
                reveal_strlit(":");
                reveal_strlit("");
                assert(out@ =~= spec_operand_in_inst_text(x, prefix));
            }
            out
        },
        _ => operand_text(x),
    }
}

/// The prefix word an instruction prints: `rep ` or `lock `; a bare
/// segment override prints nothing here (it renders inline on the memory
/// operand).
pub open spec fn spec_prefix_text(prefix: Option<InstructionPrefix>) -> Seq<char> {
    match prefix {
        Some(InstructionPrefix::Rep) => "rep "@,
        Some(InstructionPrefix::Lock) => "lock "@,
        Some(InstructionPrefix::LockSegmentOverride(_)) => "lock "@,
        _ => ""@,
    }
}

/// One instruction as a line of assembler text:
/// `[prefix ]mnemonic[ first[, second]]`.
///
/// PUSH and POP of a lone memory operand hard-code the `word` keyword, and
/// XCHG prints its two operands swapped; both are surface conventions of
/// the assembler the text round-trips through.
pub open spec fn spec_inst_text(inst: Inst) -> Seq<char> {
    let pre = spec_prefix_text(inst.prefix);
    if (inst.operation == Operation::Push || inst.operation == Operation::Pop) && inst.second
        is None && (inst.first matches Some(Operand::EffectiveAddress(x))) {
        pre + spec_op_text(inst.operation) + " word "@ + spec_ea_text(
            (inst.first->0)->EffectiveAddress_0,
        )
    } else {
        let first = if inst.operation == Operation::XCHG && inst.second is Some {
            inst.second
        } else {
            inst.first
        };
        let second = if inst.operation == Operation::XCHG && inst.second is Some {
            inst.first
        } else {
            inst.second
        };
        pre + spec_op_text(inst.operation) + (match first {
            Some(f) => " "@ + spec_operand_in_inst_text(f, inst.prefix) + (match second {
                Some(s) => ", "@ + spec_operand_in_inst_text(s, inst.prefix),
                None => ""@,
            }),
            None => ""@,
        })
    }
}

/// Renders one instruction as assembler text.
pub fn inst_text(inst: &Inst) -> (r: String)
    ensures
        r@ == spec_inst_text(*inst),
{
    let mut out = String::new();
    match inst.prefix {
        Some(InstructionPrefix::Rep) => out.append("rep "),
        Some(InstructionPrefix::Lock) => out.append("lock "),
        Some(InstructionPrefix::LockSegmentOverride(_)) => out.append("lock "),
        _ => {},
    }
    proof {
        reveal_strlit("rep ");
        reveal_strlit("lock ");
        reveal_strlit("");
        assert(out@ =~= spec_prefix_text(inst.prefix));
    }
    if matches!(inst.operation, Operation::Push | Operation::Pop) && inst.second.is_none() {
        if let Some(Operand::EffectiveAddress(x)) = inst.first {
            out.append(op_str(inst.operation));
            out.append(" word ");
            let t = ea_text(x);
            out.append(t.as_str());
            proof {
                reveal_strlit(" word ");
                assert(out@ =~= spec_inst_text(*inst));
            }
            return out;
        }
    }
    let swap = matches!(inst.operation, Operation::XCHG) && inst.second.is_some();
    let first = if swap {
        inst.second
    } else {
        inst.first
    };
    let second = if swap {
        inst.first
    } else {
        inst.second
    };
    out.append(op_str(inst.operation));
    if let Some(f) = first {
        out.append(" ");
        let t = operand_in_inst_text(f, inst.prefix);
        out.append(t.as_str());
        if let Some(s) = second {
            out.append(", ");
            let t2 = operand_in_inst_text(s, inst.prefix);
            out.append(t2.as_str());
        }
    }
    proof {
        reveal_strlit(" ");
        reveal_strlit(", ");
        reveal_strlit("");
        assert(out@ =~= spec_inst_text(*inst));
    }
    out
}

/// The emitted listing line by line, in order.
pub open spec fn spec_lines(insts: Seq<Inst>) -> Seq<char>
    decreases insts.len(),
{
    if insts.len() == 0 {
        Seq::empty()
    } else {
        spec_lines(insts.drop_last()) + spec_inst_text(insts.last()) + "\n"@
    }
}

/// The whole emitted listing: the `bits 16;` header, then one instruction
/// per line.
pub open spec fn spec_write_8086(insts: Seq<Inst>) -> Seq<char> {
    "bits 16;\n"@ + spec_lines(insts)
}

/// Re-emits the decoded instruction stream as assembler text, one
/// instruction per line under a `bits 16;` header.
pub fn write_8086(instructions: &Vec<Inst>) -> (r: String)
    ensures
        r@ == spec_write_8086(instructions@),
{
    let mut out = String::new();
    out.append("bits 16;\n");
    let mut i: usize = 0;
    while i < instructions.len()
        invariant
            i <= instructions@.len(),
            out@ == "bits 16;\n"@ + spec_lines(instructions@.take(i as int)),
        decreases instructions@.len() - i,
    {
        let t = inst_text(&instructions[i]);
        out.append(t.as_str());
        out.append("\n");
        proof {
            assert(instructions@.take(i as int + 1).drop_last() =~= instructions@.take(
                i as int,
            ));
            assert(instructions@.take(i as int + 1).last() == instructions@[i as int]);
            assert(out@ =~= "bits 16;\n"@ + spec_lines(instructions@.take(i as int + 1)));
        }
        i = i + 1;
    }
    proof {
        assert(instructions@.take(instructions@.len() as int) =~= instructions@);
    }
    out
}


/// One line of the register report: nonzero registers print as
/// `      name: 0xhhhh (n)`; zero registers print nothing.
pub open spec fn spec_reg_line(name: Seq<char>, v: u16) -> Seq<char> {
    if v != 0 {
        "      "@ + name + ": "@ + spec_hex4(v) + " ("@ + spec_dec(v as nat) + ")\n"@
    } else {
        ""@
    }
}

fn reg_line(name: &str, v: u16) -> (r: String)
    ensures
        r@ == spec_reg_line(name@, v),
{
    let mut out = String::new();
    if v != 0 {
        out.append("      ");
        out.append(name);
        out.append(": ");
        let h = hex4_text(v);
        out.append(h.as_str());
        out.append(" (");
        let d = u16_text(v);
        out.append(d.as_str());
        out.append(")\n");
    }
    proof {
        reveal_strlit("      ");
        reveal_strlit(": ");
        reveal_strlit(" (");
        reveal_strlit(")\n");
        reveal_strlit("");
        assert(out@ =~= spec_reg_line(name@, v));
    }
    out
}

/// The register report: a header, then one line per nonzero register, in
/// the order ax, bx, cx, dx, sp, bp, si, di, cs, ds, ss, es.
pub open spec fn spec_registers_text(regs: Registers) -> Seq<char> {
    "Final registers:\n"@ + spec_reg_line("ax"@, regs.ax) + spec_reg_line("bx"@, regs.bx)
        + spec_reg_line("cx"@, regs.cx) + spec_reg_line("dx"@, regs.dx) + spec_reg_line(
        "sp"@,
        regs.sp,
    ) + spec_reg_line("bp"@, regs.bp) + spec_reg_line("si"@, regs.si) + spec_reg_line(
        "di"@,
        regs.di,
    ) + spec_reg_line("cs"@, regs.cs) + spec_reg_line("ds"@, regs.ds) + spec_reg_line(
        "ss"@,
        regs.ss,
    ) + spec_reg_line("es"@, regs.es)
}

/// The flag report: nothing when no flag is set, else `   flags: ` and one
/// letter per set flag in the order A, C, O, P, S, Z; a newline either
/// way.
pub open spec fn spec_flags_text(f: Flags) -> Seq<char> {
    (if f.auxiliary || f.carry || f.overflow || f.parity || f.sign || f.zero {
        "   flags: "@ + (if f.auxiliary { "A"@ } else { ""@ }) + (if f.carry { "C"@ } else { ""@ })
            + (if f.overflow { "O"@ } else { ""@ }) + (if f.parity { "P"@ } else { ""@ }) + (
        if f.sign { "S"@ } else { ""@ }) + (if f.zero { "Z"@ } else { ""@ })
    } else {
        ""@
    }) + "\n"@
}

/// The whole state report: registers, optionally the instruction pointer,
/// then the flags.
pub open spec fn spec_state_text(sim: Simulator) -> Seq<char> {
    spec_registers_text(sim.registers) + (if sim.log_ip {
        "      ip: "@ + spec_hex4(sim.ip) + " ("@ + spec_dec(sim.ip as nat) + ")\n"@
    } else {
        ""@
    }) + spec_flags_text(sim.flags)
}

/// Renders the register report.
#[verifier::spinoff_prover]
#[verifier::rlimit(100)]
fn registers_text(regs: &Registers) -> (r: String)
    ensures
        r@ == spec_registers_text(*regs),
{
    let mut out = String::new();
    out.append("Final registers:\n");
    let l0 = reg_line("ax", regs.ax);
    out.append(l0.as_str());
    let l1 = reg_line("bx", regs.bx);
    out.append(l1.as_str());
    let l2 = reg_line("cx", regs.cx);
    out.append(l2.as_str());
    let l3 = reg_line("dx", regs.dx);
    out.append(l3.as_str());
    let l4 = reg_line("sp", regs.sp);
    out.append(l4.as_str());
    let l5 = reg_line("bp", regs.bp);
    out.append(l5.as_str());
    let l6 = reg_line("si", regs.si);
    out.append(l6.as_str());
    let l7 = reg_line("di", regs.di);
    out.append(l7.as_str());
    let l8 = reg_line("cs", regs.cs);
    out.append(l8.as_str());
    let l9 = reg_line("ds", regs.ds);
    out.append(l9.as_str());
    let l10 = reg_line("ss", regs.ss);
    out.append(l10.as_str());
    let l11 = reg_line("es", regs.es);
    out.append(l11.as_str());
    proof {
        reveal_strlit("Final registers:\n");
        assert(out@ =~= spec_registers_text(*regs));
    }
    out
}

/// Renders the flag report.
#[verifier::spinoff_prover]
#[verifier::rlimit(100)]
fn flags_text(f: &Flags) -> (r: String)
    ensures
        r@ == spec_flags_text(*f),
{
    let mut out = String::new();
    let any = f.auxiliary || f.carry || f.overflow || f.parity || f.sign || f.zero;
    if any {
        out.append("   flags: ");
        if f.auxiliary {
            out.append("A");
        }
        if f.carry {
            out.append("C");
        }
        if f.overflow {
            out.append("O");
        }
        if f.parity {
            out.append("P");
        }
        if f.sign {
            out.append("S");
        }
        if f.zero {
            out.append("Z");
        }
    }
    out.append("\n");
    proof {
        reveal_strlit("   flags: ");
        reveal_strlit("A");
        reveal_strlit("C");
        reveal_strlit("O");
        reveal_strlit("P");
        reveal_strlit("S");
        reveal_strlit("Z");
        reveal_strlit("\n");
        reveal_strlit("");
        assert(out@ =~= spec_flags_text(*f));
    }
    out
}

impl Simulator {
    /// Renders the final machine state: the nonzero registers, the
    /// instruction pointer when IP logging is on, and the set flags.
    #[verifier::spinoff_prover]
    #[verifier::rlimit(100)]
    pub fn state_text(&self) -> (r: String)
        ensures
            r@ == spec_state_text(*self),
    {
        let mut out = String::new();
        let regs = registers_text(&self.registers);
        out.append(regs.as_str());
        if self.log_ip {
            out.append("      ip: ");
            let h = hex4_text(self.ip);
            out.append(h.as_str());
            out.append(" (");
            let d = u16_text(self.ip);
            out.append(d.as_str());
            out.append(")\n");
        }
        let fl = flags_text(&self.flags);
        out.append(fl.as_str());
        proof {
            reveal_strlit("      ip: ");
            reveal_strlit(" (");
            reveal_strlit(")\n");
            reveal_strlit("");
            assert(out@ =~= spec_state_text(*self));
        }
        out
    }
}

} // verus!
