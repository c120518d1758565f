//! Immutable field types shared by the decoder, the text emitter and the
//! simulator: registers, segment registers, immediates, effective addresses,
//! jump increments, far targets, and the operation enumeration.

use vstd::prelude::*;

verus! {

/// One of the sixteen addressable registers: eight 16-bit registers and the
/// eight byte halves of AX, BX, CX and DX.
#[derive(Clone, Copy, PartialEq, Eq, Structural, Debug)]
pub enum Register {
    AX, BX, CX, DX,
    AH, BH, CH, DH,
    AL, BL, CL, DL,
    SP, BP, SI, DI,
}

impl Register {
    pub open spec fn spec_is_wide(&self) -> bool {
        matches!(
            self,
            Self::AX | Self::BX | Self::CX | Self::DX | Self::SP | Self::BP | Self::SI | Self::DI
        )
    }

    /// Whether the register is a full 16-bit register (as opposed to a byte half).
    #[verifier::when_used_as_spec(spec_is_wide)]
    pub fn is_wide(&self) -> (r: bool)
        ensures
            r == self.spec_is_wide(),
    {
        matches!(
            self,
            Self::AX | Self::BX | Self::CX | Self::DX | Self::SP | Self::BP | Self::SI | Self::DI
        )
    }
}

/// The standard 8086 register table: a 3-bit field and the W bit select one
/// of the sixteen registers.
pub open spec fn spec_register_from_u8(reg: u8, wide: bool) -> Register {
    if reg == 0 { if wide { Register::AX } else { Register::AL } }
    else if reg == 1 { if wide { Register::CX } else { Register::CL } }
    else if reg == 2 { if wide { Register::DX } else { Register::DL } }
    else if reg == 3 { if wide { Register::BX } else { Register::BL } }
    else if reg == 4 { if wide { Register::SP } else { Register::AH } }
    else if reg == 5 { if wide { Register::BP } else { Register::CH } }
    else if reg == 6 { if wide { Register::SI } else { Register::DH } }
    else { if wide { Register::DI } else { Register::BH } }
}

/// Decodes a 3-bit register field together with the W bit.
pub fn register_from_u8(reg: u8, wide: bool) -> (r: Register)
    requires
        reg < 8,
    ensures
        r == spec_register_from_u8(reg, wide),
{
    match reg {
        0 => if wide { Register::AX } else { Register::AL },
        1 => if wide { Register::CX } else { Register::CL },
        2 => if wide { Register::DX } else { Register::DL },
        3 => if wide { Register::BX } else { Register::BL },
        4 => if wide { Register::SP } else { Register::AH },
        5 => if wide { Register::BP } else { Register::CH },
        6 => if wide { Register::SI } else { Register::DH },
        _ => if wide { Register::DI } else { Register::BH },
    }
}

/// One of the four segment registers.
#[derive(Clone, Copy, PartialEq, Eq, Structural, Debug)]
pub enum SegmentRegister {
    ES,
    CS,
    SS,
    DS,
}

pub open spec fn spec_sr_from_u8(sr: u8) -> SegmentRegister {
    if sr == 0 { SegmentRegister::ES }
    else if sr == 1 { SegmentRegister::CS }
    else if sr == 2 { SegmentRegister::SS }
    else { SegmentRegister::DS }
}

/// Decodes a 2-bit segment-register field.
pub fn sr_from_u8(sr: u8) -> (r: SegmentRegister)
    requires
        sr < 4,
    ensures
        r == spec_sr_from_u8(sr),
{
    match sr {
        0 => SegmentRegister::ES,
        1 => SegmentRegister::CS,
        2 => SegmentRegister::SS,
        _ => SegmentRegister::DS,
    }
}

/// Immediate data with its width intrinsic to the value.
#[derive(Clone, Copy, PartialEq, Eq, Structural, Debug)]
pub enum Data {
    U8(u8),
    U16(u16),
}

/// Carry out of the full-width add or subtract.
#[derive(Clone, Copy, PartialEq, Eq, Structural, Debug)]
pub struct Carry(pub bool);

/// Carry or borrow out of bit 3 (the low nibble), feeding the auxiliary flag.
#[derive(Clone, Copy, PartialEq, Eq, Structural, Debug)]
pub struct HalfCarry(pub bool);

/// An arithmetic result together with its carry and half-carry bits.
#[derive(Clone, Copy, PartialEq, Eq, Structural, Debug)]
pub struct DataWithCarry(pub Data, pub Carry, pub HalfCarry);

impl Data {
    /// Zero-extends the value to 16 bits.
    pub open spec fn spec_to_u16(self) -> u16 {
        match self {
            Data::U8(x) => x as u16,
            Data::U16(x) => x,
        }
    }

    #[verifier::when_used_as_spec(spec_to_u16)]
    pub fn to_u16(self) -> (r: u16)
        ensures
            r == self.spec_to_u16(),
    {
        match self {
            Data::U8(x) => x as u16,
            Data::U16(x) => x,
        }
    }

    /// Extracts the byte value; only `U8` carries one.
    pub fn to_u8(self) -> (r: Option<u8>)
        ensures
            match self {
                Data::U8(x) => r == Some(x),
                Data::U16(_) => r is None,
            },
    {
        match self {
            Data::U8(x) => Some(x),
            Data::U16(_) => None,
        }
    }

    pub open spec fn spec_is_wide(&self) -> bool {
        self is U16
    }

    /// Whether both values carry the same width tag.
    pub open spec fn same_width(self, other: Data) -> bool {
        self.spec_is_wide() == other.spec_is_wide()
    }

    pub open spec fn spec_is_zero(&self) -> bool {
        self.spec_to_u16() == 0
    }

    /// Whether the value is zero (the zero flag of a result).
    #[verifier::when_used_as_spec(spec_is_zero)]
    pub fn is_zero(&self) -> (r: bool)
        ensures
            r == self.spec_is_zero(),
    {
        self.to_u16() == 0
    }

    pub open spec fn spec_is_signed(&self) -> bool {
        match *self {
            Data::U8(x) => (x >> 7) == 1,
            Data::U16(x) => (x >> 15) == 1,
        }
    }

    /// Whether the top bit of the value is set (the sign flag of a result).
    #[verifier::when_used_as_spec(spec_is_signed)]
    pub fn is_signed(&self) -> (r: bool)
        ensures
            r == self.spec_is_signed(),
    {
        match *self {
            Data::U8(x) => (x >> 7) == 1,
            Data::U16(x) => (x >> 15) == 1,
        }
    }

    /// The low byte of the value; the parity flag looks at this byte alone.
    pub open spec fn spec_low_byte(self) -> u8 {
        match self {
            Data::U8(x) => x,
            Data::U16(x) => (x & 0xFF) as u8,
        }
    }

    pub open spec fn spec_is_lower_byte_even_parity(&self) -> bool {
        spec_even_parity(self.spec_low_byte())
    }

    /// Whether the low byte has an even number of set bits, for both widths.
    #[verifier::when_used_as_spec(spec_is_lower_byte_even_parity)]
    pub fn is_lower_byte_even_parity(&self) -> (r: bool)
        ensures
            r == self.spec_is_lower_byte_even_parity(),
    {
        let b = match *self {
            Data::U8(x) => x,
            Data::U16(x) => (x & 0xFF) as u8,
        };
        even_parity(b)
    }

    /// Wrapping addition of two width-matched values, with the carry out of
    /// the full width and the carry out of the low nibble.
    pub fn wrapping_add(self, rhs: Data) -> (r: DataWithCarry)
        requires
            self.same_width(rhs),
        ensures
            r == spec_data_add(self, rhs),
    {
        match (self, rhs) {
            (Data::U8(x), Data::U8(y)) => {
                let val = x.wrapping_add(y);
                let carry = x.checked_add(y).is_none();
                let half_carry = ((x & 0xF) as u32) + ((y & 0xF) as u32) > 0xF;
                DataWithCarry(Data::U8(val), Carry(carry), HalfCarry(half_carry))
            }
            (Data::U16(x), Data::U16(y)) => {
                let val = x.wrapping_add(y);
                let carry = x.checked_add(y).is_none();
                let half_carry = ((x & 0xF) as u32) + ((y & 0xF) as u32) > 0xF;
                DataWithCarry(Data::U16(val), Carry(carry), HalfCarry(half_carry))
            }
            _ => {
                // excluded by the width precondition; either pairing returns
                // an arbitrary well-typed value that the contract never admits
                DataWithCarry(Data::U8(0), Carry(false), HalfCarry(false))
            }
        }
    }

    /// Wrapping subtraction of two width-matched values, with the borrow out
    /// of the full width and the borrow into the low nibble.
    pub fn wrapping_sub(self, rhs: Data) -> (r: DataWithCarry)
        requires
            self.same_width(rhs),
        ensures
            r == spec_data_sub(self, rhs),
    {
        match (self, rhs) {
            (Data::U8(x), Data::U8(y)) => {
                let val = x.wrapping_sub(y);
                let carry = x < y;
                let half_carry = (x & 0xF) < (y & 0xF);
                DataWithCarry(Data::U8(val), Carry(carry), HalfCarry(half_carry))
            }
            (Data::U16(x), Data::U16(y)) => {
                let val = x.wrapping_sub(y);
                let carry = x < y;
                let half_carry = (x & 0xF) < (y & 0xF);
                DataWithCarry(Data::U16(val), Carry(carry), HalfCarry(half_carry))
            }
            _ => DataWithCarry(Data::U8(0), Carry(false), HalfCarry(false)),
        }
    }

    /// Bitwise AND of two width-matched values.
    pub fn bit_and(self, rhs: Data) -> (r: Data)
        requires
            self.same_width(rhs),
        ensures
            match (self, rhs) {
                (Data::U8(x), Data::U8(y)) => r == Data::U8(x & y),
                (Data::U16(x), Data::U16(y)) => r == Data::U16(x & y),
                _ => false,
            },
    {
        match (self, rhs) {
            (Data::U8(x), Data::U8(y)) => Data::U8(x & y),
            (Data::U16(x), Data::U16(y)) => Data::U16(x & y),
            _ => Data::U8(0),
        }
    }

    /// Bitwise XOR of two width-matched values.
    pub fn bit_xor(self, rhs: Data) -> (r: Data)
        requires
            self.same_width(rhs),
        ensures
            match (self, rhs) {
                (Data::U8(x), Data::U8(y)) => r == Data::U8(x ^ y),
                (Data::U16(x), Data::U16(y)) => r == Data::U16(x ^ y),
                _ => false,
            },
    {
        match (self, rhs) {
            (Data::U8(x), Data::U8(y)) => Data::U8(x ^ y),
            (Data::U16(x), Data::U16(y)) => Data::U16(x ^ y),
            _ => Data::U8(0),
        }
    }

    /// Logical right shift. The count is always a byte value; it must be
    /// smaller than the width of the shifted value.
    pub fn shift_right(self, rhs: Data) -> (r: Data)
        requires
            rhs is U8,
            self is U8 ==> rhs.spec_to_u16() < 8,
            self is U16 ==> rhs.spec_to_u16() < 16,
        ensures
            match (self, rhs) {
                (Data::U8(x), Data::U8(y)) => r == Data::U8(x >> y),
                (Data::U16(x), Data::U8(y)) => r == Data::U16(x >> y),
                _ => false,
            },
    {
        match (self, rhs) {
            (Data::U8(x), Data::U8(y)) => Data::U8(x >> y),
            (Data::U16(x), Data::U8(y)) => Data::U16(x >> y),
            _ => Data::U8(0),
        }
    }
}


/// Wrapping addition with its carry and half-carry bits: the value is the
/// sum modulo the width, the carry says the sum overflowed the width, and
/// the half-carry says the low nibbles' sum overflowed 15.
pub open spec fn spec_data_add(a: Data, b: Data) -> DataWithCarry {
    match (a, b) {
        (Data::U8(x), Data::U8(y)) => DataWithCarry(
            Data::U8(((x + y) % 256) as u8),
            Carry(x + y > 0xFF),
            HalfCarry((x & 0xF) + (y & 0xF) > 0xF),
        ),
        (Data::U16(x), Data::U16(y)) => DataWithCarry(
            Data::U16(((x + y) % 0x10000) as u16),
            Carry(x + y > 0xFFFF),
            HalfCarry((x & 0xF) + (y & 0xF) > 0xF),
        ),
        _ => DataWithCarry(Data::U8(0), Carry(false), HalfCarry(false)),
    }
}

/// Wrapping subtraction with its borrow and half-borrow bits: the value is
/// the difference modulo the width, the carry says the subtrahend was
/// larger, and the half-carry says its low nibble was.
pub open spec fn spec_data_sub(a: Data, b: Data) -> DataWithCarry {
    match (a, b) {
        (Data::U8(x), Data::U8(y)) => DataWithCarry(
            Data::U8((((x as int) - (y as int)) % 256) as u8),
            Carry(x < y),
            HalfCarry((x & 0xF) < (y & 0xF)),
        ),
        (Data::U16(x), Data::U16(y)) => DataWithCarry(
            Data::U16((((x as int) - (y as int)) % 0x10000) as u16),
            Carry(x < y),
            HalfCarry((x & 0xF) < (y & 0xF)),
        ),
        _ => DataWithCarry(Data::U8(0), Carry(false), HalfCarry(false)),
    }
}

/// Even parity of a byte, stated as the XOR of its eight bits.
pub open spec fn spec_even_parity(b: u8) -> bool {
    ((b ^ (b >> 1) ^ (b >> 2) ^ (b >> 3) ^ (b >> 4) ^ (b >> 5) ^ (b >> 6) ^ (b >> 7)) & 1) == 0
}

/// Computes the even-parity bit of a byte.
pub fn even_parity(b: u8) -> (r: bool)
    ensures
        r == spec_even_parity(b),
{
    ((b ^ (b >> 1) ^ (b >> 2) ^ (b >> 3) ^ (b >> 4) ^ (b >> 5) ^ (b >> 6) ^ (b >> 7)) & 1) == 0
}

/// The width tag of a memory operand: explicit byte or word width, or an
/// implicit width (another operand fixes it).
#[derive(Clone, Copy, PartialEq, Eq, Structural, Debug)]
pub enum Wide {
    Byte,
    Word,
    Implicit,
}

impl Wide {
    /// Maps the W bit to a width tag.
    pub fn from_bool(value: bool) -> (r: Wide)
        ensures
            r == if value { Wide::Word } else { Wide::Byte },
    {
        if value {
            Wide::Word
        } else {
            Wide::Byte
        }
    }
}

/// A memory operand: a base form with an optional (or, for `BP` and
/// `DirectAddress`, mandatory) 16-bit displacement whose bit pattern is the
/// signed value, and a width tag.
#[derive(Clone, Copy, PartialEq, Eq, Structural, Debug)]
#[allow(non_camel_case_types)]
pub enum EffectiveAddress {
    DirectAddress(u16, Wide),
    BX_SI(Option<u16>, Wide),
    BX_DI(Option<u16>, Wide),
    BP_SI(Option<u16>, Wide),
    BP_DI(Option<u16>, Wide),
    SI(Option<u16>, Wide),
    DI(Option<u16>, Wide),
    BP(u16, Wide),
    BX(Option<u16>, Wide),
}

impl EffectiveAddress {
    pub open spec fn spec_wide(&self) -> Wide {
        match *self {
            Self::DirectAddress(_, x) => x,
            Self::BX_SI(_, x) => x,
            Self::BX_DI(_, x) => x,
            Self::BP_SI(_, x) => x,
            Self::BP_DI(_, x) => x,
            Self::SI(_, x) => x,
            Self::DI(_, x) => x,
            Self::BP(_, x) => x,
            Self::BX(_, x) => x,
        }
    }

    /// The width tag carried by the operand.
    #[verifier::when_used_as_spec(spec_wide)]
    pub fn wide(&self) -> (r: Wide)
        ensures
            r == self.spec_wide(),
    {
        match *self {
            Self::DirectAddress(_, x) => x,
            Self::BX_SI(_, x) => x,
            Self::BX_DI(_, x) => x,
            Self::BP_SI(_, x) => x,
            Self::BP_DI(_, x) => x,
            Self::SI(_, x) => x,
            Self::DI(_, x) => x,
            Self::BP(_, x) => x,
            Self::BX(_, x) => x,
        }
    }

    /// The effective-address computation cost, by addressing mode:
    /// direct address 6; a single register with no displacement 5; a single
    /// register with a displacement 9; BP+DI or BX+SI 7, BP+SI or BX+DI 8
    /// with no displacement; 11 resp. 12 with one.
    pub open spec fn spec_clocks(&self) -> usize {
        match *self {
            Self::DirectAddress(_, _) => 6,
            Self::SI(d, _) => if d is None { 5 } else { 9 },
            Self::DI(d, _) => if d is None { 5 } else { 9 },
            Self::BP(d, _) => if d == 0u16 { 5 } else { 9 },
            Self::BX(d, _) => if d is None { 5 } else { 9 },
            Self::BP_DI(d, _) => if d is None { 7 } else { 11 },
            Self::BX_SI(d, _) => if d is None { 7 } else { 11 },
            Self::BP_SI(d, _) => if d is None { 8 } else { 12 },
            Self::BX_DI(d, _) => if d is None { 8 } else { 12 },
        }
    }

    /// The clock cost of computing this effective address.
    #[verifier::when_used_as_spec(spec_clocks)]
    pub fn clocks(&self) -> (r: usize)
        ensures
            r == self.spec_clocks(),
    {
        match *self {
            Self::DirectAddress(_, _) => 6,
            Self::SI(d, _) => if d.is_none() { 5 } else { 9 },
            Self::DI(d, _) => if d.is_none() { 5 } else { 9 },
            Self::BP(d, _) => if d == 0 { 5 } else { 9 },
            Self::BX(d, _) => if d.is_none() { 5 } else { 9 },
            Self::BP_DI(d, _) => if d.is_none() { 7 } else { 11 },
            Self::BX_SI(d, _) => if d.is_none() { 7 } else { 11 },
            Self::BP_SI(d, _) => if d.is_none() { 8 } else { 12 },
            Self::BX_DI(d, _) => if d.is_none() { 8 } else { 12 },
        }
    }
}

/// A signed jump increment, 8-bit or 16-bit, relative to the byte after the
/// jump instruction.
#[derive(Clone, Copy, PartialEq, Eq, Structural, Debug)]
pub enum Inc {
    I8(i8),
    I16(i16),
}

impl Inc {
    pub open spec fn spec_to_i16(self) -> i16 {
        match self {
            Inc::I8(x) => x as i16,
            Inc::I16(x) => x,
        }
    }

    /// Sign-extends the increment to 16 bits.
    #[verifier::when_used_as_spec(spec_to_i16)]
    pub fn to_i16(self) -> (r: i16)
        ensures
            r == self.spec_to_i16(),
    {
        match self {
            Inc::I8(x) => x as i16,
            Inc::I16(x) => x,
        }
    }
}

/// A far branch target: an explicit code segment and instruction pointer.
#[derive(Clone, Copy, PartialEq, Eq, Structural, Debug)]
pub struct CsIp {
    pub code_segment: u16,
    pub instruction_pointer: u16,
}

/// The register-or-memory half of a mod/reg/r-m encoding.
#[derive(Clone, Copy, PartialEq, Eq, Structural, Debug)]
pub enum RM {
    Reg(Register),
    Mem(EffectiveAddress),
}

impl RM {
    pub open spec fn spec_to_operand(self) -> Operand {
        match self {
            RM::Reg(x) => Operand::Register(x),
            RM::Mem(x) => Operand::EffectiveAddress(x),
        }
    }

    /// The corresponding operand.
    #[verifier::when_used_as_spec(spec_to_operand)]
    pub fn to_operand(self) -> (r: Operand)
        ensures
            r == self.spec_to_operand(),
    {
        match self {
            RM::Reg(x) => Operand::Register(x),
            RM::Mem(x) => Operand::EffectiveAddress(x),
        }
    }
}

/// Any operand an instruction can carry.
#[derive(Clone, Copy, PartialEq, Eq, Structural, Debug)]
pub enum Operand {
    Increment(Inc),
    Immediate(Data),
    Register(Register),
    EffectiveAddress(EffectiveAddress),
    SR(SegmentRegister),
    CsIp(CsIp),
}

/// Every mnemonic the decoder recognises, plus the prefix markers.
#[derive(Clone, Copy, PartialEq, Eq, Structural, Debug)]
#[allow(clippy::upper_case_acronyms)]
pub enum Operation {
    Mov,
    Add,
    Sub,
    Cmp,
    JE,
    JL,
    JLE,
    JB,
    JBE,
    JP,
    JO,
    JS,
    JNE,
    JNL,
    JNLE,
    JNB,
    JNBE,
    JNP,
    JNO,
    JNS,
    LOOP,
    LOOPZ,
    LOOPNZ,
    JCXZ,
    Push,
    Pop,
    XCHG,
    IN,
    OUT,
    XLAT,
    LEA,
    LDS,
    LES,
    LAHF,
    SAHF,
    PUSHF,
    POPF,
    ADC,
    INC,
    AAA,
    DAA,
    SBB,
    DEC,
    NEG,
    AAS,
    DAS,
    MUL,
    IMUL,
    AAM,
    DIV,
    IDIV,
    AAD,
    CBW,
    CWD,
    NOT,
    SHL,
    SHR,
    SAR,
    ROL,
    ROR,
    RCL,
    RCR,
    AND,
    TEST,
    OR,
    XOR,
    MOVSB,
    MOVSW,
    LODSB,
    LODSW,
    STOSB,
    STOSW,
    CMPSB,
    CMPSW,
    SCASB,
    SCASW,
    Call,
    CallFar,
    Jmp,
    JmpFar,
    Ret,
    RetFar,
    INT,
    INT3,
    INTO,
    IRET,
    CLC,
    CMC,
    STC,
    CLD,
    STD,
    CLI,
    STI,
    HLT,
    WAIT,
    Lock,
    Rep,
    SegmentOverrideES,
    SegmentOverrideCS,
    SegmentOverrideSS,
    SegmentOverrideDS,
}

} // verus!
