//! CPU state: the register file with byte-half access, the flag set, the
//! 64 KiB memory image, and the two clock accumulators.

use vstd::prelude::*;

use crate::fields::{
    Carry, Data, DataWithCarry, EffectiveAddress, HalfCarry, Register, SegmentRegister,
};
use crate::handlers::ArithmeticOp;

verus! {

/// Accumulated 8086 clock count.
#[derive(Clone, Copy, PartialEq, Eq, Structural, Debug)]
pub struct Clocks8086(pub usize);

/// Accumulated 8088 clock count.
#[derive(Clone, Copy, PartialEq, Eq, Structural, Debug)]
pub struct Clocks8088(pub usize);

/// The low byte of a 16-bit cell.
pub open spec fn spec_low(v: u16) -> u8 {
    (v & 0xFF) as u8
}

/// The high byte of a 16-bit cell.
pub open spec fn spec_high(v: u16) -> u8 {
    (v >> 8) as u8
}

/// A 16-bit cell with its low byte replaced.
pub open spec fn spec_set_low(v: u16, b: u8) -> u16 {
    (v & 0xFF00) | (b as u16)
}

/// A 16-bit cell with its high byte replaced.
pub open spec fn spec_set_high(v: u16, b: u8) -> u16 {
    ((v & 0x00FF) | ((b as u16) << 8)) as u16
}

/// The register file: the four general pairs, the four pointer/index
/// registers, and the four segment registers, each a 16-bit cell. Byte
/// registers read and write the low or high half of their pair in place.
#[derive(Clone, Copy, PartialEq, Eq, Structural, Debug)]
pub struct Registers {
    pub ax: u16,
    pub bx: u16,
    pub cx: u16,
    pub dx: u16,
    pub sp: u16,
    pub bp: u16,
    pub si: u16,
    pub di: u16,
    pub es: u16,
    pub ss: u16,
    pub ds: u16,
    pub cs: u16,
}

impl Default for Registers {
    /// All registers start at zero.
    fn default() -> (r: Registers)
        ensures
            r == (Registers {
                ax: 0,
                bx: 0,
                cx: 0,
                dx: 0,
                sp: 0,
                bp: 0,
                si: 0,
                di: 0,
                es: 0,
                ss: 0,
                ds: 0,
                cs: 0,
            }),
    {
        Registers {
            ax: 0,
            bx: 0,
            cx: 0,
            dx: 0,
            sp: 0,
            bp: 0,
            si: 0,
            di: 0,
            es: 0,
            ss: 0,
            ds: 0,
            cs: 0,
        }
    }
}

impl Registers {
    /// The value a register names: the full cell for a 16-bit register, the
    /// low or high byte of its pair for a byte register.
    pub open spec fn spec_get(self, reg: Register) -> Data {
        match reg {
            Register::AX => Data::U16(self.ax),
            Register::BX => Data::U16(self.bx),
            Register::CX => Data::U16(self.cx),
            Register::DX => Data::U16(self.dx),
            Register::SP => Data::U16(self.sp),
            Register::BP => Data::U16(self.bp),
            Register::SI => Data::U16(self.si),
            Register::DI => Data::U16(self.di),
            Register::AL => Data::U8(spec_low(self.ax)),
            Register::BL => Data::U8(spec_low(self.bx)),
            Register::CL => Data::U8(spec_low(self.cx)),
            Register::DL => Data::U8(spec_low(self.dx)),
            Register::AH => Data::U8(spec_high(self.ax)),
            Register::BH => Data::U8(spec_high(self.bx)),
            Register::CH => Data::U8(spec_high(self.cx)),
            Register::DH => Data::U8(spec_high(self.dx)),
        }
    }

    /// The value a segment register holds.
    pub open spec fn spec_get_sr(self, sr: SegmentRegister) -> Data {
        match sr {
            SegmentRegister::CS => Data::U16(self.cs),
            SegmentRegister::DS => Data::U16(self.ds),
            SegmentRegister::ES => Data::U16(self.es),
            SegmentRegister::SS => Data::U16(self.ss),
        }
    }

    /// The register file after writing `imd` to `reg`: a 16-bit register
    /// takes the zero-extended value; a byte register replaces its half of
    /// the pair with the value's low byte.
    pub open spec fn spec_set_imd(self, reg: Register, imd: Data) -> Registers {
        match reg {
            Register::AX => Registers { ax: imd.spec_to_u16(), ..self },
            Register::BX => Registers { bx: imd.spec_to_u16(), ..self },
            Register::CX => Registers { cx: imd.spec_to_u16(), ..self },
            Register::DX => Registers { dx: imd.spec_to_u16(), ..self },
            Register::SP => Registers { sp: imd.spec_to_u16(), ..self },
            Register::BP => Registers { bp: imd.spec_to_u16(), ..self },
            Register::SI => Registers { si: imd.spec_to_u16(), ..self },
            Register::DI => Registers { di: imd.spec_to_u16(), ..self },
            Register::AL => Registers { ax: spec_set_low(self.ax, imd.spec_low_byte()), ..self },
            Register::BL => Registers { bx: spec_set_low(self.bx, imd.spec_low_byte()), ..self },
            Register::CL => Registers { cx: spec_set_low(self.cx, imd.spec_low_byte()), ..self },
            Register::DL => Registers { dx: spec_set_low(self.dx, imd.spec_low_byte()), ..self },
            Register::AH => Registers { ax: spec_set_high(self.ax, imd.spec_low_byte()), ..self },
            Register::BH => Registers { bx: spec_set_high(self.bx, imd.spec_low_byte()), ..self },
            Register::CH => Registers { cx: spec_set_high(self.cx, imd.spec_low_byte()), ..self },
            Register::DH => Registers { dx: spec_set_high(self.dx, imd.spec_low_byte()), ..self },
        }
    }

    /// The register file after writing `imd` to a segment register.
    pub open spec fn spec_set_sr_imd(self, sr: SegmentRegister, imd: Data) -> Registers {
        match sr {
            SegmentRegister::CS => Registers { cs: imd.spec_to_u16(), ..self },
            SegmentRegister::DS => Registers { ds: imd.spec_to_u16(), ..self },
            SegmentRegister::ES => Registers { es: imd.spec_to_u16(), ..self },
            SegmentRegister::SS => Registers { ss: imd.spec_to_u16(), ..self },
        }
    }

    /// Decrements CX by exactly one.
    pub fn dec_cx(&mut self)
        requires
            old(self).cx >= 1,
        ensures
            *final(self) == (Registers { cx: (old(self).cx - 1) as u16, ..*old(self) }),
    {
        self.cx = self.cx - 1;
    }

    /// The value of CX.
    pub fn cx(&self) -> (r: u16)
        ensures
            r == self.cx,
    {
        self.cx
    }

    /// Reads a register.
    pub fn get(&self, reg: Register) -> (r: Data)
        ensures
            r == self.spec_get(reg),
    {
        match reg {
            Register::AX => Data::U16(self.ax),
            Register::BX => Data::U16(self.bx),
            Register::CX => Data::U16(self.cx),
            Register::DX => Data::U16(self.dx),
            Register::SP => Data::U16(self.sp),
            Register::BP => Data::U16(self.bp),
            Register::SI => Data::U16(self.si),
            Register::DI => Data::U16(self.di),
            Register::AL => Data::U8((self.ax & 0xFF) as u8),
            Register::BL => Data::U8((self.bx & 0xFF) as u8),
            Register::CL => Data::U8((self.cx & 0xFF) as u8),
            Register::DL => Data::U8((self.dx & 0xFF) as u8),
            Register::AH => Data::U8((self.ax >> 8) as u8),
            Register::BH => Data::U8((self.bx >> 8) as u8),
            Register::CH => Data::U8((self.cx >> 8) as u8),
            Register::DH => Data::U8((self.dx >> 8) as u8),
        }
    }

    /// Reads a segment register.
    pub fn get_sr(&self, sr: SegmentRegister) -> (r: Data)
        ensures
            r == self.spec_get_sr(sr),
    {
        match sr {
            SegmentRegister::CS => Data::U16(self.cs),
            SegmentRegister::DS => Data::U16(self.ds),
            SegmentRegister::ES => Data::U16(self.es),
            SegmentRegister::SS => Data::U16(self.ss),
        }
    }

    /// Writes a value to a register. A byte register only takes a byte
    /// value; a 16-bit register takes either width, zero-extending.
    pub fn set_imd(&mut self, reg: Register, imd: Data)
        requires
            reg.spec_is_wide() || imd is U8,
        ensures
            *final(self) == old(self).spec_set_imd(reg, imd),
    {
        let v16 = imd.to_u16();
        let v8 = match imd {
            Data::U8(b) => b,
            Data::U16(w) => (w & 0xFF) as u8,
        };
        match reg {
            Register::AX => self.ax = v16,
            Register::BX => self.bx = v16,
            Register::CX => self.cx = v16,
            Register::DX => self.dx = v16,
            Register::SP => self.sp = v16,
            Register::BP => self.bp = v16,
            Register::SI => self.si = v16,
            Register::DI => self.di = v16,
            Register::AL => self.ax = (self.ax & 0xFF00) | (v8 as u16),
            Register::BL => self.bx = (self.bx & 0xFF00) | (v8 as u16),
            Register::CL => self.cx = (self.cx & 0xFF00) | (v8 as u16),
            Register::DL => self.dx = (self.dx & 0xFF00) | (v8 as u16),
            Register::AH => self.ax = ((self.ax & 0x00FF) | ((v8 as u16) << 8)) as u16,
            Register::BH => self.bx = ((self.bx & 0x00FF) | ((v8 as u16) << 8)) as u16,
            Register::CH => self.cx = ((self.cx & 0x00FF) | ((v8 as u16) << 8)) as u16,
            Register::DH => self.dx = ((self.dx & 0x00FF) | ((v8 as u16) << 8)) as u16,
        }
    }

    /// Writes a value to a segment register, zero-extending a byte value.
    pub fn set_sr_imd(&mut self, sr: SegmentRegister, imd: Data)
        ensures
            *final(self) == old(self).spec_set_sr_imd(sr, imd),
    {
        let v16 = imd.to_u16();
        match sr {
            SegmentRegister::CS => self.cs = v16,
            SegmentRegister::DS => self.ds = v16,
            SegmentRegister::ES => self.es = v16,
            SegmentRegister::SS => self.ss = v16,
        }
    }

    /// Copies one register into another. A byte destination only takes a
    /// byte source.
    pub fn set_reg(&mut self, to: Register, from: Register)
        requires
            to.spec_is_wide() || !from.spec_is_wide(),
        ensures
            *final(self) == old(self).spec_set_imd(to, old(self).spec_get(from)),
    {
        let imd = self.get(from);
        self.set_imd(to, imd);
    }

    /// Copies a segment register into a 16-bit register.
    pub fn set_reg_from_sr(&mut self, reg: Register, sr: SegmentRegister)
        requires
            reg.spec_is_wide(),
        ensures
            *final(self) == old(self).spec_set_imd(reg, old(self).spec_get_sr(sr)),
    {
        let imd = self.get_sr(sr);
        self.set_imd(reg, imd);
    }

    /// Copies a register into a segment register.
    pub fn set_sr_from_reg(&mut self, sr: SegmentRegister, reg: Register)
        ensures
            *final(self) == old(self).spec_set_sr_imd(sr, old(self).spec_get(reg)),
    {
        let imd = self.get(reg);
        self.set_sr_imd(sr, imd);
    }

    /// The linear 16-bit address an effective-address operand resolves to
    /// under the current registers: the base register (or register pair)
    /// plus the displacement, wrapping at 64 KiB.
    pub open spec fn spec_calculate_eff_addr(self, ea: EffectiveAddress) -> u16 {
        match ea {
            EffectiveAddress::DirectAddress(addr, _) => addr,
            EffectiveAddress::BX_SI(disp, _) => ((self.bx + self.si + spec_disp_or_zero(disp))
                % 0x10000) as u16,
            EffectiveAddress::BX_DI(disp, _) => ((self.bx + self.di + spec_disp_or_zero(disp))
                % 0x10000) as u16,
            EffectiveAddress::BP_SI(disp, _) => ((self.bp + self.si + spec_disp_or_zero(disp))
                % 0x10000) as u16,
            EffectiveAddress::BP_DI(disp, _) => ((self.bp + self.di + spec_disp_or_zero(disp))
                % 0x10000) as u16,
            EffectiveAddress::SI(disp, _) => ((self.si + spec_disp_or_zero(disp)) % 0x10000) as u16,
            EffectiveAddress::DI(disp, _) => ((self.di + spec_disp_or_zero(disp)) % 0x10000) as u16,
            EffectiveAddress::BP(disp, _) => ((self.bp + disp) % 0x10000) as u16,
            EffectiveAddress::BX(disp, _) => ((self.bx + spec_disp_or_zero(disp)) % 0x10000) as u16,
        }
    }

    /// Resolves an effective address against the current registers.
    pub fn calculate_eff_addr(&self, ea: EffectiveAddress) -> (r: u16)
        ensures
            r == self.spec_calculate_eff_addr(ea),
    {
        match ea {
            EffectiveAddress::DirectAddress(addr, _) => addr,
            EffectiveAddress::BX_SI(disp, _) => self.bx.wrapping_add(self.si).wrapping_add(
                disp_or_zero(disp),
            ),
            EffectiveAddress::BX_DI(disp, _) => self.bx.wrapping_add(self.di).wrapping_add(
                disp_or_zero(disp),
            ),
            EffectiveAddress::BP_SI(disp, _) => self.bp.wrapping_add(self.si).wrapping_add(
                disp_or_zero(disp),
            ),
            EffectiveAddress::BP_DI(disp, _) => self.bp.wrapping_add(self.di).wrapping_add(
                disp_or_zero(disp),
            ),
            EffectiveAddress::SI(disp, _) => self.si.wrapping_add(disp_or_zero(disp)),
            EffectiveAddress::DI(disp, _) => self.di.wrapping_add(disp_or_zero(disp)),
            EffectiveAddress::BP(disp, _) => self.bp.wrapping_add(disp),
            EffectiveAddress::BX(disp, _) => self.bx.wrapping_add(disp_or_zero(disp)),
        }
    }
}

/// A displacement, or zero where the encoding carries none.
pub open spec fn spec_disp_or_zero(disp: Option<u16>) -> u16 {
    match disp {
        Some(d) => d,
        None => 0,
    }
}

fn disp_or_zero(disp: Option<u16>) -> (r: u16)
    ensures
        r == spec_disp_or_zero(disp),
{
    match disp {
        Some(d) => d,
        None => 0,
    }
}

/// The arithmetic/logic flag set.
#[derive(Clone, Copy, PartialEq, Eq, Structural, Debug)]
pub struct Flags {
    pub zero: bool,
    pub sign: bool,
    pub parity: bool,
    pub carry: bool,
    pub overflow: bool,
    pub auxiliary: bool,
}

impl Default for Flags {
    /// All flags start clear.
    fn default() -> (r: Flags)
        ensures
            r == (Flags {
                zero: false,
                sign: false,
                parity: false,
                carry: false,
                overflow: false,
                auxiliary: false,
            }),
    {
        Flags {
            zero: false,
            sign: false,
            parity: false,
            carry: false,
            overflow: false,
            auxiliary: false,
        }
    }
}

/// The signed-overflow rule: addition overflows when the operands share a
/// sign and the result has the other; subtraction and comparison overflow
/// when the operands differ in sign and the result's sign matches the
/// right-hand side's.
pub open spec fn spec_overflow_flag(
    lhs: Data,
    rhs: Data,
    op: ArithmeticOp,
    value: Data,
) -> bool {
    ||| (!lhs.spec_is_signed() && !rhs.spec_is_signed() && matches!(
        op,
        ArithmeticOp::Add,
    ) && value.spec_is_signed())
    ||| (lhs.spec_is_signed() && rhs.spec_is_signed() && matches!(op, ArithmeticOp::Add)
        && !value.spec_is_signed())
    ||| (lhs.spec_is_signed() && !rhs.spec_is_signed() && matches!(
        op,
        ArithmeticOp::Sub | ArithmeticOp::Cmp,
    ) && !value.spec_is_signed())
    ||| (!lhs.spec_is_signed() && rhs.spec_is_signed() && matches!(
        op,
        ArithmeticOp::Sub | ArithmeticOp::Cmp,
    ) && value.spec_is_signed())
}

/// The flag set after an arithmetic result: Z, S and P from the result
/// value (P from its low byte alone), C and A from the carries, O by the
/// signed-overflow rule.
pub open spec fn spec_flags_after_arithmetic(
    lhs: Data,
    rhs: Data,
    op: ArithmeticOp,
    computation: DataWithCarry,
) -> Flags {
    Flags {
        zero: computation.0.spec_is_zero(),
        parity: computation.0.spec_is_lower_byte_even_parity(),
        sign: computation.0.spec_is_signed(),
        carry: computation.1.0,
        overflow: spec_overflow_flag(lhs, rhs, op, computation.0),
        auxiliary: computation.2.0,
    }
}

/// The flag set after a logical result: Z, S and P from the value, C, O
/// and A forced clear.
pub open spec fn spec_flags_after_logical(value: Data) -> Flags {
    Flags {
        zero: value.spec_is_zero(),
        parity: value.spec_is_lower_byte_even_parity(),
        sign: value.spec_is_signed(),
        carry: false,
        overflow: false,
        auxiliary: false,
    }
}

impl Flags {
    /// Sets the flags from an arithmetic computation. The parity flag
    /// reflects the even parity of the low byte of the result, for both
    /// widths.
    pub fn set(&mut self, lhs: Data, rhs: Data, op: ArithmeticOp, computation: DataWithCarry)
        ensures
            *final(self) == spec_flags_after_arithmetic(lhs, rhs, op, computation),
    {
        let DataWithCarry(value, Carry(carry), HalfCarry(half_carry)) = computation;
        self.zero = value.is_zero();
        self.parity = value.is_lower_byte_even_parity();
        self.sign = value.is_signed();
        self.carry = carry;
        self.overflow = match (lhs.is_signed(), rhs.is_signed(), &op, value.is_signed()) {
            (false, false, ArithmeticOp::Add, true) => true,
            (true, true, ArithmeticOp::Add, false) => true,
            (true, false, ArithmeticOp::Sub, false) => true,
            (true, false, ArithmeticOp::Cmp, false) => true,
            (false, true, ArithmeticOp::Sub, true) => true,
            (false, true, ArithmeticOp::Cmp, true) => true,
            _ => false,
        };
        self.auxiliary = half_carry;
    }

    /// Sets the flags from a logical result: Z, S and P from the value
    /// (P from its low byte), C, O and A cleared.
    pub fn set_logical(&mut self, value: Data)
        ensures
            *final(self) == spec_flags_after_logical(value),
    {
        self.zero = value.is_zero();
        self.parity = value.is_lower_byte_even_parity();
        self.sign = value.is_signed();
        self.carry = false;
        self.overflow = false;
        self.auxiliary = false;
    }
}

/// The 64 KiB linear memory image, zero-initialised.
pub struct Memory(pub Vec<u8>);

impl Memory {
    /// The image always spans exactly 64 KiB.
    pub open spec fn wf(self) -> bool {
        self.0@.len() == 0x10000
    }
}

impl Default for Memory {
    /// A fresh, all-zero 64 KiB image.
    fn default() -> (r: Memory)
        ensures
            r.wf(),
            forall|i: int| 0 <= i < 0x10000 ==> r.0@[i] == 0u8,
    {
        let mut cells: Vec<u8> = Vec::new();
        let mut i: usize = 0;
        while i < 0x10000
            invariant
                i <= 0x10000,
                cells@.len() == i as int,
                forall|j: int| 0 <= j < i as int ==> cells@[j] == 0u8,
            decreases 0x10000 - i,
        {
            cells.push(0u8);
            i = i + 1;
        }
        Memory(cells)
    }
}

impl Memory {
    /// The raw 64 KiB image.
    pub fn raw(&self) -> (r: &[u8])
        ensures
            r@ == self.0@,
    {
        self.0.as_slice()
    }

    /// Loads the byte at an address.
    pub fn load_8(&self, addr: u16) -> (r: u8)
        requires
            self.wf(),
        ensures
            r == self.0@[addr as int],
    {
        self.0[addr as usize]
    }

    /// Loads the little-endian word at an address; the address of its high
    /// byte must still be in range.
    pub fn load_16(&self, addr: u16) -> (r: u16)
        requires
            self.wf(),
            addr < 0xFFFF,
        ensures
            r == crate::extractors::spec_le_word(self.0@[addr as int], self.0@[addr as int + 1]),
    {
        let low = self.0[addr as usize];
        let high = self.0[addr as usize + 1];
        ((high as u16) << 8) | (low as u16)
    }

    /// Stores a byte at an address.
    pub fn store_8(&mut self, addr: u16, val: u8)
        requires
            old(self).wf(),
        ensures
            final(self).wf(),
            final(self).0@ == old(self).0@.update(addr as int, val),
    {
        self.0[addr as usize] = val;
    }

    /// Stores a word at an address, low byte first; the address of its high
    /// byte must still be in range.
    pub fn store_16(&mut self, addr: u16, val: u16)
        requires
            old(self).wf(),
            addr < 0xFFFF,
        ensures
            final(self).wf(),
            final(self).0@ == old(self).0@.update(addr as int, spec_low(val)).update(
                addr as int + 1,
                spec_high(val),
            ),
    {
        self.0[addr as usize] = (val & 0xFF) as u8;
        self.0[addr as usize + 1] = (val >> 8) as u8;
    }
}

} // verus!
