//! The CPU registers: the `Reg` names, the `Registers` file, and the flag
//! bits held in the `FLAGS` register.

use vstd::prelude::*;
use crate::text::{chars_of, lowercase_equals, lowercase_is, push_str, string_from_str};

verus! {

/// The CPU registers.
#[derive(Debug, Clone, Copy, PartialEq, Eq, Structural)]
pub enum Reg {
    /// Accumulator register.
    AX,
    /// Base register.
    BX,
    /// Counter register.
    CX,
    /// Data register.
    DX,
    /// Extended general-purpose register.
    EX,
    /// Extended general-purpose register.
    FX,
    /// Extended general-purpose register.
    GX,
    /// Extended general-purpose register.
    HX,
    /// Stack Pointer.
    SP,
    /// Base Pointer.
    BP,
    /// Source Index register.
    SI,
    /// Destination Index register.
    DI,
    /// Program Counter.
    PC,
    /// Flags register.
    FLAGS,
}

impl Reg {
    /// The number that encodes this register in an instruction word.
    pub open spec fn number(self) -> u8 {
        match self {
            Reg::AX => 0,
            Reg::BX => 1,
            Reg::CX => 2,
            Reg::DX => 3,
            Reg::EX => 4,
            Reg::FX => 5,
            Reg::GX => 6,
            Reg::HX => 7,
            Reg::SP => 8,
            Reg::BP => 9,
            Reg::SI => 10,
            Reg::DI => 11,
            Reg::PC => 12,
            Reg::FLAGS => 13,
        }
    }

    /// The register that a number from 0 to 13 encodes.
    pub open spec fn from_number(n: u32) -> Option<Reg> {
        if n == 0 {
            Some(Reg::AX)
        } else if n == 1 {
            Some(Reg::BX)
        } else if n == 2 {
            Some(Reg::CX)
        } else if n == 3 {
            Some(Reg::DX)
        } else if n == 4 {
            Some(Reg::EX)
        } else if n == 5 {
            Some(Reg::FX)
        } else if n == 6 {
            Some(Reg::GX)
        } else if n == 7 {
            Some(Reg::HX)
        } else if n == 8 {
            Some(Reg::SP)
        } else if n == 9 {
            Some(Reg::BP)
        } else if n == 10 {
            Some(Reg::SI)
        } else if n == 11 {
            Some(Reg::DI)
        } else if n == 12 {
            Some(Reg::PC)
        } else if n == 13 {
            Some(Reg::FLAGS)
        } else {
            None
        }
    }

    /// The register's name as its debug form prints it.
    pub open spec fn name(self) -> Seq<char> {
        match self {
            Reg::AX => "AX"@,
            Reg::BX => "BX"@,
            Reg::CX => "CX"@,
            Reg::DX => "DX"@,
            Reg::EX => "EX"@,
            Reg::FX => "FX"@,
            Reg::GX => "GX"@,
            Reg::HX => "HX"@,
            Reg::SP => "SP"@,
            Reg::BP => "BP"@,
            Reg::SI => "SI"@,
            Reg::DI => "DI"@,
            Reg::PC => "PC"@,
            Reg::FLAGS => "FLAGS"@,
        }
    }

    /// The register's name, as its debug form prints it.
    pub fn name_text(&self) -> (r: &'static str)
        ensures
            r@ == self.name(),
    {
        match self {
            Reg::AX => "AX",
            Reg::BX => "BX",
            Reg::CX => "CX",
            Reg::DX => "DX",
            Reg::EX => "EX",
            Reg::FX => "FX",
            Reg::GX => "GX",
            Reg::HX => "HX",
            Reg::SP => "SP",
            Reg::BP => "BP",
            Reg::SI => "SI",
            Reg::DI => "DI",
            Reg::PC => "PC",
            Reg::FLAGS => "FLAGS",
        }
    }
}

/// Every register's number decodes back to that register.
pub proof fn law_register_number_roundtrip(r: Reg)
    ensures
        r.number() < 14,
        Reg::from_number(r.number() as u32) == Some(r),
{
}

/// The state of all CPU registers.
#[derive(Debug, Clone, Copy)]
pub struct Registers {
    /// Accumulator register.
    pub ax: u32,
    /// Base register.
    pub bx: u32,
    /// Counter register.
    pub cx: u32,
    /// Data register.
    pub dx: u32,
    /// Extended general-purpose register.
    pub ex: u32,
    /// Extended general-purpose register.
    pub fx: u32,
    /// Extended general-purpose register.
    pub gx: u32,
    /// Extended general-purpose register.
    pub hx: u32,
    /// Stack Pointer.
    pub sp: u32,
    /// Base Pointer.
    pub bp: u32,
    /// Source Index register.
    pub si: u32,
    /// Destination Index register.
    pub di: u32,
    /// Program Counter.
    pub pc: u32,
    /// Flags register; each flag is one bit.
    pub flags: u32,
}

/// Bit of the carry flag in `FLAGS`.
pub const CARRY_BIT: u32 = 0;
/// Bit of the zero flag in `FLAGS`.
pub const ZERO_BIT: u32 = 6;
/// Bit of the sign flag in `FLAGS`.
pub const SIGN_BIT: u32 = 7;
/// Bit of the interrupt flag in `FLAGS`.
pub const INTERRUPT_BIT: u32 = 9;
/// Bit of the string flag in `FLAGS`.
pub const STRING_BIT: u32 = 10;
/// Bit of the overflow flag in `FLAGS`.
pub const OVERFLOW_BIT: u32 = 11;
/// Bit of the macro flag in `FLAGS`.
pub const MACRO_BIT: u32 = 12;
/// Bit of the stack-direction flag in `FLAGS`.
pub const STACK_DIR_BIT: u32 = 13;

/// The bit in `FLAGS` that a flag name selects, ignoring case.
pub open spec fn flag_bit(name: Seq<char>) -> Option<u32> {
    if lowercase_is(name, "carry"@) {
        Some(CARRY_BIT)
    } else if lowercase_is(name, "zero"@) {
        Some(ZERO_BIT)
    } else if lowercase_is(name, "sign"@) {
        Some(SIGN_BIT)
    } else if lowercase_is(name, "interrupt"@) {
        Some(INTERRUPT_BIT)
    } else if lowercase_is(name, "string"@) {
        Some(STRING_BIT)
    } else if lowercase_is(name, "overflow"@) {
        Some(OVERFLOW_BIT)
    } else if lowercase_is(name, "macro"@) {
        Some(MACRO_BIT)
    } else if lowercase_is(name, "stack_dir"@) {
        Some(STACK_DIR_BIT)
    } else {
        None
    }
}

/// `flags` with bit `bit` set to `value`.
pub open spec fn with_bit(flags: u32, bit: u32, value: bool) -> u32 {
    if value {
        flags | (1u32 << bit)
    } else {
        flags & !(1u32 << bit)
    }
}

/// Whether bit `bit` of `flags` is set.
pub open spec fn bit_set(flags: u32, bit: u32) -> bool {
    (flags & (1u32 << bit)) != 0
}

/// Whether a 32-bit pattern is negative read as a signed number.
pub open spec fn negative32(x: u32) -> bool {
    x >= 0x8000_0000
}

/// Whether a 32-bit pattern is positive (above zero) read as a signed number.
pub open spec fn positive32(x: u32) -> bool {
    0 < x && x < 0x8000_0000
}

/// The flags after an integer operation with the given result and operands.
pub open spec fn flags_after_u32(flags: u32, result: u32, op1: u32, op2: u32, is_subtraction: bool) -> u32 {
    let f1 = with_bit(flags, ZERO_BIT, result == 0);
    let f2 = with_bit(f1, SIGN_BIT, negative32(result));
    let f3 = with_bit(f2, CARRY_BIT, if is_subtraction { op1 < op2 } else { result < op1 });
    let ovf = if is_subtraction {
        (negative32(op1) && positive32(op2) && positive32(result)) || (positive32(op1)
            && negative32(op2) && negative32(result))
    } else {
        (positive32(op1) && positive32(op2) && negative32(result)) || (negative32(op1)
            && negative32(op2) && positive32(result))
    };
    with_bit(f3, OVERFLOW_BIT, ovf)
}

/// Whether the 32-bit pattern of an IEEE single is zero (`+0.0` or `-0.0`).
pub open spec fn float_bits_zero(bits: u32) -> bool {
    bits & 0x7FFF_FFFF == 0
}

/// Whether the 32-bit pattern of an IEEE single has its sign bit set.
pub open spec fn float_bits_negative(bits: u32) -> bool {
    bits >= 0x8000_0000
}

/// The flags after a floating-point operation whose result has the given bits.
pub open spec fn flags_after_f32(flags: u32, bits: u32) -> u32 {
    let f1 = with_bit(flags, ZERO_BIT, float_bits_zero(bits));
    let f2 = with_bit(f1, SIGN_BIT, float_bits_negative(bits));
    let f3 = with_bit(f2, CARRY_BIT, false);
    with_bit(f3, OVERFLOW_BIT, false)
}

impl Registers {
    /// The value held in a register.
    pub open spec fn value(self, reg: Reg) -> u32 {
        match reg {
            Reg::AX => self.ax,
            Reg::BX => self.bx,
            Reg::CX => self.cx,
            Reg::DX => self.dx,
            Reg::EX => self.ex,
            Reg::FX => self.fx,
            Reg::GX => self.gx,
            Reg::HX => self.hx,
            Reg::SP => self.sp,
            Reg::BP => self.bp,
            Reg::SI => self.si,
            Reg::DI => self.di,
            Reg::PC => self.pc,
            Reg::FLAGS => self.flags,
        }
    }

    /// These registers with `reg` holding `value`.
    pub open spec fn with_value(self, reg: Reg, value: u32) -> Registers {
        match reg {
            Reg::AX => Registers { ax: value, ..self },
            Reg::BX => Registers { bx: value, ..self },
            Reg::CX => Registers { cx: value, ..self },
            Reg::DX => Registers { dx: value, ..self },
            Reg::EX => Registers { ex: value, ..self },
            Reg::FX => Registers { fx: value, ..self },
            Reg::GX => Registers { gx: value, ..self },
            Reg::HX => Registers { hx: value, ..self },
            Reg::SP => Registers { sp: value, ..self },
            Reg::BP => Registers { bp: value, ..self },
            Reg::SI => Registers { si: value, ..self },
            Reg::DI => Registers { di: value, ..self },
            Reg::PC => Registers { pc: value, ..self },
            Reg::FLAGS => Registers { flags: value, ..self },
        }
    }

    /// These registers with `FLAGS` holding `flags`.
    pub open spec fn with_flags(self, flags: u32) -> Registers {
        Registers { flags: flags, ..self }
    }

    /// Whether every register holds zero.
    pub open spec fn all_zero(self) -> bool {
        forall|r: Reg| #[trigger] self.value(r) == 0
    }

    /// Whether the flag at `bit` is set.
    pub open spec fn flag(self, bit: u32) -> bool {
        bit_set(self.flags, bit)
    }

    /// Creates a register file with every register at 0.
    pub fn new() -> (r: Self)
        ensures
            r.all_zero(),
    {
        Self {
            ax: 0,
            bx: 0,
            cx: 0,
            dx: 0,
            ex: 0,
            fx: 0,
            gx: 0,
            hx: 0,
            sp: 0,
            bp: 0,
            si: 0,
            di: 0,
            pc: 0,
            flags: 0,
        }
    }

    /// Sets every register back to 0.
    pub fn reset(&mut self)
        ensures
            final(self).all_zero(),
    {
        *self = Self::new();
    }

    /// The value of a register; this never fails.
    pub fn get(&self, reg: &Reg) -> (r: Result<u32, String>)
        ensures
            r == Ok::<u32, String>(self.value(*reg)),
    {
        match reg {
            Reg::AX => Ok(self.ax),
            Reg::BX => Ok(self.bx),
            Reg::CX => Ok(self.cx),
            Reg::DX => Ok(self.dx),
            Reg::EX => Ok(self.ex),
            Reg::FX => Ok(self.fx),
            Reg::GX => Ok(self.gx),
            Reg::HX => Ok(self.hx),
            Reg::SP => Ok(self.sp),
            Reg::BP => Ok(self.bp),
            Reg::SI => Ok(self.si),
            Reg::DI => Ok(self.di),
            Reg::PC => Ok(self.pc),
            Reg::FLAGS => Ok(self.flags),
        }
    }

    /// The value of a register.
    pub fn read(&self, reg: Reg) -> (r: u32)
        ensures
            r == self.value(reg),
    {
        match reg {
            Reg::AX => self.ax,
            Reg::BX => self.bx,
            Reg::CX => self.cx,
            Reg::DX => self.dx,
            Reg::EX => self.ex,
            Reg::FX => self.fx,
            Reg::GX => self.gx,
            Reg::HX => self.hx,
            Reg::SP => self.sp,
            Reg::BP => self.bp,
            Reg::SI => self.si,
            Reg::DI => self.di,
            Reg::PC => self.pc,
            Reg::FLAGS => self.flags,
        }
    }

    /// Stores `value` in a register.
    pub fn write(&mut self, reg: Reg, value: u32)
        ensures
            *final(self) == old(self).with_value(reg, value),
    {
        match reg {
            Reg::AX => self.ax = value,
            Reg::BX => self.bx = value,
            Reg::CX => self.cx = value,
            Reg::DX => self.dx = value,
            Reg::EX => self.ex = value,
            Reg::FX => self.fx = value,
            Reg::GX => self.gx = value,
            Reg::HX => self.hx = value,
            Reg::SP => self.sp = value,
            Reg::BP => self.bp = value,
            Reg::SI => self.si = value,
            Reg::DI => self.di = value,
            Reg::PC => self.pc = value,
            Reg::FLAGS => self.flags = value,
        }
    }

    /// Stores `value` in a register; this never fails.
    pub fn set(&mut self, reg: &Reg, value: u32) -> (r: Result<(), String>)
        ensures
            *final(self) == old(self).with_value(*reg, value),
            r == Ok::<(), String>(()),
    {
        self.write(*reg, value);
        Ok(())
    }

    /// Sets or clears the flag at `bit`.
    pub fn set_flag_bit(&mut self, bit: u32, value: bool)
        requires
            bit < 32,
        ensures
            *final(self) == old(self).with_flags(with_bit(old(self).flags, bit, value)),
    {
        if value {
            self.flags = self.flags | (1u32 << bit);
        } else {
            self.flags = self.flags & !(1u32 << bit);
        }
    }

    /// Whether the flag at `bit` is set.
    pub fn flag_bit_set(&self, bit: u32) -> (r: bool)
        requires
            bit < 32,
        ensures
            r == self.flag(bit),
    {
        (self.flags & (1u32 << bit)) != 0
    }

    /// Updates the zero, sign, carry and overflow flags after an integer
    /// operation.
    pub fn update_flags_u32(&mut self, result: u32, op1: u32, op2: u32, is_subtraction: bool)
        ensures
            *final(self) == old(self).with_flags(
                flags_after_u32(old(self).flags, result, op1, op2, is_subtraction),
            ),
    {
        self.set_flag_bit(ZERO_BIT, result == 0);
        self.set_flag_bit(SIGN_BIT, result >= 0x8000_0000);
        if is_subtraction {
            self.set_flag_bit(CARRY_BIT, op1 < op2);
        } else {
            self.set_flag_bit(CARRY_BIT, result < op1);
        }
        let neg1 = op1 >= 0x8000_0000;
        let pos1 = 0 < op1 && op1 < 0x8000_0000;
        let neg2 = op2 >= 0x8000_0000;
        let pos2 = 0 < op2 && op2 < 0x8000_0000;
        let negr = result >= 0x8000_0000;
        let posr = 0 < result && result < 0x8000_0000;
        if is_subtraction {
            self.set_flag_bit(OVERFLOW_BIT, (neg1 && pos2 && posr) || (pos1 && neg2 && negr));
        } else {
            self.set_flag_bit(OVERFLOW_BIT, (pos1 && pos2 && negr) || (neg1 && neg2 && posr));
        }
    }

    /// Updates the flags after a floating-point operation, given the bit
    /// pattern of its result: zero when the result is `+0.0` or `-0.0`, sign
    /// from the sign bit, carry and overflow cleared.
    pub fn update_flags_f32(&mut self, result_bits: u32)
        ensures
            *final(self) == old(self).with_flags(flags_after_f32(old(self).flags, result_bits)),
    {
        self.set_flag_bit(ZERO_BIT, result_bits & 0x7FFF_FFFF == 0);
        self.set_flag_bit(SIGN_BIT, result_bits >= 0x8000_0000);
        self.set_flag_bit(CARRY_BIT, false);
        self.set_flag_bit(OVERFLOW_BIT, false);
    }

    /// Sets a flag by name (ignoring case); an unknown name changes nothing.
    pub fn set_flag(&mut self, flag_name: &str, value: bool)
        ensures
            *final(self) == match flag_bit(flag_name@) {
                Some(bit) => old(self).with_flags(with_bit(old(self).flags, bit, value)),
                None => *old(self),
            },
    {
        match flag_bit_of(flag_name) {
            Some(bit) => self.set_flag_bit(bit, value),
            None => {},
        }
    }

    /// The value of a flag by name (ignoring case), or an error for an
    /// unknown name.
    pub fn get_flag(&self, flag_name: &str) -> (r: Result<bool, String>)
        ensures
            match flag_bit(flag_name@) {
                Some(bit) => r == Ok::<bool, String>(self.flag(bit)),
                None => r matches Err(e) && e@ == "Unknown flag: "@ + flag_name@,
            },
    {
        match flag_bit_of(flag_name) {
            Some(bit) => Ok(self.flag_bit_set(bit)),
            None => {
                let mut e = string_from_str("Unknown flag: ");
                push_str(&mut e, flag_name);
                Err(e)
            },
        }
    }
}

impl Default for Registers {
    /// Every register at 0.
    fn default() -> (r: Self)
        ensures
            r.all_zero(),
    {
        Self::new()
    }
}

/// The bit of a flag name (ignoring case).
pub fn flag_bit_of(flag_name: &str) -> (r: Option<u32>)
    ensures
        r == flag_bit(flag_name@),
        r matches Some(b) ==> b < 32,
{
    let name = chars_of(flag_name);
    let n = name.as_slice();
    if lowercase_equals(n, "carry") {
        Some(CARRY_BIT)
    } else if lowercase_equals(n, "zero") {
        Some(ZERO_BIT)
    } else if lowercase_equals(n, "sign") {
        Some(SIGN_BIT)
    } else if lowercase_equals(n, "interrupt") {
        Some(INTERRUPT_BIT)
    } else if lowercase_equals(n, "string") {
        Some(STRING_BIT)
    } else if lowercase_equals(n, "overflow") {
        Some(OVERFLOW_BIT)
    } else if lowercase_equals(n, "macro") {
        Some(MACRO_BIT)
    } else if lowercase_equals(n, "stack_dir") {
        Some(STACK_DIR_BIT)
    } else {
        None
    }
}

/// Reading a register gives back the value last stored in it, and storing
/// into one register leaves every other register as it was.
pub proof fn law_register_read_after_write(regs: Registers, reg: Reg, other: Reg, value: u32)
    ensures
        regs.with_value(reg, value).value(reg) == value,
        other != reg ==> regs.with_value(reg, value).value(other) == regs.value(other),
{
}

/// Setting a flag bit and reading it back gives the value set; the other
/// flag bits are untouched.
pub proof fn law_flag_read_after_write(flags: u32, bit: u32, other: u32, value: bool)
    requires
        bit < 32,
        other < 32,
    ensures
        bit_set(with_bit(flags, bit, value), bit) == value,
        other != bit ==> bit_set(with_bit(flags, bit, value), other) == bit_set(flags, other),
{
    if value {
        assert(((flags | (1u32 << bit)) & (1u32 << bit)) != 0) by (bit_vector)
            requires
                bit < 32,
        ;
        assert(other != bit ==> (((flags | (1u32 << bit)) & (1u32 << other)) != 0) == ((flags & (
        1u32 << other)) != 0)) by (bit_vector)
            requires
                bit < 32,
                other < 32,
        ;
    } else {
        assert(((flags & !(1u32 << bit)) & (1u32 << bit)) == 0) by (bit_vector)
            requires
                bit < 32,
        ;
        assert(other != bit ==> (((flags & !(1u32 << bit)) & (1u32 << other)) != 0) == ((flags & (
        1u32 << other)) != 0)) by (bit_vector)
            requires
                bit < 32,
                other < 32,
        ;
    }
}

} // verus!
