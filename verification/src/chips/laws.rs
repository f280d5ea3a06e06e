//! Laws of the CPU and the assembler together: what the assembler encodes
//! the CPU decodes, and the stack instructions undo each other.

use vstd::prelude::*;
use crate::text::{lower_char, lowercase_is};
use crate::chips::cpu::{
    decode, execution, fetched, opcode_of, step_done, stepped, Output, OutputView, CPU,
};
use crate::instructions::compare::{call_spec, ret_spec};
use crate::instructions::moves::{pop_spec, push_spec, stack_grows_up};
use crate::instructions::aritmethic::{addw_spec, dec_spec, inc_spec, mul_spec, neg_spec, subw_spec};
use crate::instructions::compare::cmpw_spec;
use crate::instructions::{
    add4, fpu_value, machine, read_word, sub4, with_reg, write_word, FloatOp, Machine, FLOAT_ONE,
};
use crate::memory::main_memory::{law_read32_after_write32, u32_bytes, write_bytes, WorkMemory};
use crate::memory::registers::{
    bit_set, flags_after_f32, law_flag_read_after_write, with_bit, Reg, Registers, CARRY_BIT,
    OVERFLOW_BIT, SIGN_BIT, STACK_DIR_BIT, ZERO_BIT,
};
use crate::utils::assembler::encoder::{
    addr_imm_word, addr_reg_or_addr_imm_word, addr_word, flag_op_word, indirect24,
    instruction_word, label_value, reg_addr_word, reg_imm_word, reg_reg_or_reg_imm_word,
    reg_reg_word, reg_word,
};
use crate::instructions::control::flag_spec;
use crate::memory::registers::flag_bit;
use crate::utils::assembler::operands::{flag_operand_id, OperandView};

verus! {

/// A register and a 16-bit immediate (`MOVI`, `LODI`) decode to the same
/// register and immediate.
pub proof fn law_reg_imm_roundtrip(opcode: u32, r: Reg, i: u32, syms: Seq<(Seq<char>, u32)>)
    requires
        opcode == 0x01 || opcode == 0x03,
        i <= 0xFFFF,
    ensures
        reg_imm_word(opcode, Some(OperandView::Register(r)), Some(OperandView::Immediate(i)), syms) matches Ok(w)
            && opcode_of(w) == opcode && decode(w) == Ok::<(OperandView, OperandView), Seq<char>>(
            (OperandView::Register(r), OperandView::Immediate(i)),
        ),
{
    let n = r.number() as u32;
    let w = (opcode << 24u32) | (n << 16u32) | (i & 0xFFFF);
    assert(((w >> 24u32) as u8) as u32 == opcode && ((w >> 16u32) & 0xFF) == n && w & 0xFFFF == i)
        by (bit_vector)
        requires
            w == (opcode << 24u32) | (n << 16u32) | (i & 0xFFFF),
            opcode <= 0xFF,
            n < 14,
            i <= 0xFFFF,
    ;
}

/// Two registers (`MOVW`, `ADDW`, `AND`, ... in register form) decode to
/// the same two registers.
pub proof fn law_reg_reg_roundtrip(opcode: u32, r1: Reg, r2: Reg)
    requires
        opcode == 0x02 || opcode == 0x10 || opcode == 0x11 || opcode == 0x12 || opcode == 0x21
            || opcode == 0x22 || opcode == 0x23 || opcode == 0x24 || opcode == 0x25 || opcode
            == 0x30,
    ensures
        reg_reg_or_reg_imm_word(opcode, Some(OperandView::Register(r1)), Some(OperandView::Register(r2))) matches Ok(w)
            && opcode_of(w) == opcode && decode(w) == Ok::<(OperandView, OperandView), Seq<char>>(
            (OperandView::Register(r1), OperandView::Register(r2)),
        ),
{
    let n1 = r1.number() as u32;
    let n2 = r2.number() as u32;
    let w = (opcode << 24u32) | (n1 << 16u32) | (n2 << 8u32) | 1u32;
    assert(((w >> 24u32) as u8) as u32 == opcode && ((w >> 16u32) & 0xFF) == n1 && ((w >> 8u32)
        & 0xFF) == n2 && w & 1 == 1) by (bit_vector)
        requires
            w == (opcode << 24u32) | (n1 << 16u32) | (n2 << 8u32) | 1u32,
            opcode <= 0xFF,
            n1 < 14,
            n2 < 14,
    ;
}

/// A register and an even 16-bit immediate decode to the same register and
/// immediate. (An odd immediate sets bit 0, which the CPU reads as a second
/// register.)
pub proof fn law_reg_even_imm_roundtrip(opcode: u32, r: Reg, i: u32)
    requires
        opcode == 0x02 || opcode == 0x10 || opcode == 0x11 || opcode == 0x12 || opcode == 0x21
            || opcode == 0x22 || opcode == 0x23 || opcode == 0x24 || opcode == 0x25 || opcode
            == 0x30,
        i <= 0xFFFF,
        i % 2 == 0,
    ensures
        reg_reg_or_reg_imm_word(opcode, Some(OperandView::Register(r)), Some(OperandView::Immediate(i))) matches Ok(w)
            && opcode_of(w) == opcode && decode(w) == Ok::<(OperandView, OperandView), Seq<char>>(
            (OperandView::Register(r), OperandView::Immediate(i)),
        ),
{
    let n = r.number() as u32;
    let w = (opcode << 24u32) | (n << 16u32) | (i & 0xFFFF);
    assert(((w >> 24u32) as u8) as u32 == opcode && ((w >> 16u32) & 0xFF) == n && w & 0xFFFF == i
        && w & 1 == 0) by (bit_vector)
        requires
            w == (opcode << 24u32) | (n << 16u32) | (i & 0xFFFF),
            opcode <= 0xFF,
            n < 14,
            i <= 0xFFFF,
            i % 2 == 0,
    ;
}

/// A single register (`POP`, `INC`, `DEC`, `NEG`, `NOT`) decodes to the same
/// register.
pub proof fn law_reg_roundtrip(opcode: u32, r: Reg)
    requires
        opcode == 0x08 || opcode == 0x13 || opcode == 0x14 || opcode == 0x15 || opcode == 0x20,
    ensures
        reg_word(opcode, Some(OperandView::Register(r))) matches Ok(w) && opcode_of(w) == opcode
            && decode(w) == Ok::<(OperandView, OperandView), Seq<char>>(
            (OperandView::Register(r), OperandView::Empty),
        ),
{
    let n = r.number() as u32;
    let w = (opcode << 24u32) | (n << 16u32);
    assert(((w >> 24u32) as u8) as u32 == opcode && ((w >> 16u32) & 0xFF) == n) by (bit_vector)
        requires
            w == (opcode << 24u32) | (n << 16u32),
            opcode <= 0xFF,
            n < 14,
    ;
}

/// Two registers exchanged (`XCGH`) decode to the same two registers.
pub proof fn law_xcgh_roundtrip(r1: Reg, r2: Reg)
    ensures
        reg_reg_word(0x09, Some(OperandView::Register(r1)), Some(OperandView::Register(r2))) matches Ok(w)
            && opcode_of(w) == 0x09 && decode(w) == Ok::<(OperandView, OperandView), Seq<char>>(
            (OperandView::Register(r1), OperandView::Register(r2)),
        ),
{
    let n1 = r1.number() as u32;
    let n2 = r2.number() as u32;
    let w = (0x09u32 << 24u32) | (n1 << 16u32) | (n2 << 8u32);
    assert(((w >> 24u32) as u8) as u32 == 0x09 && ((w >> 16u32) & 0xFF) == n1 && ((w >> 8u32)
        & 0xFF) == n2) by (bit_vector)
        requires
            w == (0x09u32 << 24u32) | (n1 << 16u32) | (n2 << 8u32),
            n1 < 14,
            n2 < 14,
    ;
}

/// A register and a 16-bit address (`LODW`) decode to the same register and
/// the whole address, so the CPU loads from the address that was written;
/// a label stands for its value.
pub proof fn law_reg_addr_roundtrip(r: Reg, a: u32, l: Seq<char>, syms: Seq<(Seq<char>, u32)>)
    requires
        a <= 0xFFFF,
    ensures
        reg_addr_word(0x04, Some(OperandView::Register(r)), Some(OperandView::Address(a)), syms) matches Ok(w)
            && opcode_of(w) == 0x04 && decode(w) == Ok::<(OperandView, OperandView), Seq<char>>(
            (OperandView::Register(r), OperandView::Address(a)),
        ),
        instruction_word("lodw"@, Some(OperandView::Register(r)), Some(OperandView::Address(a)), syms)
            == reg_addr_word(0x04, Some(OperandView::Register(r)), Some(OperandView::Address(a)), syms),
        label_value(syms, l) == Ok::<u32, Seq<char>>(a) ==> (reg_addr_word(
            0x04,
            Some(OperandView::Register(r)),
            Some(OperandView::Label(l)),
            syms,
        ) matches Ok(w) && decode(w) == Ok::<(OperandView, OperandView), Seq<char>>(
            (OperandView::Register(r), OperandView::Address(a)),
        )),
{
    reveal_strlit("movi");
    reveal_strlit("movw");
    reveal_strlit("lodi");
    reveal_strlit("lodw");
    assert("lodw"@[0] != "movi"@[0] && "lodw"@[0] != "movw"@[0] && "lodw"@[3] != "lodi"@[3]);
    let n = r.number() as u32;
    let w = (0x04u32 << 24u32) | (n << 16u32) | (a & 0xFFFF);
    assert(((w >> 24u32) as u8) as u32 == 0x04 && ((w >> 16u32) & 0xFF) == n && w & 0xFFFF == a)
        by (bit_vector)
        requires
            w == (0x04u32 << 24u32) | (n << 16u32) | (a & 0xFFFF),
            n < 14,
            a <= 0xFFFF,
    ;
}

/// A 7-bit address and a 16-bit immediate (`STRI`, `INSW`) decode to the
/// same address and immediate.
pub proof fn law_addr_imm_roundtrip(opcode: u32, a: u32, i: u32, syms: Seq<(Seq<char>, u32)>)
    requires
        opcode == 0x05 || opcode == 0x54,
        a < 0x80,
        i <= 0xFFFF,
    ensures
        addr_imm_word(opcode, Some(OperandView::Address(a)), Some(OperandView::Immediate(i)), syms) matches Ok(w)
            && opcode_of(w) == opcode && decode(w) == Ok::<(OperandView, OperandView), Seq<char>>(
            (OperandView::Address(a), OperandView::Immediate(i)),
        ),
{
    let b = ((a & 0x7F) as u8) as u32;
    assert(b == a) by (bit_vector)
        requires
            b == ((a & 0x7F) as u8) as u32,
            a < 0x80,
    ;
    let w = (opcode << 24u32) | (b << 16u32) | (i & 0xFFFF);
    assert(((w >> 24u32) as u8) as u32 == opcode && ((w >> 16u32) & 0xFF) == a && (((w >> 16u32)
        & 0xFF) >> 7u32) & 1 == 0 && ((w >> 16u32) & 0xFF) & 0x7F == a && w & 0xFFFF == i)
        by (bit_vector)
        requires
            w == (opcode << 24u32) | (b << 16u32) | (i & 0xFFFF),
            b == a,
            opcode <= 0xFF,
            a < 0x80,
            i <= 0xFFFF,
    ;
}

/// A 7-bit address and a register (`STRW`, `OUTW`) decode to the same
/// address and register.
pub proof fn law_addr_reg_roundtrip(opcode: u32, a: u32, r: Reg, syms: Seq<(Seq<char>, u32)>)
    requires
        opcode == 0x06 || opcode == 0x55,
        a < 0x80,
    ensures
        addr_reg_or_addr_imm_word(opcode, Some(OperandView::Address(a)), Some(OperandView::Register(r)), syms) matches Ok(w)
            && opcode_of(w) == opcode && decode(w) == Ok::<(OperandView, OperandView), Seq<char>>(
            (OperandView::Address(a), OperandView::Register(r)),
        ),
{
    let b = ((a & 0x7F) as u8) as u32;
    assert(b == a) by (bit_vector)
        requires
            b == ((a & 0x7F) as u8) as u32,
            a < 0x80,
    ;
    let n = r.number() as u32;
    let w = (opcode << 24u32) | (b << 16u32) | (n << 8u32) | 1u32;
    assert(((w >> 24u32) as u8) as u32 == opcode && ((w >> 16u32) & 0xFF) == a && (((w >> 16u32)
        & 0xFF) >> 7u32) & 1 == 0 && ((w >> 16u32) & 0xFF) & 0x7F == a && w & 1 == 1 && ((w
        >> 8u32) & 0xFF) == n) by (bit_vector)
        requires
            w == (opcode << 24u32) | (b << 16u32) | (n << 8u32) | 1u32,
            b == a,
            opcode <= 0xFF,
            a < 0x80,
            n < 14,
    ;
}

/// Whether an opcode takes a 24-bit address: the jumps, `CALL`, `IN`,
/// `OUT` and `INSI`.
pub open spec fn takes_address(opcode: u32) -> bool {
    opcode == 0x40 || opcode == 0x41 || (0x43 <= opcode && opcode <= 0x4A) || opcode == 0x50
        || opcode == 0x51 || opcode == 0x52
}

/// An address below 2^23 (bit 23 marks a register to read) decodes to the
/// same address.
pub proof fn law_address_roundtrip(opcode: u32, a: u32, syms: Seq<(Seq<char>, u32)>)
    requires
        takes_address(opcode),
        a < 0x80_0000,
    ensures
        addr_word(opcode, Some(OperandView::Address(a)), syms) matches Ok(w) && opcode_of(w)
            == opcode && decode(w) == Ok::<(OperandView, OperandView), Seq<char>>(
            (OperandView::Address(a), OperandView::Empty),
        ),
{
    let w = (opcode << 24u32) | (a & 0xFFFFFF);
    assert(((w >> 24u32) as u8) as u32 == opcode && ((w & 0xFFFFFF) >> 23u32) & 1 == 0 && (w
        & 0xFFFFFF) & 0xFFFFFF == a) by (bit_vector)
        requires
            w == (opcode << 24u32) | (a & 0xFFFFFF),
            opcode <= 0xFF,
            a < 0x80_0000,
    ;
}

/// A register to read the address from decodes to the same register.
pub proof fn law_address_register_roundtrip(opcode: u32, r: Reg, syms: Seq<(Seq<char>, u32)>)
    requires
        takes_address(opcode),
    ensures
        addr_word(opcode, Some(OperandView::AddressRegister(r)), syms) matches Ok(w) && opcode_of(
            w,
        ) == opcode && decode(w) == Ok::<(OperandView, OperandView), Seq<char>>(
            (OperandView::AddressRegister(r), OperandView::Empty),
        ),
{
    let n = r.number() as u32;
    let f = indirect24(r);
    let w = (opcode << 24u32) | (f & 0xFFFFFF);
    assert(((w >> 24u32) as u8) as u32 == opcode && ((w & 0xFFFFFF) >> 23u32) & 1 == 1 && (((w
        & 0xFFFFFF) >> 19u32) & 0xF) == n) by (bit_vector)
        requires
            w == (opcode << 24u32) | (f & 0xFFFFFF),
            f == (1u32 << 23u32) | (n << 19u32),
            opcode <= 0xFF,
            n < 14,
    ;
}

/// A flag (`SETF`, `CLRF`) decodes to the same flag.
pub proof fn law_flag_roundtrip(opcode: u32, id: u8)
    requires
        opcode == 0x60 || opcode == 0x61,
    ensures
        flag_op_word(opcode, Some(OperandView::Flag(id))) matches Ok(w) && opcode_of(w) == opcode
            && decode(w) == Ok::<(OperandView, OperandView), Seq<char>>(
            (OperandView::Flag(id), OperandView::Empty),
        ),
{
    let i = id as u32;
    let w = (opcode << 24u32) | i;
    assert(((w >> 24u32) as u8) as u32 == opcode && ((w & 0xFF) as u8) as u32 == i) by (bit_vector)
        requires
            w == (opcode << 24u32) | i,
            opcode <= 0xFF,
            i <= 0xFF,
    ;
}

/// A word with an address-taking opcode and an address below 2^23 decodes
/// to that address.
proof fn lemma_address_word(opcode: u32, a: u32)
    requires
        takes_address(opcode),
        a < 0x80_0000,
    ensures
        opcode_of((opcode << 24u32) | a) == opcode,
        decode((opcode << 24u32) | a) == Ok::<(OperandView, OperandView), Seq<char>>(
            (OperandView::Address(a), OperandView::Empty),
        ),
{
    let w = (opcode << 24u32) | a;
    assert(((w >> 24u32) as u8) as u32 == opcode && ((w & 0xFFFFFF) >> 23u32) & 1 == 0 && (w
        & 0xFFFFFF) & 0xFFFFFF == a) by (bit_vector)
        requires
            w == (opcode << 24u32) | a,
            opcode <= 0xFF,
            a < 0x80_0000,
    ;
}

/// A jump to `a`, taken when `taken` holds: the program counter at `a`, or
/// the machine unchanged; nothing written, nothing shown.
pub open spec fn jumped(m: Machine, a: u32, taken: bool) -> Result<(Machine, Option<OutputView>), Seq<char>> {
    if taken {
        Ok((with_reg(m, Reg::PC, a), None))
    } else {
        Ok((m, None))
    }
}

/// Each jump word to an address goes there exactly when its condition on
/// the flags holds, and otherwise leaves the machine as it is: `JMP`
/// always, `JE` on zero, `JNE` on no zero, `JGT` on neither zero nor sign,
/// `JGE` on no sign, `JLT` on sign without zero, `JLE` on zero or sign,
/// `JS` on sign, `JCO` on carry or overflow.
pub proof fn law_jumps_follow_flags<F: Fn(FloatOp, u32, u32) -> u32>(m: Machine, a: u32, fpu: F)
    requires
        a < 0x80_0000,
    ensures
        execution(m, (0x40u32 << 24u32) | a, fpu) == jumped(m, a, true),
        execution(m, (0x43u32 << 24u32) | a, fpu) == jumped(m, a, m.regs.flag(ZERO_BIT)),
        execution(m, (0x44u32 << 24u32) | a, fpu) == jumped(m, a, !m.regs.flag(ZERO_BIT)),
        execution(m, (0x45u32 << 24u32) | a, fpu) == jumped(
            m,
            a,
            !m.regs.flag(ZERO_BIT) && !m.regs.flag(SIGN_BIT),
        ),
        execution(m, (0x46u32 << 24u32) | a, fpu) == jumped(m, a, !m.regs.flag(SIGN_BIT)),
        execution(m, (0x47u32 << 24u32) | a, fpu) == jumped(
            m,
            a,
            !m.regs.flag(ZERO_BIT) && m.regs.flag(SIGN_BIT),
        ),
        execution(m, (0x48u32 << 24u32) | a, fpu) == jumped(
            m,
            a,
            m.regs.flag(ZERO_BIT) || m.regs.flag(SIGN_BIT),
        ),
        execution(m, (0x49u32 << 24u32) | a, fpu) == jumped(m, a, m.regs.flag(SIGN_BIT)),
        execution(m, (0x4Au32 << 24u32) | a, fpu) == jumped(
            m,
            a,
            m.regs.flag(CARRY_BIT) || m.regs.flag(OVERFLOW_BIT),
        ),
{
    reveal(execution);
    lemma_address_word(0x40, a);
    lemma_address_word(0x43, a);
    lemma_address_word(0x44, a);
    lemma_address_word(0x45, a);
    lemma_address_word(0x46, a);
    lemma_address_word(0x47, a);
    lemma_address_word(0x48, a);
    lemma_address_word(0x49, a);
    lemma_address_word(0x4A, a);
}

/// Whether `n` holds the float result `res` in register `r` (unless `r` is
/// `FLAGS` itself) with the flags read off `res`: zero set exactly when
/// `res` is `+0.0` or `-0.0`, sign set exactly when its sign bit is set,
/// carry and overflow clear.
pub open spec fn float_result_in(n: Machine, r: Reg, res: u32) -> bool {
    &&& n.regs.flag(ZERO_BIT) == (res & 0x7FFF_FFFF == 0)
    &&& n.regs.flag(SIGN_BIT) == (res >= 0x8000_0000)
    &&& !n.regs.flag(CARRY_BIT)
    &&& !n.regs.flag(OVERFLOW_BIT)
    &&& r != Reg::FLAGS ==> n.regs.value(r) == res
}

/// The flag bits after a float result, read one by one.
proof fn lemma_flags_after_f32(flags: u32, res: u32)
    ensures
        bit_set(flags_after_f32(flags, res), ZERO_BIT) == (res & 0x7FFF_FFFF == 0),
        bit_set(flags_after_f32(flags, res), SIGN_BIT) == (res >= 0x8000_0000),
        !bit_set(flags_after_f32(flags, res), CARRY_BIT),
        !bit_set(flags_after_f32(flags, res), OVERFLOW_BIT),
{
    let f1 = with_bit(flags, ZERO_BIT, res & 0x7FFF_FFFF == 0);
    let f2 = with_bit(f1, SIGN_BIT, res >= 0x8000_0000);
    let f3 = with_bit(f2, CARRY_BIT, false);
    let f4 = with_bit(f3, OVERFLOW_BIT, false);
    assert(f4 == flags_after_f32(flags, res));
    law_flag_read_after_write(flags, ZERO_BIT, ZERO_BIT, res & 0x7FFF_FFFF == 0);
    law_flag_read_after_write(f1, SIGN_BIT, ZERO_BIT, res >= 0x8000_0000);
    law_flag_read_after_write(f1, SIGN_BIT, SIGN_BIT, res >= 0x8000_0000);
    law_flag_read_after_write(f2, CARRY_BIT, ZERO_BIT, false);
    law_flag_read_after_write(f2, CARRY_BIT, SIGN_BIT, false);
    law_flag_read_after_write(f2, CARRY_BIT, CARRY_BIT, false);
    law_flag_read_after_write(f3, OVERFLOW_BIT, ZERO_BIT, false);
    law_flag_read_after_write(f3, OVERFLOW_BIT, SIGN_BIT, false);
    law_flag_read_after_write(f3, OVERFLOW_BIT, CARRY_BIT, false);
    law_flag_read_after_write(f3, OVERFLOW_BIT, OVERFLOW_BIT, false);
}

/// `INC`, `DEC` and `NEG` of a register store the float unit's answer
/// (the value plus 1.0, minus 1.0, negated) in the register and set the
/// flags from it: zero exactly on `+0.0` or `-0.0`, sign exactly on a set
/// sign bit, carry and overflow clear. So a `DEC` that reaches 0.0 sets
/// zero, and a following `JNE` falls through.
pub proof fn law_unary_float_flags<F: Fn(FloatOp, u32, u32) -> u32>(m: Machine, r: Reg, fpu: F)
    ensures
        inc_spec(m, OperandView::Register(r), fpu) matches Ok((n, _)) && float_result_in(
            n,
            r,
            fpu_value(fpu, FloatOp::Add, m.regs.value(r), FLOAT_ONE),
        ),
        dec_spec(m, OperandView::Register(r), fpu) matches Ok((n, _)) && float_result_in(
            n,
            r,
            fpu_value(fpu, FloatOp::Sub, m.regs.value(r), FLOAT_ONE),
        ),
        neg_spec(m, OperandView::Register(r), fpu) matches Ok((n, _)) && float_result_in(
            n,
            r,
            fpu_value(fpu, FloatOp::Neg, m.regs.value(r), 0),
        ),
{
    let a = m.regs.value(r);
    let ri = fpu_value(fpu, FloatOp::Add, a, FLOAT_ONE);
    let rd = fpu_value(fpu, FloatOp::Sub, a, FLOAT_ONE);
    let rn = fpu_value(fpu, FloatOp::Neg, a, 0);
    lemma_flags_after_f32(with_reg(m, r, ri).regs.flags, ri);
    lemma_flags_after_f32(with_reg(m, r, rd).regs.flags, rd);
    lemma_flags_after_f32(with_reg(m, r, rn).regs.flags, rn);
}

/// A word of a one-register opcode (`INC`, `DEC`, `NEG`) decodes to that
/// register.
proof fn lemma_unary_word(opcode: u32, r: Reg)
    requires
        opcode == 0x13 || opcode == 0x14 || opcode == 0x15,
    ensures
        opcode_of((opcode << 24u32) | ((r.number() as u32) << 16u32)) == opcode,
        decode((opcode << 24u32) | ((r.number() as u32) << 16u32)) == Ok::<
            (OperandView, OperandView),
            Seq<char>,
        >((OperandView::Register(r), OperandView::Empty)),
{
    let n = r.number() as u32;
    let w = (opcode << 24u32) | (n << 16u32);
    assert(((w >> 24u32) as u8) as u32 == opcode && ((w >> 16u32) & 0xFF) == n) by (bit_vector)
        requires
            w == (opcode << 24u32) | (n << 16u32),
            opcode <= 0xFF,
            n < 14,
    ;
}

/// The words of `INC` (0x13), `DEC` (0x14) and `NEG` (0x15) on a register
/// do what those instructions do: the value plus 1.0, minus 1.0, negated,
/// stored with the flags read off it; nothing shown.
pub proof fn law_unary_float_words<F: Fn(FloatOp, u32, u32) -> u32>(m: Machine, r: Reg, fpu: F)
    ensures
        execution(m, (0x13u32 << 24u32) | ((r.number() as u32) << 16u32), fpu) matches Ok((n, None))
            && float_result_in(n, r, fpu_value(fpu, FloatOp::Add, m.regs.value(r), FLOAT_ONE)),
        execution(m, (0x14u32 << 24u32) | ((r.number() as u32) << 16u32), fpu) matches Ok((n, None))
            && float_result_in(n, r, fpu_value(fpu, FloatOp::Sub, m.regs.value(r), FLOAT_ONE)),
        execution(m, (0x15u32 << 24u32) | ((r.number() as u32) << 16u32), fpu) matches Ok((n, None))
            && float_result_in(n, r, fpu_value(fpu, FloatOp::Neg, m.regs.value(r), 0)),
{
    reveal(execution);
    lemma_unary_word(0x13, r);
    lemma_unary_word(0x14, r);
    lemma_unary_word(0x15, r);
    law_unary_float_flags(m, r, fpu);
}

/// `ADDW`, `SUBW` and `MUL` of two registers store the float unit's sum,
/// difference or product in the first and set the flags from it, as the
/// one-register instructions do.
pub proof fn law_binary_float_flags<F: Fn(FloatOp, u32, u32) -> u32>(
    m: Machine,
    r: Reg,
    s: Reg,
    fpu: F,
)
    ensures
        addw_spec(m, OperandView::Register(r), OperandView::Register(s), fpu) matches Ok((n, _))
            && float_result_in(n, r, fpu_value(fpu, FloatOp::Add, m.regs.value(r), m.regs.value(s))),
        subw_spec(m, OperandView::Register(r), OperandView::Register(s), fpu) matches Ok((n, _))
            && float_result_in(n, r, fpu_value(fpu, FloatOp::Sub, m.regs.value(r), m.regs.value(s))),
        mul_spec(m, OperandView::Register(r), OperandView::Register(s), fpu) matches Ok((n, _))
            && float_result_in(n, r, fpu_value(fpu, FloatOp::Mul, m.regs.value(r), m.regs.value(s))),
{
    let a = m.regs.value(r);
    let b = m.regs.value(s);
    let ra = fpu_value(fpu, FloatOp::Add, a, b);
    let rs = fpu_value(fpu, FloatOp::Sub, a, b);
    let rm = fpu_value(fpu, FloatOp::Mul, a, b);
    lemma_flags_after_f32(with_reg(m, r, ra).regs.flags, ra);
    lemma_flags_after_f32(with_reg(m, r, rs).regs.flags, rs);
    lemma_flags_after_f32(with_reg(m, r, rm).regs.flags, rm);
}

/// `CMPW` of two registers keeps every register but `FLAGS` and sets the
/// flags from the float difference: zero exactly when the difference is
/// `+0.0` or `-0.0`, sign exactly when it is negative, carry and overflow
/// clear.
pub proof fn law_compare_flags<F: Fn(FloatOp, u32, u32) -> u32>(
    m: Machine,
    r: Reg,
    s: Reg,
    fpu: F,
)
    ensures
        cmpw_spec(m, OperandView::Register(r), OperandView::Register(s), fpu) matches Ok((n, _))
            && float_result_in(n, Reg::FLAGS, fpu_value(fpu, FloatOp::Sub, m.regs.value(r), m.regs.value(s)))
            && (forall|q: Reg| q != Reg::FLAGS ==> n.regs.value(q) == m.regs.value(q))
            && n.mem == m.mem,
{
    let res = fpu_value(fpu, FloatOp::Sub, m.regs.value(r), m.regs.value(s));
    lemma_flags_after_f32(m.regs.flags, res);
}

/// The word of a two-register instruction: the registers' numbers in bits
/// 16..24 and 8..16, and bit 0 set.
pub open spec fn two_register_word(opcode: u32, r: Reg, s: Reg) -> u32 {
    (opcode << 24u32) | ((r.number() as u32) << 16u32) | ((s.number() as u32) << 8u32) | 1u32
}

/// A two-register word decodes to its two registers.
proof fn lemma_two_register_word(opcode: u32, r: Reg, s: Reg)
    requires
        opcode == 0x02 || opcode == 0x10 || opcode == 0x11 || opcode == 0x12 || opcode == 0x21
            || opcode == 0x22 || opcode == 0x23,
    ensures
        opcode_of(two_register_word(opcode, r, s)) == opcode,
        decode(two_register_word(opcode, r, s)) == Ok::<(OperandView, OperandView), Seq<char>>(
            (OperandView::Register(r), OperandView::Register(s)),
        ),
{
    let n1 = r.number() as u32;
    let n2 = s.number() as u32;
    let w = two_register_word(opcode, r, s);
    assert(((w >> 24u32) as u8) as u32 == opcode && ((w >> 16u32) & 0xFF) == n1 && ((w >> 8u32)
        & 0xFF) == n2 && w & 1 == 1) by (bit_vector)
        requires
            w == (opcode << 24u32) | (n1 << 16u32) | (n2 << 8u32) | 1u32,
            opcode <= 0xFF,
            n1 < 14,
            n2 < 14,
    ;
}

/// The two-register words do what their instructions do to the first
/// register, from the two registers' values `a` and `b`: `MOVW` copies
/// `b`; `AND`, `OR` and `XOR` store `a & b`, `a | b`, `a ^ b` and leave the
/// flags alone; `ADDW`, `SUBW` and `MUL` store the float unit's sum,
/// difference and product with the flags read off it. Nothing is shown.
pub proof fn law_two_register_words<F: Fn(FloatOp, u32, u32) -> u32>(
    m: Machine,
    r: Reg,
    s: Reg,
    fpu: F,
)
    ensures
        ({
            let a = m.regs.value(r);
            let b = m.regs.value(s);
            &&& execution(m, two_register_word(0x02, r, s), fpu) == Ok::<
                (Machine, Option<OutputView>),
                Seq<char>,
            >((with_reg(m, r, b), None))
            &&& execution(m, two_register_word(0x21, r, s), fpu) == Ok::<
                (Machine, Option<OutputView>),
                Seq<char>,
            >((with_reg(m, r, a & b), None))
            &&& execution(m, two_register_word(0x22, r, s), fpu) == Ok::<
                (Machine, Option<OutputView>),
                Seq<char>,
            >((with_reg(m, r, a | b), None))
            &&& execution(m, two_register_word(0x23, r, s), fpu) == Ok::<
                (Machine, Option<OutputView>),
                Seq<char>,
            >((with_reg(m, r, a ^ b), None))
            &&& execution(m, two_register_word(0x10, r, s), fpu) matches Ok((n, None))
                && float_result_in(n, r, fpu_value(fpu, FloatOp::Add, a, b))
            &&& execution(m, two_register_word(0x11, r, s), fpu) matches Ok((n, None))
                && float_result_in(n, r, fpu_value(fpu, FloatOp::Sub, a, b))
            &&& execution(m, two_register_word(0x12, r, s), fpu) matches Ok((n, None))
                && float_result_in(n, r, fpu_value(fpu, FloatOp::Mul, a, b))
        }),
{
    reveal(execution);
    lemma_two_register_word(0x02, r, s);
    lemma_two_register_word(0x10, r, s);
    lemma_two_register_word(0x11, r, s);
    lemma_two_register_word(0x12, r, s);
    lemma_two_register_word(0x21, r, s);
    lemma_two_register_word(0x22, r, s);
    lemma_two_register_word(0x23, r, s);
    law_binary_float_flags(m, r, s, fpu);
}

/// The `LODW` word of a register and a 16-bit address loads the register
/// with the word at that address (or fails with the read error); nothing
/// else changes and nothing is shown.
pub proof fn law_lodw_word<F: Fn(FloatOp, u32, u32) -> u32>(m: Machine, r: Reg, a: u32, fpu: F)
    requires
        a <= 0xFFFF,
    ensures
        reg_addr_word(0x04, Some(OperandView::Register(r)), Some(OperandView::Address(a)), seq![]) matches Ok(w)
            && execution(m, w, fpu) == match read_word(m, a) {
            Ok(v) => Ok::<(Machine, Option<OutputView>), Seq<char>>((with_reg(m, r, v), None)),
            Err(e) => Err(e),
        },
{
    reveal(execution);
    law_reg_addr_roundtrip(r, a, seq![], seq![]);
}

/// The flag names agree between the assembler, `SETF`/`CLRF` and reading a
/// flag: for every name the assembler accepts, setting or clearing the id
/// it gives that name changes exactly the bit that reading the flag by that
/// name (`get_flag`) reads, and no other register or bit; and the zero,
/// sign, carry and overflow names read the bits that arithmetic sets and
/// the jumps test.
pub proof fn law_flag_ids_match_names(m: Machine, name: Seq<char>, value: bool, not_flag: Seq<char>)
    requires
        (flag_operand_id(name) is Some),
    ensures
        flag_bit(name) matches Some(b) && flag_spec(
            m,
            OperandView::Flag(flag_operand_id(name).unwrap()),
            value,
            not_flag,
        ) matches Ok((n, _)) && n == (Machine {
            regs: m.regs.with_flags(with_bit(m.regs.flags, b, value)),
            ..m
        }) && n.regs.flag(b) == value,
        lowercase_is(name, "zero"@) ==> flag_bit(name) == Some(ZERO_BIT),
        lowercase_is(name, "sign"@) ==> flag_bit(name) == Some(SIGN_BIT),
        lowercase_is(name, "carry"@) ==> flag_bit(name) == Some(CARRY_BIT),
        lowercase_is(name, "overflow"@) ==> flag_bit(name) == Some(OVERFLOW_BIT),
{
    reveal_strlit("carry");
    reveal_strlit("zero");
    reveal_strlit("sign");
    reveal_strlit("interrupt");
    reveal_strlit("string");
    reveal_strlit("overflow");
    reveal_strlit("macro");
    reveal_strlit("stack_dir");
    if lowercase_is(name, "sign"@) {
        assert(lower_char(name[0]) == "sign"@[0]);
        assert(lower_char(name[0]) != "zero"@[0]);
        assert(!lowercase_is(name, "zero"@));
    }
    let b = flag_bit(name).unwrap();
    law_flag_read_after_write(m.regs.flags, b, b, value);
}

/// The `SETF` (0x60) and `CLRF` (0x61) words of a flag that the assembler
/// names set and clear the bit that reading the flag by that name reads;
/// nothing is shown.
pub proof fn law_flag_words<F: Fn(FloatOp, u32, u32) -> u32>(m: Machine, name: Seq<char>, fpu: F)
    requires
        (flag_operand_id(name) is Some),
    ensures
        flag_bit(name) matches Some(b) && (execution(
            m,
            (0x60u32 << 24u32) | (flag_operand_id(name).unwrap() as u32),
            fpu,
        ) matches Ok((n, None)) && n.regs.flag(b)) && (execution(
            m,
            (0x61u32 << 24u32) | (flag_operand_id(name).unwrap() as u32),
            fpu,
        ) matches Ok((k, None)) && !k.regs.flag(b)),
{
    reveal(execution);
    let id = flag_operand_id(name).unwrap();
    law_flag_roundtrip(0x60, id);
    law_flag_roundtrip(0x61, id);
    law_flag_ids_match_names(m, name, true, "SETF requires a flag name as operand"@);
    law_flag_ids_match_names(m, name, false, "CLRF requires a flag name as operand"@);
}

/// Adding four then taking four away, with wrapping, gives back the value.
pub proof fn lemma_add4_sub4(x: u32)
    ensures
        sub4(add4(x)) == x,
        add4(sub4(x)) == x,
{
}

/// Popping into a register what was just pushed gives the pushed value
/// back and restores the stack pointer, whichever way the stack grows.
pub proof fn law_push_then_pop(m: Machine, v: u32, r: Reg)
    requires
        m.mem.len() == m.size,
        push_spec(m, OperandView::Immediate(v)) is Ok,
        r != Reg::SP,
    ensures
        push_spec(m, OperandView::Immediate(v)) matches Ok((m1, _)) && (pop_spec(
            m1,
            OperandView::Register(r),
        ) matches Ok((m2, _)) && m2.regs.value(r) == v && m2.regs.sp == m.regs.sp
            && m2.mem == m1.mem),
{
    let sp = m.regs.sp;
    let a = if stack_grows_up(m) {
        sp
    } else {
        sub4(sp)
    };
    assert(a + 3 < m.size);
    law_read32_after_write32(m.mem, a as int, v, 0);
    lemma_add4_sub4(sp);
}

/// A return right after a call comes back to the return address that the
/// call pushed, with the stack pointer where it was.
pub proof fn law_call_then_ret(m: Machine, target: u32)
    requires
        m.mem.len() == m.size,
        call_spec(m, OperandView::Immediate(target)) is Ok,
    ensures
        call_spec(m, OperandView::Immediate(target)) matches Ok((m1, _)) && m1.regs.pc == target
            && (ret_spec(m1) matches Ok((m2, _)) && m2.regs.pc == add4(m.regs.pc) && m2.regs.sp
            == m.regs.sp),
{
    let sp = sub4(m.regs.sp);
    law_read32_after_write32(m.mem, sp as int, add4(m.regs.pc), 0);
    lemma_add4_sub4(m.regs.sp);
}

/// A step is a fetch followed by an execution: where the word at the
/// program counter can be read, a step does what `execute_instruction` does
/// with that word on the CPU whose counter has moved past it (so a word that
/// neither jumps nor writes the counter leaves it four further on);
/// otherwise it fails with the read error and changes nothing.
pub proof fn law_step_is_fetch_then_execute<F: Fn(FloatOp, u32, u32) -> u32>(
    c0: CPU,
    m0: WorkMemory,
    c1: CPU,
    m1: WorkMemory,
    r: Result<Option<Output>, String>,
    fpu: F,
)
    requires
        c0.registers.pc + 4 <= u32::MAX,
    ensures
        ({
            let moved = CPU {
                registers: Registers { pc: (c0.registers.pc + 4) as u32, ..c0.registers },
                ..c0
            };
            match read_word(machine(c0, m0), c0.registers.pc) {
                Ok(w) => step_done(c0, m0, c1, m1, r, fpu) == stepped(
                    m0,
                    c1,
                    m1,
                    r,
                    execution(machine(moved, m0), w, fpu),
                    machine(moved, m0),
                ),
                Err(e) => step_done(c0, m0, c1, m1, r, fpu) == stepped(
                    m0,
                    c1,
                    m1,
                    r,
                    Err(e),
                    machine(c0, m0),
                ),
            }
        }),
{
    let moved = CPU {
        registers: Registers { pc: (c0.registers.pc + 4) as u32, ..c0.registers },
        ..c0
    };
    assert(fetched(machine(c0, m0)) == machine(moved, m0));
}

} // verus!
