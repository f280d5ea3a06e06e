//! Operands of the first instruction format, whose immediates are 16-bit:
//! registers, addresses in square brackets, immediates and labels.

use vstd::prelude::*;
use crate::memory::registers::Reg;
use crate::text::{
    chars_of, contains_whitespace, has_ws, parse_u16_radix, parse_u32_range, push_chars,
    string_from_chars, string_from_str, trim, trim_bounds,
};
use crate::utils::assembler::operands::{
    contains_bracket, has_bracket, has_radix_prefix, inner, is_bracketed, number_in_range,
    number_text, register_in_range, register_named, starts_with,
};

verus! {

/// An operand of the first instruction format.
#[derive(Debug, PartialEq)]
pub enum Operand {
    /// A CPU register.
    Register(Reg),
    /// A 16-bit immediate.
    Immediate(u16),
    /// A memory address.
    Address(u32),
    /// A symbolic label.
    Label(String),
    /// No operand.
    Empty,
}

/// The mathematical value of an `Operand`.
pub enum OperandView {
    Register(Reg),
    Immediate(u16),
    Address(u32),
    Label(Seq<char>),
    Empty,
}

impl View for Operand {
    type V = OperandView;

    open spec fn view(&self) -> OperandView {
        match self {
            Operand::Register(r) => OperandView::Register(*r),
            Operand::Immediate(v) => OperandView::Immediate(*v),
            Operand::Address(a) => OperandView::Address(*a),
            Operand::Label(l) => OperandView::Label(l@),
            Operand::Empty => OperandView::Empty,
        }
    }
}

/// The value of a 16-bit immediate text: `0x` hexadecimal, `0b` binary, or
/// decimal.
pub open spec fn immediate16(t: Seq<char>) -> Option<u16> {
    if starts_with(t, "0x"@) {
        parse_u16_radix(t.skip(2), 16)
    } else if starts_with(t, "0b"@) {
        parse_u16_radix(t.skip(2), 2)
    } else {
        parse_u16_radix(t, 10)
    }
}

/// What an operand text parses to: a register, an address in square
/// brackets, a 16-bit immediate, or a label without whitespace or
/// brackets; an error otherwise.
pub open spec fn operand16_of(s: Seq<char>) -> Result<OperandView, Seq<char>> {
    let t = trim(s);
    if register_named(t) is Some {
        Ok(OperandView::Register(register_named(t).unwrap()))
    } else if is_bracketed(t) {
        match number_text(inner(t)) {
            Some(a) => Ok(OperandView::Address(a)),
            None => Err("Invalid address format: "@ + t),
        }
    } else if immediate16(t) is Some {
        Ok(OperandView::Immediate(immediate16(t).unwrap()))
    } else if t.len() > 0 && !has_ws(t) && !has_bracket(t) {
        Ok(OperandView::Label(t))
    } else {
        Err("Invalid or unknown operand: "@ + t)
    }
}

/// The 16-bit immediate of `s[lo..hi]` (see `immediate16`).
fn immediate16_in_range(s: &[char], lo: usize, hi: usize) -> (r: Option<u16>)
    requires
        lo <= hi <= s@.len(),
    ensures
        r == immediate16(s@.subrange(lo as int, hi as int)),
{
    let ghost t = s@.subrange(lo as int, hi as int);
    let v = if has_radix_prefix(s, lo, hi, 'x') {
        assert(t.skip(2) =~= s@.subrange(lo + 2, hi as int));
        parse_u32_range(s, lo + 2, hi, 16)
    } else if has_radix_prefix(s, lo, hi, 'b') {
        assert(t.skip(2) =~= s@.subrange(lo + 2, hi as int));
        parse_u32_range(s, lo + 2, hi, 2)
    } else {
        parse_u32_range(s, lo, hi, 10)
    };
    match v {
        Some(n) => if n <= 0xFFFF {
            Some(n as u16)
        } else {
            None
        },
        None => None,
    }
}

/// Parses the operand text `s[lo..hi]` (see `operand16_of`).
pub fn parse_operand_range(s: &[char], lo: usize, hi: usize) -> (r: Result<Operand, String>)
    requires
        lo <= hi <= s@.len(),
    ensures
        match operand16_of(s@.subrange(lo as int, hi as int)) {
            Ok(o) => r matches Ok(op) && op@ == o,
            Err(e) => r matches Err(msg) && msg@ == e,
        },
{
    let (a, b) = trim_bounds(s, lo, hi);
    let ghost t = s@.subrange(a as int, b as int);
    if let Some(reg) = register_in_range(s, a, b) {
        return Ok(Operand::Register(reg));
    }
    if b > a && s[a] == '[' && s[b - 1] == ']' {
        assert(b - a >= 2);
        assert(s@.subrange(a + 1, b - 1) =~= inner(t));
        return match number_in_range(s, a + 1, b - 1) {
            Some(n) => Ok(Operand::Address(n)),
            None => {
                let mut e = string_from_str("Invalid address format: ");
                push_chars(&mut e, &s[a..b]);
                Err(e)
            },
        };
    }
    assert(!is_bracketed(t));
    if let Some(v) = immediate16_in_range(s, a, b) {
        return Ok(Operand::Immediate(v));
    }
    if b > a && !contains_whitespace(s, a, b) && !contains_bracket(s, a, b) {
        return Ok(Operand::Label(string_from_chars(&s[a..b])));
    }
    let mut e = string_from_str("Invalid or unknown operand: ");
    push_chars(&mut e, &s[a..b]);
    Err(e)
}

/// Parses an operand text, ignoring leading and trailing whitespace: a
/// register name (any case), an address in square brackets (`0x`, `0b` or
/// decimal), a 16-bit immediate, or a label; an error for anything else.
pub fn parse_operand(input: &str) -> (r: Result<Operand, String>)
    ensures
        match operand16_of(input@) {
            Ok(o) => r matches Ok(op) && op@ == o,
            Err(e) => r matches Err(msg) && msg@ == e,
        },
{
    let cs = chars_of(input);
    assert(cs@.subrange(0, cs@.len() as int) =~= cs@);
    parse_operand_range(cs.as_slice(), 0, cs.len())
}

} // verus!
