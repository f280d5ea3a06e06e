//! Operands of ARC assembly instructions, and their parser.
//!
//! An operand that is neither a register, a flag, a string, an address nor an
//! integer may still be a decimal floating-point number, which the assembler
//! truncates to an unsigned integer. Reading such a number is left to the
//! caller, who hands the parser a function that returns the truncated value
//! (or `None` when the text is not a number); the parser's contract speaks of
//! that function's answer.

use vstd::prelude::*;
use crate::memory::registers::Reg;
use crate::text::{
    chars_of, contains_whitespace, has_ws, lowercase_is, parse_u32, parse_u32_radix,
    parse_u32_range, push_str, range_lowercase_is, string_from_chars, string_from_str, trim,
    trim_bounds, copy_string, all_digits, digit_value, digits_value, is_ws, lower_char,
    unsigned_digits,
};

verus! {

/// The kinds of operand an assembly instruction can have.
#[derive(Debug, PartialEq)]
pub enum Operand {
    /// A CPU register (e.g., AX, BX).
    Register(Reg),
    /// An immediate value.
    Immediate(u32),
    /// A memory address.
    Address(u32),
    /// A memory address held in a register.
    AddressRegister(Reg),
    /// A symbolic label, resolved to an address during assembly.
    Label(String),
    /// A string literal.
    String(String),
    /// A CPU flag, by its numeric id.
    Flag(u8),
    /// No operand.
    Empty,
}

/// The mathematical value of an `Operand`: texts as character sequences.
pub enum OperandView {
    Register(Reg),
    Immediate(u32),
    Address(u32),
    AddressRegister(Reg),
    Label(Seq<char>),
    String(Seq<char>),
    Flag(u8),
    Empty,
}

impl View for Operand {
    type V = OperandView;

    open spec fn view(&self) -> OperandView {
        match self {
            Operand::Register(r) => OperandView::Register(*r),
            Operand::Immediate(v) => OperandView::Immediate(*v),
            Operand::Address(a) => OperandView::Address(*a),
            Operand::AddressRegister(r) => OperandView::AddressRegister(*r),
            Operand::Label(l) => OperandView::Label(l@),
            Operand::String(s) => OperandView::String(s@),
            Operand::Flag(f) => OperandView::Flag(*f),
            Operand::Empty => OperandView::Empty,
        }
    }
}

impl Clone for Operand {
    fn clone(&self) -> (r: Self)
        ensures
            r@ == self@,
    {
        match self {
            Operand::Register(r) => Operand::Register(*r),
            Operand::Immediate(v) => Operand::Immediate(*v),
            Operand::Address(a) => Operand::Address(*a),
            Operand::AddressRegister(r) => Operand::AddressRegister(*r),
            Operand::Label(l) => Operand::Label(copy_string(l)),
            Operand::String(s) => Operand::String(copy_string(s)),
            Operand::Flag(f) => Operand::Flag(*f),
            Operand::Empty => Operand::Empty,
        }
    }
}

/// The view of an optional operand.
pub open spec fn opt_view(o: Option<Operand>) -> Option<OperandView> {
    match o {
        Some(op) => Some(op@),
        None => None,
    }
}

/// A copy of an optional operand.
pub fn clone_opt(o: &Option<Operand>) -> (r: Option<Operand>)
    ensures
        opt_view(r) == opt_view(*o),
{
    match o {
        Some(op) => Some(op.clone()),
        None => None,
    }
}

// ---------------------------------------------------------------------------
// Specification
// ---------------------------------------------------------------------------

/// The register a name denotes, ignoring case.
pub open spec fn register_named(s: Seq<char>) -> Option<Reg> {
    if lowercase_is(s, "ax"@) {
        Some(Reg::AX)
    } else if lowercase_is(s, "bx"@) {
        Some(Reg::BX)
    } else if lowercase_is(s, "cx"@) {
        Some(Reg::CX)
    } else if lowercase_is(s, "dx"@) {
        Some(Reg::DX)
    } else if lowercase_is(s, "ex"@) {
        Some(Reg::EX)
    } else if lowercase_is(s, "fx"@) {
        Some(Reg::FX)
    } else if lowercase_is(s, "gx"@) {
        Some(Reg::GX)
    } else if lowercase_is(s, "hx"@) {
        Some(Reg::HX)
    } else if lowercase_is(s, "sp"@) {
        Some(Reg::SP)
    } else if lowercase_is(s, "bp"@) {
        Some(Reg::BP)
    } else if lowercase_is(s, "si"@) {
        Some(Reg::SI)
    } else if lowercase_is(s, "di"@) {
        Some(Reg::DI)
    } else if lowercase_is(s, "pc"@) {
        Some(Reg::PC)
    } else if lowercase_is(s, "flags"@) {
        Some(Reg::FLAGS)
    } else {
        None
    }
}

/// The flag id a flag name denotes as an operand, ignoring case.
pub open spec fn flag_operand_id(s: Seq<char>) -> Option<u8> {
    if lowercase_is(s, "carry"@) {
        Some(0u8)
    } else if lowercase_is(s, "zero"@) {
        Some(1u8)
    } else if lowercase_is(s, "sign"@) {
        Some(2u8)
    } else if lowercase_is(s, "interrupt"@) {
        Some(3u8)
    } else if lowercase_is(s, "overflow"@) {
        Some(5u8)
    } else if lowercase_is(s, "macro"@) {
        Some(6u8)
    } else if lowercase_is(s, "stack_dir"@) {
        Some(7u8)
    } else {
        None
    }
}

/// Whether `s` begins with `p`.
pub open spec fn starts_with(s: Seq<char>, p: Seq<char>) -> bool {
    s.len() >= p.len() && s.take(p.len() as int) == p
}

/// Whether some character of `s` is a square bracket.
pub open spec fn has_bracket(s: Seq<char>) -> bool {
    exists|i: int| 0 <= i < s.len() && (s[i] == '[' || s[i] == ']')
}

/// Whether `t` is enclosed in double quotes (one quote counts as both ends).
pub open spec fn is_quoted(t: Seq<char>) -> bool {
    t.len() >= 1 && t[0] == '"' && t.last() == '"'
}

/// Whether `t` is enclosed in square brackets.
pub open spec fn is_bracketed(t: Seq<char>) -> bool {
    t.len() >= 1 && t[0] == '[' && t.last() == ']'
}

/// The text between the first and the last character of `t`.
pub open spec fn inner(t: Seq<char>) -> Seq<char> {
    t.subrange(1, t.len() - 1)
}

/// The value of an integer text: `0x` hexadecimal, `0b` binary, or decimal.
pub open spec fn number_text(s: Seq<char>) -> Option<u32> {
    if starts_with(s, "0x"@) {
        parse_u32_radix(s.skip(2), 16)
    } else if starts_with(s, "0b"@) {
        parse_u32_radix(s.skip(2), 2)
    } else {
        parse_u32(s)
    }
}

/// Whether every character of `d` is one of the digits `0` to `9`.
pub open spec fn decimal_digits(d: Seq<char>) -> bool {
    forall|i: int| 0 <= i < d.len() ==> '0' <= #[trigger] d[i] && d[i] <= '9'
}

/// Whether every character of `d` is `0` or `1`.
pub open spec fn binary_digits(d: Seq<char>) -> bool {
    forall|i: int| 0 <= i < d.len() ==> #[trigger] d[i] == '0' || d[i] == '1'
}

/// The value of the digits `d` (each `0` to `9`) read in base `base`, most
/// significant first.
pub open spec fn numeral_value(d: Seq<char>, base: nat) -> nat
    decreases d.len(),
{
    if d.len() == 0 {
        0
    } else {
        numeral_value(d.drop_last(), base) * base + ((d.last() as u32) - 0x30) as nat
    }
}

/// A value as a 32-bit number, or `None` where it does not fit.
pub open spec fn fitting_u32(v: nat) -> Option<u32> {
    if v <= u32::MAX {
        Some(v as u32)
    } else {
        None
    }
}

/// Digits that are all below the base read as digits of that base.
proof fn lemma_numeral_digits(d: Seq<char>, base: nat)
    requires
        10 <= base <= 16 || (base == 2 && binary_digits(d)),
        decimal_digits(d),
    ensures
        all_digits(d, base),
        digits_value(d, base) == numeral_value(d, base),
    decreases d.len(),
{
    assert forall|i: int| 0 <= i < d.len() implies #[trigger] digit_value(d[i], base) is Some
        && digit_value(d[i], base) == Some(((d[i] as u32) - 0x30) as nat) by {
        assert('0' <= d[i] && d[i] <= '9');
        if base == 2 {
            assert(d[i] == '0' || d[i] == '1');
        }
    }
    if d.len() > 0 {
        let e = d.drop_last();
        assert(decimal_digits(e)) by {
            assert forall|i: int| 0 <= i < e.len() implies '0' <= #[trigger] e[i] && e[i] <= '9' by {
                assert(e[i] == d[i]);
            }
        }
        if base == 2 {
            assert(binary_digits(e)) by {
                assert forall|i: int| 0 <= i < e.len() implies #[trigger] e[i] == '0' || e[i] == '1' by {
                    assert(e[i] == d[i]);
                }
            }
        }
        lemma_numeral_digits(e, base);
        assert(digit_value(d[d.len() - 1], base) is Some);
    }
}

/// How an integer text reads: `0b` and binary digits in base 2, `0x` and
/// digits in base 16, plain digits in base 10; each the value of its digits
/// where that fits in 32 bits, and no number where it does not.
pub proof fn law_number_text_bases(d: Seq<char>)
    requires
        d.len() > 0,
        decimal_digits(d),
    ensures
        binary_digits(d) ==> number_text(seq!['0', 'b'] + d) == fitting_u32(numeral_value(d, 2)),
        number_text(seq!['0', 'x'] + d) == fitting_u32(numeral_value(d, 16)),
        number_text(d) == fitting_u32(numeral_value(d, 10)),
{
    reveal_strlit("0x");
    reveal_strlit("0b");
    assert(d[0] != '+');
    assert(unsigned_digits(d) == d);
    let tb = seq!['0', 'b'] + d;
    let tx = seq!['0', 'x'] + d;
    assert(tb.skip(2) =~= d);
    assert(tx.skip(2) =~= d);
    assert(tb.take(2) =~= "0b"@);
    assert(tx.take(2) =~= "0x"@);
    assert(!starts_with(tb, "0x"@)) by {
        if starts_with(tb, "0x"@) {
            assert(tb.take(2)[1] == 'x');
        }
    }
    if binary_digits(d) {
        lemma_numeral_digits(d, 2);
    }
    lemma_numeral_digits(d, 16);
    lemma_numeral_digits(d, 10);
    if d.len() >= 2 {
        assert(!starts_with(d, "0x"@)) by {
            if starts_with(d, "0x"@) {
                assert(d.take(2)[1] == d[1]);
            }
        }
        assert(!starts_with(d, "0b"@)) by {
            if starts_with(d, "0b"@) {
                assert(d.take(2)[1] == d[1]);
            }
        }
    }
}

/// Whether an immediate is read as a floating-point number: it has no `0x`
/// or `0b` prefix and is not a decimal 32-bit integer.
pub open spec fn float_path(t: Seq<char>) -> bool {
    !starts_with(t, "0x"@) && !starts_with(t, "0b"@) && parse_u32(t) is None
}

/// The immediate value of `t`, where a floating-point reading gives `fv`.
pub open spec fn immediate_of(t: Seq<char>, fv: Option<u32>) -> Option<u32> {
    if float_path(t) {
        fv
    } else {
        number_text(t)
    }
}

/// Which branch of the operand grammar a trimmed text takes first.
pub open spec fn is_plain_operand(t: Seq<char>) -> bool {
    !is_quoted(t) && register_named(t) is None && flag_operand_id(t) is None && !is_bracketed(t)
}

/// Whether an operand text reaches the floating-point reading.
pub open spec fn operand_reads_float(s: Seq<char>) -> bool {
    is_plain_operand(trim(s)) && float_path(trim(s))
}

/// Whether `t` may stand as a label: non-empty, without whitespace and
/// without brackets.
pub open spec fn plain_label(t: Seq<char>) -> bool {
    t.len() > 0 && !has_ws(t) && !has_bracket(t)
}

/// The operand text `s` denotes, where its floating-point reading is `fv`.
pub open spec fn operand_of(s: Seq<char>, fv: Option<u32>) -> OperandView {
    let t = trim(s);
    if is_quoted(t) {
        OperandView::String(inner(t))
    } else if register_named(t) is Some {
        OperandView::Register(register_named(t).unwrap())
    } else if flag_operand_id(t) is Some {
        OperandView::Flag(flag_operand_id(t).unwrap())
    } else if is_bracketed(t) {
        let a = inner(t);
        if register_named(a) is Some {
            OperandView::AddressRegister(register_named(a).unwrap())
        } else if number_text(a) is Some {
            OperandView::Address(number_text(a).unwrap())
        } else {
            OperandView::Label(a)
        }
    } else if immediate_of(t, fv) is Some {
        OperandView::Immediate(immediate_of(t, fv).unwrap())
    } else {
        OperandView::Label(t)
    }
}

/// Whether parsing the operand text `s` stops the program: a lone quote, a
/// bracketed text that is no register, number or label, or a text that is
/// no operand at all.
pub open spec fn operand_panics(s: Seq<char>, fv: Option<u32>) -> bool {
    let t = trim(s);
    if is_quoted(t) {
        t.len() < 2
    } else if register_named(t) is Some || flag_operand_id(t) is Some {
        false
    } else if is_bracketed(t) {
        let a = inner(t);
        register_named(a) is None && number_text(a) is None && (a.len() == 0 || has_ws(a))
    } else {
        immediate_of(t, fv) is None && !plain_label(t)
    }
}

/// The error of an operand text that is no operand (see `operand_panics`):
/// a bracketed text is an invalid address, anything else an unknown
/// operand; the message quotes the trimmed text.
pub open spec fn operand_error(s: Seq<char>) -> Seq<char> {
    let t = trim(s);
    if is_bracketed(t) {
        "Invalid address format: "@ + t
    } else {
        "Invalid or unknown operand: "@ + t
    }
}

/// What the operand text `s` gives, where its floating-point reading is
/// `fv`: the operand, or the error of a text that is no operand.
pub open spec fn operand_result(s: Seq<char>, fv: Option<u32>) -> Result<OperandView, Seq<char>> {
    if operand_panics(s, fv) {
        Err(operand_error(s))
    } else {
        Ok(operand_of(s, fv))
    }
}

/// A character that no operand word holds: whitespace or a square bracket.
pub open spec fn odd_char(c: char) -> bool {
    is_ws(c) || c == '[' || c == ']'
}

/// A text with whitespace or a bracket is no lower-case word.
proof fn lemma_not_word(t: Seq<char>, w: Seq<char>, i: int)
    requires
        0 <= i < t.len(),
        odd_char(t[i]),
        forall|j: int| 0 <= j < w.len() ==> (0x61 <= #[trigger] (w[j] as u32) <= 0x7A) || w[j] == '_',
    ensures
        !lowercase_is(t, w),
{
    if lowercase_is(t, w) {
        assert(lower_char(t[i]) == w[i]);
        assert(lower_char(t[i]) == t[i]);
        assert(0x61 <= (w[i] as u32) <= 0x7A || w[i] == '_');
    }
}

/// A text with whitespace or a bracket names no register and no flag.
proof fn lemma_no_name(t: Seq<char>, i: int)
    requires
        t.len() == 0 || (0 <= i < t.len() && odd_char(t[i])),
    ensures
        register_named(t) is None,
        flag_operand_id(t) is None,
{
    reveal_strlit("ax");
    reveal_strlit("bx");
    reveal_strlit("cx");
    reveal_strlit("dx");
    reveal_strlit("ex");
    reveal_strlit("fx");
    reveal_strlit("gx");
    reveal_strlit("hx");
    reveal_strlit("sp");
    reveal_strlit("bp");
    reveal_strlit("si");
    reveal_strlit("di");
    reveal_strlit("pc");
    reveal_strlit("flags");
    reveal_strlit("carry");
    reveal_strlit("zero");
    reveal_strlit("sign");
    reveal_strlit("interrupt");
    reveal_strlit("overflow");
    reveal_strlit("macro");
    reveal_strlit("stack_dir");
    if t.len() > 0 {
        lemma_not_word(t, "ax"@, i);
        lemma_not_word(t, "bx"@, i);
        lemma_not_word(t, "cx"@, i);
        lemma_not_word(t, "dx"@, i);
        lemma_not_word(t, "ex"@, i);
        lemma_not_word(t, "fx"@, i);
        lemma_not_word(t, "gx"@, i);
        lemma_not_word(t, "hx"@, i);
        lemma_not_word(t, "sp"@, i);
        lemma_not_word(t, "bp"@, i);
        lemma_not_word(t, "si"@, i);
        lemma_not_word(t, "di"@, i);
        lemma_not_word(t, "pc"@, i);
        lemma_not_word(t, "flags"@, i);
        lemma_not_word(t, "carry"@, i);
        lemma_not_word(t, "zero"@, i);
        lemma_not_word(t, "sign"@, i);
        lemma_not_word(t, "interrupt"@, i);
        lemma_not_word(t, "overflow"@, i);
        lemma_not_word(t, "macro"@, i);
        lemma_not_word(t, "stack_dir"@, i);
    }
}

/// Whether some character of `t` is whitespace or a bracket.
pub open spec fn has_odd(t: Seq<char>) -> bool {
    exists|i: int| 0 <= i < t.len() && odd_char(#[trigger] t[i])
}

/// Digits with whitespace or a bracket among them are no number.
proof fn lemma_odd_digits(d: Seq<char>, radix: nat, k: int)
    requires
        radix <= 16,
        0 <= k < d.len(),
        odd_char(d[k]),
    ensures
        !all_digits(d, radix),
{
    assert(digit_value(d[k], radix) is None);
}

/// A number text with whitespace or a bracket is no number.
proof fn lemma_odd_number(t: Seq<char>, radix: nat, i: int)
    requires
        radix <= 16,
        0 <= i < t.len(),
        odd_char(t[i]),
    ensures
        parse_u32_radix(t, radix) is None,
{
    let d = unsigned_digits(t);
    if t.len() > 1 && t[0] == '+' {
        assert(d[i - 1] == t[i]);
        lemma_odd_digits(d, radix, i - 1);
    } else {
        lemma_odd_digits(d, radix, i);
    }
}

/// An integer text with whitespace or a bracket, or an empty one, gives no
/// integer.
proof fn lemma_no_number(t: Seq<char>)
    requires
        t.len() == 0 || has_odd(t),
    ensures
        number_text(t) is None,
{
    reveal_strlit("0x");
    reveal_strlit("0b");
    if t.len() > 0 {
        let i = choose|i: int| 0 <= i < t.len() && odd_char(#[trigger] t[i]);
        if starts_with(t, "0x"@) || starts_with(t, "0b"@) {
            assert(t.take(2)[0] == t[0] && t.take(2)[1] == t[1]);
            assert(t[0] == '0');
            assert(t[1] == 'x' || t[1] == 'b');
            assert(t.skip(2)[i - 2] == t[i]);
            lemma_odd_number(t.skip(2), 16, i - 2);
            lemma_odd_number(t.skip(2), 2, i - 2);
        } else {
            lemma_odd_number(t, 10, i);
        }
    }
}

/// A text that is no operand gives an error: once trimmed, it is no quoted
/// string, and it is empty or holds whitespace or a bracket, without being
/// a bracketed word; a number is not read from it either (the reader
/// answers `None`).
pub proof fn law_no_operand_is_error(s: Seq<char>, fv: Option<u32>)
    requires
        !is_quoted(trim(s)),
        trim(s).len() == 0 || has_odd(trim(s)),
        !(is_bracketed(trim(s)) && inner(trim(s)).len() > 0 && !has_ws(inner(trim(s)))),
        float_path(trim(s)) ==> fv is None,
    ensures
        operand_result(s, fv) is Err,
{
    let t = trim(s);
    lemma_no_number(t);
    if t.len() > 0 {
        let i = choose|i: int| 0 <= i < t.len() && odd_char(#[trigger] t[i]);
        lemma_no_name(t, i);
    } else {
        lemma_no_name(t, 0);
    }
    if is_bracketed(t) {
        let a = inner(t);
        if a.len() > 0 {
            let j = choose|j: int| 0 <= j < a.len() && is_ws(#[trigger] a[j]);
            assert(odd_char(a[j]));
            lemma_no_name(a, j);
            assert(has_odd(a));
        } else {
            lemma_no_name(a, 0);
        }
        lemma_no_number(a);
    } else {
        assert(!plain_label(t)) by {
            if t.len() > 0 {
                let i = choose|i: int| 0 <= i < t.len() && odd_char(#[trigger] t[i]);
                if is_ws(t[i]) {
                    assert(has_ws(t));
                } else {
                    assert(has_bracket(t));
                }
            }
        }
    }
}

/// Whether a floating-point reader always accepts its input and gives the
/// same answer for the same text.
pub open spec fn float_reader_ok<F: Fn(&str) -> Option<u32>>(f: F) -> bool {
    &&& forall|s: &str| #[trigger] f.requires((s,))
    &&& forall|s1: &str, s2: &str, a: Option<u32>, b: Option<u32>|
        s1@ == s2@ && #[trigger] f.ensures((s1,), a) && #[trigger] f.ensures((s2,), b) ==> a == b
}

/// Whether a floating-point reader may answer `v` for the text `t`.
pub open spec fn reads_as<F: Fn(&str) -> Option<u32>>(f: F, t: Seq<char>, v: Option<u32>) -> bool {
    exists|s: &str| s@ == t && #[trigger] f.ensures((s,), v)
}

/// The answer of a floating-point reader for the text `t`.
pub open spec fn float_reading<F: Fn(&str) -> Option<u32>>(f: F, t: Seq<char>) -> Option<u32> {
    choose|v: Option<u32>| #[trigger] reads_as(f, t, v)
}

/// A reader's answer for a text is its reading of that text.
pub proof fn lemma_float_reading<F: Fn(&str) -> Option<u32>>(f: F, s: &str, v: Option<u32>)
    requires
        float_reader_ok(f),
        f.ensures((s,), v),
    ensures
        float_reading(f, s@) == v,
{
    assert(reads_as(f, s@, v));
    let w = float_reading(f, s@);
    assert(reads_as(f, s@, w));
    let s2 = choose|s2: &str| s2@ == s@ && #[trigger] f.ensures((s2,), w);
    assert(f.ensures((s2,), w));
}

/// The floating-point reading that parsing `s` uses.
pub open spec fn float_arg<F: Fn(&str) -> Option<u32>>(f: F, s: Seq<char>) -> Option<u32> {
    if operand_reads_float(s) {
        float_reading(f, trim(s))
    } else {
        None
    }
}

// ---------------------------------------------------------------------------
// Implementation
// ---------------------------------------------------------------------------

/// The register named by `s[lo..hi]`, ignoring case.
pub fn register_in_range(s: &[char], lo: usize, hi: usize) -> (r: Option<Reg>)
    requires
        lo <= hi <= s@.len(),
    ensures
        r == register_named(s@.subrange(lo as int, hi as int)),
{
    if range_lowercase_is(s, lo, hi, "ax") {
        Some(Reg::AX)
    } else if range_lowercase_is(s, lo, hi, "bx") {
        Some(Reg::BX)
    } else if range_lowercase_is(s, lo, hi, "cx") {
        Some(Reg::CX)
    } else if range_lowercase_is(s, lo, hi, "dx") {
        Some(Reg::DX)
    } else if range_lowercase_is(s, lo, hi, "ex") {
        Some(Reg::EX)
    } else if range_lowercase_is(s, lo, hi, "fx") {
        Some(Reg::FX)
    } else if range_lowercase_is(s, lo, hi, "gx") {
        Some(Reg::GX)
    } else if range_lowercase_is(s, lo, hi, "hx") {
        Some(Reg::HX)
    } else if range_lowercase_is(s, lo, hi, "sp") {
        Some(Reg::SP)
    } else if range_lowercase_is(s, lo, hi, "bp") {
        Some(Reg::BP)
    } else if range_lowercase_is(s, lo, hi, "si") {
        Some(Reg::SI)
    } else if range_lowercase_is(s, lo, hi, "di") {
        Some(Reg::DI)
    } else if range_lowercase_is(s, lo, hi, "pc") {
        Some(Reg::PC)
    } else if range_lowercase_is(s, lo, hi, "flags") {
        Some(Reg::FLAGS)
    } else {
        None
    }
}

/// Parses a register name (ignoring case).
pub fn parse_register(input: &str) -> (r: Result<Reg, String>)
    ensures
        match register_named(input@) {
            Some(reg) => r == Ok::<Reg, String>(reg),
            None => r matches Err(e) && e@ == "Invalid register name: "@ + input@,
        },
{
    let cs = chars_of(input);
    let r = register_in_range(cs.as_slice(), 0, cs.len());
    assert(cs@.subrange(0, cs@.len() as int) =~= cs@);
    match r {
        Some(reg) => Ok(reg),
        None => {
            let mut e = string_from_str("Invalid register name: ");
            push_str(&mut e, input);
            Err(e)
        },
    }
}

/// The flag id named by `s[lo..hi]`, ignoring case.
fn flag_in_range(s: &[char], lo: usize, hi: usize) -> (r: Option<u8>)
    requires
        lo <= hi <= s@.len(),
    ensures
        r == flag_operand_id(s@.subrange(lo as int, hi as int)),
{
    if range_lowercase_is(s, lo, hi, "carry") {
        Some(0)
    } else if range_lowercase_is(s, lo, hi, "zero") {
        Some(1)
    } else if range_lowercase_is(s, lo, hi, "sign") {
        Some(2)
    } else if range_lowercase_is(s, lo, hi, "interrupt") {
        Some(3)
    } else if range_lowercase_is(s, lo, hi, "overflow") {
        Some(5)
    } else if range_lowercase_is(s, lo, hi, "macro") {
        Some(6)
    } else if range_lowercase_is(s, lo, hi, "stack_dir") {
        Some(7)
    } else {
        None
    }
}

/// Whether `s[lo..hi]` begins with `0` followed by `c`.
pub fn has_radix_prefix(s: &[char], lo: usize, hi: usize, c: char) -> (r: bool)
    requires
        lo <= hi <= s@.len(),
        c == 'x' || c == 'b',
    ensures
        c == 'x' ==> r == starts_with(s@.subrange(lo as int, hi as int), "0x"@),
        c == 'b' ==> r == starts_with(s@.subrange(lo as int, hi as int), "0b"@),
        r ==> lo + 2 <= hi,
{
    let p = if c == 'x' {
        chars_of("0x")
    } else {
        chars_of("0b")
    };
    proof {
        reveal_strlit("0x");
        reveal_strlit("0b");
    }
    assert(p@.len() == 2);
    if hi - lo < 2 {
        return false;
    }
    let r = s[lo] == '0' && s[lo + 1] == c;
    assert(s@.subrange(lo as int, hi as int).take(2) =~= seq![s@[lo as int], s@[lo + 1]]);
    assert(p@ =~= seq!['0', c]);
    r
}

/// The value of the integer text `s[lo..hi]` (see `number_text`).
pub fn number_in_range(s: &[char], lo: usize, hi: usize) -> (r: Option<u32>)
    requires
        lo <= hi <= s@.len(),
    ensures
        r == number_text(s@.subrange(lo as int, hi as int)),
{
    let ghost t = s@.subrange(lo as int, hi as int);
    if has_radix_prefix(s, lo, hi, 'x') {
        assert(t.skip(2) =~= s@.subrange(lo + 2, hi as int));
        parse_u32_range(s, lo + 2, hi, 16)
    } else if has_radix_prefix(s, lo, hi, 'b') {
        assert(t.skip(2) =~= s@.subrange(lo + 2, hi as int));
        parse_u32_range(s, lo + 2, hi, 2)
    } else {
        parse_u32_range(s, lo, hi, 10)
    }
}

/// Whether some character of `s[lo..hi]` is a square bracket.
pub fn contains_bracket(s: &[char], lo: usize, hi: usize) -> (r: bool)
    requires
        lo <= hi <= s@.len(),
    ensures
        r == has_bracket(s@.subrange(lo as int, hi as int)),
{
    let mut i = lo;
    while i < hi
        invariant
            lo <= i <= hi <= s@.len(),
            forall|j: int| lo <= j < i ==> s@[j] != '[' && s@[j] != ']',
        decreases hi - i,
    {
        if s[i] == '[' || s[i] == ']' {
            assert(s@.subrange(lo as int, hi as int)[i - lo] == s@[i as int]);
            return true;
        }
        i = i + 1;
    }
    assert forall|k: int| 0 <= k < hi - lo implies !(s@.subrange(lo as int, hi as int)[k] == '['
        || s@.subrange(lo as int, hi as int)[k] == ']') by {
        assert(s@.subrange(lo as int, hi as int)[k] == s@[lo + k]);
    }
    false
}

/// Parses the operand text `s[lo..hi]`.
pub fn parse_operand_range<F: Fn(&str) -> Option<u32>>(
    s: &[char],
    lo: usize,
    hi: usize,
    float_value: &F,
) -> (r: Operand)
    requires
        lo <= hi <= s@.len(),
        float_reader_ok(*float_value),
        !operand_panics(
            s@.subrange(lo as int, hi as int),
            float_arg(*float_value, s@.subrange(lo as int, hi as int)),
        ),
    ensures
        r@ == operand_of(
            s@.subrange(lo as int, hi as int),
            float_arg(*float_value, s@.subrange(lo as int, hi as int)),
        ),
{
    let ghost src = s@.subrange(lo as int, hi as int);
    let ghost fv = float_arg(*float_value, src);
    let (a, b) = trim_bounds(s, lo, hi);
    let ghost t = s@.subrange(a as int, b as int);
    assert(t == trim(src));
    // 1. String literal
    if b > a && s[a] == '"' && s[b - 1] == '"' {
        assert(t.len() >= 2);
        let text = string_from_chars(&s[a + 1..b - 1]);
        assert(s@.subrange(a + 1, b - 1) =~= inner(t));
        return Operand::String(text);
    }
    assert(!is_quoted(t));
    // 2. Register
    if let Some(reg) = register_in_range(s, a, b) {
        return Operand::Register(reg);
    }
    // 3. Flag
    if let Some(id) = flag_in_range(s, a, b) {
        return Operand::Flag(id);
    }
    // 4. Address
    if b > a && s[a] == '[' && s[b - 1] == ']' {
        assert(b - a >= 2);
        assert(s@.subrange(a + 1, b - 1) =~= inner(t));
        if let Some(reg) = register_in_range(s, a + 1, b - 1) {
            return Operand::AddressRegister(reg);
        }
        match number_in_range(s, a + 1, b - 1) {
            Some(n) => {
                return Operand::Address(n);
            },
            None => {
                let ws = contains_whitespace(s, a + 1, b - 1);
                assert(b - 1 > a + 1 && !ws);
                return Operand::Label(string_from_chars(&s[a + 1..b - 1]));
            },
        }
    }
    assert(!is_bracketed(t));
    assert(is_plain_operand(t));
    // 5. Immediate
    let hex = has_radix_prefix(s, a, b, 'x');
    let bin = has_radix_prefix(s, a, b, 'b');
    let imm: Option<u32> = if hex || bin {
        number_in_range(s, a, b)
    } else {
        match parse_u32_range(s, a, b, 10) {
            Some(v) => Some(v),
            None => {
                let text = string_from_chars(&s[a..b]);
                let ts = text.as_str();
                let v = float_value(ts);
                proof {
                    assert(float_path(t));
                    assert(operand_reads_float(src));
                    lemma_float_reading(*float_value, ts, v);
                }
                v
            },
        }
    };
    assert(imm == immediate_of(t, fv));
    match imm {
        Some(v) => Operand::Immediate(v),
        None => {
            let ws = contains_whitespace(s, a, b);
            let br = contains_bracket(s, a, b);
            assert(b > a && !ws && !br);
            Operand::Label(string_from_chars(&s[a..b]))
        },
    }
}

/// Whether parsing the operand text `s[lo..hi]` with the reader
/// `float_value` stops the program (see `operand_panics`).
pub fn operand_range_stops<F: Fn(&str) -> Option<u32>>(
    s: &[char],
    lo: usize,
    hi: usize,
    float_value: &F,
) -> (r: bool)
    requires
        lo <= hi <= s@.len(),
        float_reader_ok(*float_value),
    ensures
        r == operand_panics(
            s@.subrange(lo as int, hi as int),
            float_arg(*float_value, s@.subrange(lo as int, hi as int)),
        ),
{
    let ghost src = s@.subrange(lo as int, hi as int);
    let ghost fv = float_arg(*float_value, src);
    let (a, b) = trim_bounds(s, lo, hi);
    let ghost t = s@.subrange(a as int, b as int);
    assert(t == trim(src));
    if b > a && s[a] == '"' && s[b - 1] == '"' {
        return b - a < 2;
    }
    assert(!is_quoted(t));
    if register_in_range(s, a, b).is_some() {
        return false;
    }
    if flag_in_range(s, a, b).is_some() {
        return false;
    }
    if b > a && s[a] == '[' && s[b - 1] == ']' {
        assert(b - a >= 2);
        assert(s@.subrange(a + 1, b - 1) =~= inner(t));
        if register_in_range(s, a + 1, b - 1).is_some() {
            return false;
        }
        if number_in_range(s, a + 1, b - 1).is_some() {
            return false;
        }
        let ws = contains_whitespace(s, a + 1, b - 1);
        return b - 1 == a + 1 || ws;
    }
    assert(!is_bracketed(t));
    let hex = has_radix_prefix(s, a, b, 'x');
    let bin = has_radix_prefix(s, a, b, 'b');
    let imm: Option<u32> = if hex || bin {
        number_in_range(s, a, b)
    } else {
        match parse_u32_range(s, a, b, 10) {
            Some(v) => Some(v),
            None => {
                let text = string_from_chars(&s[a..b]);
                let ts = text.as_str();
                let v = float_value(ts);
                proof {
                    assert(float_path(t));
                    assert(operand_reads_float(src));
                    lemma_float_reading(*float_value, ts, v);
                }
                v
            },
        }
    };
    assert(imm == immediate_of(t, fv));
    if imm.is_some() {
        return false;
    }
    let ws = contains_whitespace(s, a, b);
    let br = contains_bracket(s, a, b);
    !(b > a && !ws && !br)
}

/// The error of the operand text `s[lo..hi]`, where it is no operand (see
/// `operand_error`); `None` where it is one.
pub fn operand_range_error<F: Fn(&str) -> Option<u32>>(
    s: &[char],
    lo: usize,
    hi: usize,
    float_value: &F,
) -> (r: Option<String>)
    requires
        lo <= hi <= s@.len(),
        float_reader_ok(*float_value),
    ensures
        (r is Some) == operand_panics(
            s@.subrange(lo as int, hi as int),
            float_arg(*float_value, s@.subrange(lo as int, hi as int)),
        ),
        r matches Some(e) ==> e@ == operand_error(s@.subrange(lo as int, hi as int)),
{
    if !operand_range_stops(s, lo, hi, float_value) {
        return None;
    }
    let (a, b) = trim_bounds(s, lo, hi);
    let ghost t = s@.subrange(a as int, b as int);
    assert(t == trim(s@.subrange(lo as int, hi as int)));
    let mut e = if b > a && s[a] == '[' && s[b - 1] == ']' {
        string_from_str("Invalid address format: ")
    } else {
        string_from_str("Invalid or unknown operand: ")
    };
    let text = string_from_chars(&s[a..b]);
    push_str(&mut e, text.as_str());
    proof {
        reveal_strlit("Invalid address format: ");
        reveal_strlit("Invalid or unknown operand: ");
    }
    Some(e)
}

/// Parses an operand text. Leading and trailing whitespace is ignored; the
/// text is, in this order, a string literal in double quotes, a register
/// name, a flag name, an address in square brackets (a register, a number
/// or a label), an immediate (`0x` hexadecimal, `0b` binary, decimal, or a
/// floating-point number read by `float_value`), or else a label. A lone
/// quote, a bracketed text that is none of these, and a text that is no
/// label (empty, or holding whitespace or brackets) are errors (see
/// `operand_result`).
pub fn parse_operand<F: Fn(&str) -> Option<u32>>(input: &str, float_value: &F) -> (r: Result<
    Operand,
    String,
>)
    requires
        float_reader_ok(*float_value),
    ensures
        match operand_result(input@, float_arg(*float_value, input@)) {
            Ok(op) => r matches Ok(o) && o@ == op,
            Err(e) => r matches Err(msg) && msg@ == e,
        },
{
    let cs = chars_of(input);
    assert(cs@.subrange(0, cs@.len() as int) =~= cs@);
    match operand_range_error(cs.as_slice(), 0, cs.len(), float_value) {
        Some(e) => Err(e),
        None => Ok(parse_operand_range(cs.as_slice(), 0, cs.len(), float_value)),
    }
}

} // verus!
