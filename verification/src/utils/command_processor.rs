//! The first assembler and command runner: commands whose operands are of
//! the first format (16-bit immediates), their encoding into instruction
//! words, and the direct execution of a command on the CPU.

use vstd::prelude::*;
use crate::chips::cpu::CPU;
use crate::instructions::{
    aritmethic, bitwise, compare, executed, fpu_ok, machine, moves, FloatOp, Machine,
};
use crate::memory::main_memory::WorkMemory;
use crate::memory::registers::{Reg, CARRY_BIT, OVERFLOW_BIT};
use crate::text::{
    chars_equal_str, chars_of, copy_string, find_char, find_whitespace, first_index_of, push_str,
    same_text, string_from_chars, string_from_str, trim, trim_bounds,
};
use crate::utils::assembler::command_processor::{
    line_label, line_opcode, line_operands, line_rest, operands_after, opt_text, ws_head, ws_tail,
};
use crate::utils::assembler::encoder::{
    find_symbol, label_value, lookup, lowercase_of, reg_num, resolve_label, symbols_view,
    to_lowercase, Form,
};
use crate::utils::assembler::operands::OperandView as WideView;
use crate::utils::assembler::operands::Operand as WideOperand;
use crate::utils::operands::{operand16_of, parse_operand_range, Operand, OperandView};

verus! {

/// A command of the first format.
#[derive(Debug)]
pub struct Command {
    /// The mnemonic.
    pub opcode: String,
    /// The first operand, if present.
    pub operand1: Option<Operand>,
    /// The second operand, if present.
    pub operand2: Option<Operand>,
    /// The label on this line, if any.
    pub label: Option<String>,
}

/// The mathematical value of a `Command`.
pub struct CommandView {
    pub opcode: Seq<char>,
    pub operand1: Option<OperandView>,
    pub operand2: Option<OperandView>,
    pub label: Option<Seq<char>>,
}

/// The view of an optional operand.
pub open spec fn opt16(o: Option<Operand>) -> Option<OperandView> {
    match o {
        Some(op) => Some(op@),
        None => None,
    }
}

impl View for Command {
    type V = CommandView;

    open spec fn view(&self) -> CommandView {
        CommandView {
            opcode: self.opcode@,
            operand1: opt16(self.operand1),
            operand2: opt16(self.operand2),
            label: opt_text(self.label),
        }
    }
}

// ---------------------------------------------------------------------------
// Parsing
// ---------------------------------------------------------------------------

/// The operand a text gives, or none where it is no operand.
pub open spec fn operand_or_none(t: Seq<char>) -> Option<OperandView> {
    if t.len() == 0 {
        None
    } else {
        match operand16_of(t) {
            Ok(o) => Some(o),
            Err(_) => None,
        }
    }
}

/// The first two pieces of a text split at commas, each trimmed; the
/// second is absent without a comma.
pub open spec fn comma_pieces(s: Seq<char>) -> (Seq<char>, Option<Seq<char>>) {
    match first_index_of(s, ',') {
        None => (trim(s), None),
        Some(i) => {
            let rest = s.skip(i + 1);
            (
                trim(s.take(i)),
                Some(
                    trim(
                        match first_index_of(rest, ',') {
                            Some(j) => rest.take(j),
                            None => rest,
                        },
                    ),
                ),
            )
        },
    }
}

/// The operands of the first format in an operand text.
pub open spec fn operands16(o: Option<Seq<char>>) -> (Option<OperandView>, Option<OperandView>) {
    match o {
        None => (None, None),
        Some(t) => {
            let (p1, p2) = comma_pieces(t);
            (
                operand_or_none(p1),
                match p2 {
                    Some(q) => operand_or_none(q),
                    None => None,
                },
            )
        },
    }
}

/// What a line parses to: an optional `label:`, a mnemonic, and up to two
/// comma-separated operands (an operand that does not parse is dropped).
pub open spec fn command16_of(input: Seq<char>) -> Result<CommandView, Seq<char>> {
    let t = trim(input);
    if t.len() == 0 {
        Err("Empty command"@)
    } else {
        let label = line_label(t);
        let opcode = line_opcode(t);
        if opcode.len() == 0 && label is Some {
            Ok(CommandView { opcode: seq![], operand1: None, operand2: None, label })
        } else {
            let (o1, o2) = operands16(line_operands(t));
            Ok(CommandView { opcode, operand1: o1, operand2: o2, label })
        }
    }
}

/// The operand of the trimmed text `s[lo..hi]`, or none.
fn operand_or_none_in(s: &[char], lo: usize, hi: usize) -> (r: Option<Operand>)
    requires
        lo <= hi <= s@.len(),
    ensures
        opt16(r) == operand_or_none(trim(s@.subrange(lo as int, hi as int))),
{
    let (a, b) = trim_bounds(s, lo, hi);
    if a == b {
        return None;
    }
    match parse_operand_range(s, a, b) {
        Ok(o) => Some(o),
        Err(_) => None,
    }
}

/// Splits a trimmed line into its label, and the bounds of its opcode and
/// of the rest: `None` for a blank line.
#[verifier::rlimit(40)]
fn split16(s: &[char]) -> (r: Option<(Option<String>, usize, usize, usize)>)
    ensures
        r is None <==> trim(s@).len() == 0,
        r matches Some((label, ra, oe, rb)) ==> {
            &&& ra <= oe <= rb <= s@.len()
            &&& opt_text(label) == line_label(trim(s@))
            &&& s@.subrange(ra as int, oe as int) == line_opcode(trim(s@))
            &&& operands_after(s@, oe as int, rb as int) == line_operands(trim(s@))
        },
{
    let n = s.len();
    assert(s@.subrange(0, n as int) =~= s@);
    let (a, b) = trim_bounds(s, 0, n);
    let ghost t = s@.subrange(a as int, b as int);
    if a == b {
        return None;
    }
    let first_end = match find_whitespace(s, a, b) {
        Some(w) => w,
        None => b,
    };
    proof {
        crate::text::lemma_first_ws_index(t);
        assert(ws_head(t) =~= s@.subrange(a as int, first_end as int));
    }
    let has_label = first_end > a && s[first_end - 1] == ':';
    let (ra, rb) = if has_label {
        if first_end < b {
            assert(ws_tail(t) == Some(s@.subrange(first_end + 1, b as int)));
            (first_end + 1, b)
        } else {
            (b, b)
        }
    } else {
        (a, b)
    };
    let label: Option<String> = if has_label {
        assert(ws_head(t).drop_last() =~= s@.subrange(a as int, first_end - 1));
        Some(string_from_chars(&s[a..first_end - 1]))
    } else {
        None
    };
    let ghost rest = s@.subrange(ra as int, rb as int);
    assert(rest =~= line_rest(t));
    let op_end = match find_whitespace(s, ra, rb) {
        Some(w) => w,
        None => rb,
    };
    proof {
        crate::text::lemma_first_ws_index(rest);
        assert(ws_head(rest) =~= s@.subrange(ra as int, op_end as int));
        if op_end < rb {
            assert(ws_tail(rest) == Some(s@.subrange(op_end + 1, rb as int)));
        } else {
            assert(ws_tail(rest) is None);
        }
    }
    Some((label, ra, op_end, rb))
}

/// The operands in the operand text `s[oa..rb]`.
#[verifier::rlimit(80)]
#[verifier::spinoff_prover]
fn operands16_in(s: &[char], oa: usize, rb: usize) -> (r: (Option<Operand>, Option<Operand>))
    requires
        oa <= rb <= s@.len(),
    ensures
        (opt16(r.0), opt16(r.1)) == operands16(Some(s@.subrange(oa as int, rb as int))),
{
    let ghost o = s@.subrange(oa as int, rb as int);
    match find_char(s, oa, rb, ',') {
        None => (operand_or_none_in(s, oa, rb), None),
        Some(c1) => {
            proof {
                crate::text::lemma_first_index_of(o, ',');
                assert(o.take(c1 - oa) =~= s@.subrange(oa as int, c1 as int));
                assert(o.skip(c1 - oa + 1) =~= s@.subrange(c1 + 1, rb as int));
            }
            let ghost restv = s@.subrange(c1 + 1, rb as int);
            let end2 = match find_char(s, c1 + 1, rb, ',') {
                Some(c2) => {
                    proof {
                        crate::text::lemma_first_index_of(restv, ',');
                        assert(restv.take(c2 - c1 - 1) =~= s@.subrange(c1 + 1, c2 as int));
                    }
                    c2
                },
                None => rb,
            };
            (operand_or_none_in(s, oa, c1), operand_or_none_in(s, c1 + 1, end2))
        },
    }
}

/// Parses a line into a command of the first format: an optional
/// `label:`, a mnemonic, and up to two comma-separated operands; an
/// operand that does not parse is left out. A blank line is an error.
pub fn parse_command(input: &str) -> (r: Result<Command, String>)
    ensures
        match command16_of(input@) {
            Ok(c) => r matches Ok(cmd) && cmd@ == c,
            Err(e) => r matches Err(msg) && msg@ == e,
        },
{
    let cs = chars_of(input);
    let s = cs.as_slice();
    match split16(s) {
        None => Err(string_from_str("Empty command")),
        Some((label, ra, oe, rb)) => {
            let has_label = label.is_some();
            let opcode = string_from_chars(&s[ra..oe]);
            if oe == ra && has_label {
                assert(opcode@ =~= seq![]);
                Ok(Command { opcode, operand1: None, operand2: None, label })
            } else if oe < rb {
                let (operand1, operand2) = operands16_in(s, oe + 1, rb);
                Ok(Command { opcode, operand1, operand2, label })
            } else {
                Ok(Command { opcode, operand1: None, operand2: None, label })
            }
        },
    }
}

// ---------------------------------------------------------------------------
// Assembling
// ---------------------------------------------------------------------------

/// The opcode and operand form of a lower-case mnemonic of the first
/// format.
pub open spec fn mnemonic16(name: Seq<char>) -> Option<(u32, Form)> {
    if name == "movi"@ {
        Some((0x01u32, Form::RegImm))
    } else if name == "movw"@ {
        Some((0x02u32, Form::RegRegOrRegImm))
    } else if name == "lodi"@ {
        Some((0x03u32, Form::RegImm))
    } else if name == "lodw"@ {
        Some((0x04u32, Form::RegAddr))
    } else if name == "stri"@ {
        Some((0x05u32, Form::AddrImm))
    } else if name == "strw"@ {
        Some((0x06u32, Form::AddrRegOrAddrImm))
    } else if name == "push"@ {
        Some((0x07u32, Form::RegOrImm))
    } else if name == "pop"@ {
        Some((0x08u32, Form::Reg))
    } else if name == "xcgh"@ {
        Some((0x09u32, Form::RegReg))
    } else if name == "addw"@ {
        Some((0x10u32, Form::RegRegOrRegImm))
    } else if name == "subw"@ {
        Some((0x11u32, Form::RegRegOrRegImm))
    } else if name == "mul"@ {
        Some((0x12u32, Form::RegRegOrRegImm))
    } else if name == "inc"@ {
        Some((0x13u32, Form::Reg))
    } else if name == "dec"@ {
        Some((0x14u32, Form::Reg))
    } else if name == "neg"@ {
        Some((0x15u32, Form::Reg))
    } else if name == "not"@ {
        Some((0x20u32, Form::Reg))
    } else if name == "and"@ {
        Some((0x21u32, Form::RegRegOrRegImm))
    } else if name == "or"@ {
        Some((0x22u32, Form::RegRegOrRegImm))
    } else if name == "xor"@ {
        Some((0x23u32, Form::RegRegOrRegImm))
    } else if name == "cmpw"@ {
        Some((0x30u32, Form::RegRegOrRegImm))
    } else if name == "jmp"@ {
        Some((0x40u32, Form::Addr))
    } else if name == "call"@ {
        Some((0x41u32, Form::Addr))
    } else if name == "ret"@ {
        Some((0x42u32, Form::Bare))
    } else if name == "je"@ {
        Some((0x43u32, Form::Addr))
    } else if name == "jne"@ {
        Some((0x44u32, Form::Addr))
    } else if name == "jgt"@ {
        Some((0x45u32, Form::Addr))
    } else if name == "jge"@ {
        Some((0x46u32, Form::Addr))
    } else if name == "jlt"@ {
        Some((0x47u32, Form::Addr))
    } else if name == "jle"@ {
        Some((0x48u32, Form::Addr))
    } else if name == "js"@ {
        Some((0x49u32, Form::Addr))
    } else if name == "jco"@ {
        Some((0x4Au32, Form::Addr))
    } else {
        None
    }
}

fn mnemonic16_of(name: &str) -> (r: Option<(u32, Form)>)
    ensures
        r == mnemonic16(name@),
{
    let v = chars_of(name);
    let n = v.as_slice();
    if chars_equal_str(n, "movi") {
        Some((0x01u32, Form::RegImm))
    } else if chars_equal_str(n, "movw") {
        Some((0x02u32, Form::RegRegOrRegImm))
    } else if chars_equal_str(n, "lodi") {
        Some((0x03u32, Form::RegImm))
    } else if chars_equal_str(n, "lodw") {
        Some((0x04u32, Form::RegAddr))
    } else if chars_equal_str(n, "stri") {
        Some((0x05u32, Form::AddrImm))
    } else if chars_equal_str(n, "strw") {
        Some((0x06u32, Form::AddrRegOrAddrImm))
    } else if chars_equal_str(n, "push") {
        Some((0x07u32, Form::RegOrImm))
    } else if chars_equal_str(n, "pop") {
        Some((0x08u32, Form::Reg))
    } else if chars_equal_str(n, "xcgh") {
        Some((0x09u32, Form::RegReg))
    } else if chars_equal_str(n, "addw") {
        Some((0x10u32, Form::RegRegOrRegImm))
    } else if chars_equal_str(n, "subw") {
        Some((0x11u32, Form::RegRegOrRegImm))
    } else if chars_equal_str(n, "mul") {
        Some((0x12u32, Form::RegRegOrRegImm))
    } else if chars_equal_str(n, "inc") {
        Some((0x13u32, Form::Reg))
    } else if chars_equal_str(n, "dec") {
        Some((0x14u32, Form::Reg))
    } else if chars_equal_str(n, "neg") {
        Some((0x15u32, Form::Reg))
    } else if chars_equal_str(n, "not") {
        Some((0x20u32, Form::Reg))
    } else if chars_equal_str(n, "and") {
        Some((0x21u32, Form::RegRegOrRegImm))
    } else if chars_equal_str(n, "or") {
        Some((0x22u32, Form::RegRegOrRegImm))
    } else if chars_equal_str(n, "xor") {
        Some((0x23u32, Form::RegRegOrRegImm))
    } else if chars_equal_str(n, "cmpw") {
        Some((0x30u32, Form::RegRegOrRegImm))
    } else if chars_equal_str(n, "jmp") {
        Some((0x40u32, Form::Addr))
    } else if chars_equal_str(n, "call") {
        Some((0x41u32, Form::Addr))
    } else if chars_equal_str(n, "ret") {
        Some((0x42u32, Form::Bare))
    } else if chars_equal_str(n, "je") {
        Some((0x43u32, Form::Addr))
    } else if chars_equal_str(n, "jne") {
        Some((0x44u32, Form::Addr))
    } else if chars_equal_str(n, "jgt") {
        Some((0x45u32, Form::Addr))
    } else if chars_equal_str(n, "jge") {
        Some((0x46u32, Form::Addr))
    } else if chars_equal_str(n, "jlt") {
        Some((0x47u32, Form::Addr))
    } else if chars_equal_str(n, "jle") {
        Some((0x48u32, Form::Addr))
    } else if chars_equal_str(n, "js") {
        Some((0x49u32, Form::Addr))
    } else if chars_equal_str(n, "jco") {
        Some((0x4Au32, Form::Addr))
    } else {
        None
    }
}

/// The address of an operand that names one: an address or a label's
/// value; `bad` otherwise.
pub open spec fn address16(o: OperandView, syms: Seq<(Seq<char>, u32)>, bad: Seq<char>) -> Result<u32, Seq<char>> {
    match o {
        OperandView::Address(a) => Ok(a),
        OperandView::Label(l) => label_value(syms, l),
        _ => Err(bad),
    }
}

/// The instruction word of an opcode in a form, from operands of the first
/// format.
pub open spec fn form16_word(
    opcode: u32,
    form: Form,
    op1: Option<OperandView>,
    op2: Option<OperandView>,
    syms: Seq<(Seq<char>, u32)>,
) -> Result<u32, Seq<char>> {
    match form {
        Form::RegImm => match (op1, op2) {
            (Some(OperandView::Register(r)), Some(OperandView::Immediate(i))) => Ok(
                (opcode << 24u32) | ((r.number() as u32) << 16u32) | ((i as u32) & 0xFFFF),
            ),
            _ => Err("Invalid operands for register-immediate instruction"@),
        },
        Form::RegReg => match (op1, op2) {
            (Some(OperandView::Register(a)), Some(OperandView::Register(b))) => Ok(
                (opcode << 24u32) | ((a.number() as u32) << 16u32) | ((b.number() as u32) << 8u32),
            ),
            _ => Err("Invalid operands for register-register instruction"@),
        },
        Form::RegRegOrRegImm => match op1 {
            Some(OperandView::Register(a)) => match op2 {
                Some(OperandView::Register(b)) => Ok(
                    (opcode << 24u32) | ((a.number() as u32) << 16u32) | ((b.number() as u32)
                        << 8u32) | 1u32,
                ),
                Some(OperandView::Immediate(i)) => Ok(
                    (opcode << 24u32) | ((a.number() as u32) << 16u32) | ((i as u32) & 0xFFFF),
                ),
                _ => Err("Invalid second operand"@),
            },
            _ => Err("Invalid first operand"@),
        },
        Form::Reg => match op1 {
            Some(OperandView::Register(r)) => Ok((opcode << 24u32) | ((r.number() as u32) << 16u32)),
            _ => Err("Invalid operand for register instruction"@),
        },
        Form::Addr => match op1 {
            None => Err("Missing operand for address instruction"@),
            Some(o) => {
                let a = match o {
                    OperandView::Immediate(i) => Ok(i as u32),
                    _ => address16(o, syms, "Invalid operand for address instruction"@),
                };
                match a {
                    Ok(a) => Ok((opcode << 24u32) | (a & 0xFFFFFF)),
                    Err(e) => Err(e),
                }
            },
        },
        Form::RegAddr => match op1 {
            Some(OperandView::Register(r)) => match op2 {
                None => Err("Missing second operand for register-address instruction"@),
                Some(o) => match address16(
                    o,
                    syms,
                    "Invalid second operand for register-address instruction"@,
                ) {
                    Ok(a) => Ok((opcode << 24u32) | ((r.number() as u32) << 16u32) | (a & 0xFFFF)),
                    Err(e) => Err(e),
                },
            },
            _ => Err("Invalid first operand for register-address instruction"@),
        },
        Form::AddrImm => match op1 {
            None => Err("Missing first operand for address-immediate instruction"@),
            Some(o) => match address16(
                o,
                syms,
                "Invalid first operand for address-immediate instruction"@,
            ) {
                Err(e) => Err(e),
                Ok(a) => match op2 {
                    Some(OperandView::Immediate(i)) => Ok(
                        (opcode << 24u32) | ((a & 0xFF) << 16u32) | ((i as u32) & 0xFFFF),
                    ),
                    _ => Err("Invalid second operand for address-immediate instruction"@),
                },
            },
        },
        Form::AddrRegOrAddrImm => match op1 {
            None => Err("Invalid first operand"@),
            Some(o) => match address16(o, syms, "Invalid first operand"@) {
                Err(e) => Err(e),
                Ok(a) => match op2 {
                    Some(OperandView::Register(r)) => Ok(
                        (opcode << 24u32) | ((a & 0xFF) << 16u32) | ((r.number() as u32) << 8u32)
                            | 1u32,
                    ),
                    Some(OperandView::Immediate(i)) => Ok(
                        (opcode << 24u32) | ((a & 0xFF) << 16u32) | ((i as u32) & 0xFFFF),
                    ),
                    _ => Err("Invalid second operand"@),
                },
            },
        },
        Form::RegOrImm => match op1 {
            None => Err("Missing operand"@),
            Some(OperandView::Register(r)) => Ok(
                (opcode << 24u32) | ((r.number() as u32) << 16u32) | 1u32,
            ),
            Some(OperandView::Immediate(i)) => Ok((opcode << 24u32) | ((i as u32) & 0xFFFF)),
            Some(_) => Err("Invalid operand"@),
        },
        Form::Flag => Err("Invalid operand"@),
        Form::Bare => Ok(opcode << 24u32),
    }
}

/// The instruction word of a command of the first format.
pub open spec fn command16_word(c: CommandView, syms: Seq<(Seq<char>, u32)>) -> Result<u32, Seq<char>> {
    let name = lowercase_of(c.opcode);
    match mnemonic16(name) {
        Some((opcode, form)) => form16_word(opcode, form, c.operand1, c.operand2, syms),
        None => Err("Unsupported instruction: "@ + name),
    }
}

/// The address of an operand (see `address16`).
fn address16_of(o: &Operand, table: &Vec<(String, u32)>, bad: &str) -> (r: Result<u32, String>)
    ensures
        match address16(o@, symbols_view(table@), bad@) {
            Ok(a) => r == Ok::<u32, String>(a),
            Err(e) => r matches Err(msg) && msg@ == e,
        },
{
    match o {
        Operand::Address(a) => Ok(*a),
        Operand::Label(l) => resolve_label(table, l),
        _ => Err(string_from_str(bad)),
    }
}

/// The view of an optional operand reference.
pub open spec fn ref16(o: Option<&Operand>) -> Option<OperandView> {
    match o {
        Some(op) => Some(op@),
        None => None,
    }
}

/// Encodes an opcode in a form (see `form16_word`).
#[verifier::rlimit(60)]
fn encode16(
    opcode: u32,
    form: Form,
    op1: Option<&Operand>,
    op2: Option<&Operand>,
    table: &Vec<(String, u32)>,
) -> (r: Result<u32, String>)
    requires
        opcode <= 0xFF,
    ensures
        match form16_word(opcode, form, ref16(op1), ref16(op2), symbols_view(table@)) {
            Ok(w) => r == Ok::<u32, String>(w),
            Err(e) => r matches Err(msg) && msg@ == e,
        },
{
    match form {
        Form::RegImm => match (op1, op2) {
            (Some(Operand::Register(r)), Some(Operand::Immediate(i))) => Ok(
                (opcode << 24u32) | (reg_num(r) << 16u32) | ((*i as u32) & 0xFFFF),
            ),
            _ => Err(string_from_str("Invalid operands for register-immediate instruction")),
        },
        Form::RegReg => match (op1, op2) {
            (Some(Operand::Register(a)), Some(Operand::Register(b))) => Ok(
                (opcode << 24u32) | (reg_num(a) << 16u32) | (reg_num(b) << 8u32),
            ),
            _ => Err(string_from_str("Invalid operands for register-register instruction")),
        },
        Form::RegRegOrRegImm => match op1 {
            Some(Operand::Register(a)) => match op2 {
                Some(Operand::Register(b)) => Ok(
                    (opcode << 24u32) | (reg_num(a) << 16u32) | (reg_num(b) << 8u32) | 1u32,
                ),
                Some(Operand::Immediate(i)) => Ok(
                    (opcode << 24u32) | (reg_num(a) << 16u32) | ((*i as u32) & 0xFFFF),
                ),
                _ => Err(string_from_str("Invalid second operand")),
            },
            _ => Err(string_from_str("Invalid first operand")),
        },
        Form::Reg => match op1 {
            Some(Operand::Register(r)) => Ok((opcode << 24u32) | (reg_num(r) << 16u32)),
            _ => Err(string_from_str("Invalid operand for register instruction")),
        },
        Form::Addr => match op1 {
            None => Err(string_from_str("Missing operand for address instruction")),
            Some(o) => {
                let a = match o {
                    Operand::Immediate(i) => Ok(*i as u32),
                    _ => address16_of(o, table, "Invalid operand for address instruction"),
                };
                match a {
                    Ok(a) => Ok((opcode << 24u32) | (a & 0xFFFFFF)),
                    Err(e) => Err(e),
                }
            },
        },
        Form::RegAddr => match op1 {
            Some(Operand::Register(r)) => match op2 {
                None => Err(string_from_str("Missing second operand for register-address instruction")),
                Some(o) => match address16_of(
                    o,
                    table,
                    "Invalid second operand for register-address instruction",
                ) {
                    Ok(a) => Ok((opcode << 24u32) | (reg_num(r) << 16u32) | (a & 0xFFFF)),
                    Err(e) => Err(e),
                },
            },
            _ => Err(string_from_str("Invalid first operand for register-address instruction")),
        },
        Form::AddrImm => match op1 {
            None => Err(string_from_str("Missing first operand for address-immediate instruction")),
            Some(o) => match address16_of(
                o,
                table,
                "Invalid first operand for address-immediate instruction",
            ) {
                Err(e) => Err(e),
                Ok(a) => match op2 {
                    Some(Operand::Immediate(i)) => Ok(
                        (opcode << 24u32) | ((a & 0xFF) << 16u32) | ((*i as u32) & 0xFFFF),
                    ),
                    _ => Err(
                        string_from_str("Invalid second operand for address-immediate instruction"),
                    ),
                },
            },
        },
        Form::AddrRegOrAddrImm => match op1 {
            None => Err(string_from_str("Invalid first operand")),
            Some(o) => match address16_of(o, table, "Invalid first operand") {
                Err(e) => Err(e),
                Ok(a) => match op2 {
                    Some(Operand::Register(r)) => Ok(
                        (opcode << 24u32) | ((a & 0xFF) << 16u32) | (reg_num(r) << 8u32) | 1u32,
                    ),
                    Some(Operand::Immediate(i)) => Ok(
                        (opcode << 24u32) | ((a & 0xFF) << 16u32) | ((*i as u32) & 0xFFFF),
                    ),
                    _ => Err(string_from_str("Invalid second operand")),
                },
            },
        },
        Form::RegOrImm => match op1 {
            None => Err(string_from_str("Missing operand")),
            Some(Operand::Register(r)) => Ok((opcode << 24u32) | (reg_num(r) << 16u32) | 1u32),
            Some(Operand::Immediate(i)) => Ok((opcode << 24u32) | ((*i as u32) & 0xFFFF)),
            Some(_) => Err(string_from_str("Invalid operand")),
        },
        Form::Flag => Err(string_from_str("Invalid operand")),
        Form::Bare => Ok(opcode << 24u32),
    }
}

/// Encodes a command of the first format.
pub fn assemble_instruction(command: &Command, table: &Vec<(String, u32)>) -> (r: Result<
    u32,
    String,
>)
    ensures
        match command16_word(command@, symbols_view(table@)) {
            Ok(w) => r == Ok::<u32, String>(w),
            Err(e) => r matches Err(msg) && msg@ == e,
        },
{
    let name = to_lowercase(command.opcode.as_str());
    match mnemonic16_of(name.as_str()) {
        Some((opcode, form)) => encode16(
            opcode,
            form,
            command.operand1.as_ref(),
            command.operand2.as_ref(),
            table,
        ),
        None => {
            let mut e = string_from_str("Unsupported instruction: ");
            push_str(&mut e, name.as_str());
            Err(e)
        },
    }
}

// ---------------------------------------------------------------------------
// Assembling a program
// ---------------------------------------------------------------------------

/// The views of a list of commands.
pub open spec fn command16_views(v: Seq<Command>) -> Seq<CommandView> {
    v.map_values(|c: Command| c@)
}

/// The symbol table and address after a command: its label (an error if
/// already defined) takes the address, which a mnemonic then moves on by 4.
pub open spec fn label16_step(st: (Seq<(Seq<char>, u32)>, u32), c: CommandView) -> Result<
    (Seq<(Seq<char>, u32)>, u32),
    Seq<char>,
> {
    let (syms, addr) = st;
    let labeled = match c.label {
        Some(l) => if lookup(syms, l) is Some {
            Err("Duplicate label: "@ + l)
        } else {
            Ok(syms.push((l, addr)))
        },
        None => Ok(syms),
    };
    match labeled {
        Err(e) => Err(e),
        Ok(s2) => Ok(
            (
                s2,
                if c.opcode.len() > 0 {
                    (addr + 4) as u32
                } else {
                    addr
                },
            ),
        ),
    }
}

/// Whether a command's four bytes overflow the address counter.
pub open spec fn label16_step_stops(st: (Seq<(Seq<char>, u32)>, u32), c: CommandView) -> bool {
    label16_step(st, c) is Ok && c.opcode.len() > 0 && st.1 + 4 > u32::MAX
}

/// The symbol table and end address after the first pass.
pub open spec fn labels16(cmds: Seq<CommandView>) -> Result<(Seq<(Seq<char>, u32)>, u32), Seq<char>>
    decreases cmds.len(),
{
    if cmds.len() == 0 {
        Ok((seq![], 0))
    } else {
        match labels16(cmds.drop_last()) {
            Ok(st) => label16_step(st, cmds.last()),
            Err(e) => Err(e),
        }
    }
}

/// Whether a command stops the first pass that has come to `r`.
pub open spec fn labels16_stops_after(r: Result<(Seq<(Seq<char>, u32)>, u32), Seq<char>>, c: CommandView) -> bool {
    match r {
        Ok(st) => label16_step_stops(st, c),
        Err(_) => false,
    }
}

/// Whether the first pass overflows the address counter.
pub open spec fn labels16_stops(cmds: Seq<CommandView>) -> bool {
    exists|i: int| 0 <= i < cmds.len() && labels16_stops_after(#[trigger] labels16(cmds.take(i)), cmds[i])
}

/// The words of the commands with a mnemonic, in order; the first error
/// ends it.
pub open spec fn code16(cmds: Seq<CommandView>, syms: Seq<(Seq<char>, u32)>) -> Result<Seq<u32>, Seq<char>>
    decreases cmds.len(),
{
    if cmds.len() == 0 {
        Ok(seq![])
    } else {
        match code16(cmds.drop_last(), syms) {
            Err(e) => Err(e),
            Ok(words) => if cmds.last().opcode.len() == 0 {
                Ok(words)
            } else {
                match command16_word(cmds.last(), syms) {
                    Ok(w) => Ok(words.push(w)),
                    Err(e) => Err(e),
                }
            },
        }
    }
}

/// The program a list of commands assembles to.
pub open spec fn program16(cmds: Seq<CommandView>) -> Result<Seq<u32>, Seq<char>> {
    match labels16(cmds) {
        Err(e) => Err(e),
        Ok((syms, _)) => code16(cmds, syms),
    }
}

proof fn lemma_labels16_err(cmds: Seq<CommandView>, i: int)
    requires
        0 <= i <= cmds.len(),
        labels16(cmds.take(i)) is Err,
    ensures
        labels16(cmds) == labels16(cmds.take(i)),
    decreases cmds.len() - i,
{
    if i == cmds.len() {
        assert(cmds.take(i) =~= cmds);
    } else {
        assert(cmds.take(i + 1).drop_last() =~= cmds.take(i));
        lemma_labels16_err(cmds, i + 1);
    }
}

proof fn lemma_code16_err(cmds: Seq<CommandView>, syms: Seq<(Seq<char>, u32)>, i: int)
    requires
        0 <= i <= cmds.len(),
        code16(cmds.take(i), syms) is Err,
    ensures
        code16(cmds, syms) == code16(cmds.take(i), syms),
    decreases cmds.len() - i,
{
    if i == cmds.len() {
        assert(cmds.take(i) =~= cmds);
    } else {
        assert(cmds.take(i + 1).drop_last() =~= cmds.take(i));
        lemma_code16_err(cmds, syms, i + 1);
    }
}

/// Whether a command has a mnemonic.
fn has_opcode(c: &Command) -> (r: bool)
    ensures
        r == (c@.opcode.len() > 0),
{
    chars_of(c.opcode.as_str()).len() > 0
}

/// Assembles commands of the first format: labels take the address of
/// their line (four bytes per instruction), then each instruction is
/// encoded. `Err` gives the first duplicate label, unknown label,
/// unsupported mnemonic or bad operand.
pub fn assemble_program(commands: &[Command]) -> (r: Result<Vec<u32>, String>)
    requires
        !labels16_stops(command16_views(commands@)),
    ensures
        match program16(command16_views(commands@)) {
            Ok(words) => r matches Ok(v) && v@ == words,
            Err(e) => r matches Err(msg) && msg@ == e,
        },
{
    let ghost cmds = command16_views(commands@);
    let mut table: Vec<(String, u32)> = Vec::new();
    let mut address: u32 = 0;
    assert(cmds.take(0) =~= seq![]);
    assert(symbols_view(table@) =~= seq![]);
    let mut i: usize = 0;
    while i < commands.len()
        invariant
            i <= commands@.len(),
            cmds == command16_views(commands@),
            !labels16_stops(cmds),
            labels16(cmds.take(i as int)) == Ok::<(Seq<(Seq<char>, u32)>, u32), Seq<char>>(
                (symbols_view(table@), address),
            ),
        decreases commands.len() - i,
    {
        let c = &commands[i];
        assert(cmds.take(i + 1).drop_last() =~= cmds.take(i as int));
        assert(cmds[i as int] == c@);
        assert(!labels16_stops_after(labels16(cmds.take(i as int)), cmds[i as int]));
        match &c.label {
            Some(l) => {
                if find_symbol(&table, l).is_some() {
                    let mut e = string_from_str("Duplicate label: ");
                    push_str(&mut e, l.as_str());
                    proof {
                        lemma_labels16_err(cmds, i + 1);
                    }
                    return Err(e);
                }
                let ghost t0 = table@;
                table.push((copy_string(l), address));
                assert(symbols_view(table@) =~= symbols_view(t0).push((l@, address)));
            },
            None => {},
        }
        if has_opcode(c) {
            address = address + 4;
        }
        i = i + 1;
    }
    assert(cmds.take(commands@.len() as int) =~= cmds);
    let ghost syms = symbols_view(table@);
    let mut code: Vec<u32> = Vec::new();
    let mut j: usize = 0;
    while j < commands.len()
        invariant
            j <= commands@.len(),
            cmds == command16_views(commands@),
            syms == symbols_view(table@),
            labels16(cmds) == Ok::<(Seq<(Seq<char>, u32)>, u32), Seq<char>>((syms, address)),
            code16(cmds.take(j as int), syms) == Ok::<Seq<u32>, Seq<char>>(code@),
        decreases commands.len() - j,
    {
        let c = &commands[j];
        assert(cmds.take(j + 1).drop_last() =~= cmds.take(j as int));
        assert(cmds[j as int] == c@);
        if has_opcode(c) {
            match assemble_instruction(c, &table) {
                Ok(w) => {
                    code.push(w);
                },
                Err(e) => {
                    proof {
                        lemma_code16_err(cmds, syms, j + 1);
                    }
                    return Err(e);
                },
            }
        }
        j = j + 1;
    }
    assert(cmds.take(commands@.len() as int) =~= cmds);
    Ok(code)
}

// ---------------------------------------------------------------------------
// Running a command
// ---------------------------------------------------------------------------

/// An operand of the first format as an operand of the instruction set.
pub open spec fn widen(o: Option<OperandView>) -> WideView {
    match o {
        Some(OperandView::Register(r)) => WideView::Register(r),
        Some(OperandView::Immediate(i)) => WideView::Immediate(i as u32),
        Some(OperandView::Address(a)) => WideView::Address(a),
        Some(OperandView::Label(l)) => WideView::Label(l),
        Some(OperandView::Empty) => WideView::Empty,
        None => WideView::Empty,
    }
}

fn widen_operand(o: &Option<Operand>) -> (r: WideOperand)
    ensures
        r@ == widen(opt16(*o)),
{
    match o {
        Some(Operand::Register(r)) => WideOperand::Register(*r),
        Some(Operand::Immediate(i)) => WideOperand::Immediate(*i as u32),
        Some(Operand::Address(a)) => WideOperand::Address(*a),
        Some(Operand::Label(l)) => WideOperand::Label(copy_string(l)),
        Some(Operand::Empty) => WideOperand::Empty,
        None => WideOperand::Empty,
    }
}

/// What running a command does, by its mnemonic in lower case.
pub open spec fn command16_effect<F: Fn(FloatOp, u32, u32) -> u32>(
    m: Machine,
    c: CommandView,
    fpu: F,
) -> Result<(Machine, ()), Seq<char>> {
    let name = lowercase_of(c.opcode);
    let o1 = widen(c.operand1);
    let o2 = widen(c.operand2);
    if name == "movi"@ {
        moves::load_immediate(m, o1, o2, "MOVI requires register first operand"@, "MOVI requires immediate second operand"@)
    } else if name == "movw"@ {
        moves::movw_spec(m, o1, o2)
    } else if name == "lodi"@ {
        moves::load_immediate(m, o1, o2, "LODI requires register first operand"@, "LODI requires immediate second operand"@)
    } else if name == "lodw"@ {
        moves::lodw_spec(m, o1, o2)
    } else if name == "stri"@ {
        moves::stri_spec(m, o1, o2)
    } else if name == "strw"@ {
        moves::strw_spec(m, o1, o2)
    } else if name == "push"@ {
        moves::push_spec(m, o1)
    } else if name == "pop"@ {
        moves::pop_spec(m, o1)
    } else if name == "xcgh"@ {
        moves::xcgh_spec(m, o1, o2)
    } else if name == "addw"@ {
        aritmethic::addw_spec(m, o1, o2, fpu)
    } else if name == "dec"@ {
        aritmethic::dec_spec(m, o1, fpu)
    } else if name == "inc"@ {
        aritmethic::inc_spec(m, o1, fpu)
    } else if name == "neg"@ {
        aritmethic::neg_spec(m, o1, fpu)
    } else if name == "mul"@ {
        aritmethic::mul_spec(m, o1, o2, fpu)
    } else if name == "subw"@ {
        aritmethic::subw_spec(m, o1, o2, fpu)
    } else if name == "not"@ {
        bitwise::not_spec(m, o1)
    } else if name == "and"@ {
        bitwise::and_spec(m, o1, o2)
    } else if name == "or"@ {
        bitwise::or_spec(m, o1, o2)
    } else if name == "xor"@ {
        bitwise::xor_spec(m, o1, o2)
    } else if name == "cmpw"@ {
        compare::cmpw_spec(m, o1, o2, fpu)
    } else if name == "jmp"@ {
        compare::jmp_spec(m, o1)
    } else if name == "call"@ {
        compare::call_spec(m, o1)
    } else if name == "ret"@ {
        compare::ret_spec(m)
    } else if name == "je"@ {
        compare::jump_if(m, o1, compare::zero(m))
    } else if name == "jne"@ {
        compare::jump_if(m, o1, !compare::zero(m))
    } else if name == "jgt"@ {
        compare::jump_if(m, o1, !compare::zero(m) && !compare::sign(m))
    } else if name == "jge"@ {
        compare::jump_if(m, o1, !compare::sign(m))
    } else if name == "jlt"@ {
        compare::jump_if(m, o1, !compare::zero(m) && compare::sign(m))
    } else if name == "jle"@ {
        compare::jump_if(m, o1, compare::zero(m) || compare::sign(m))
    } else if name == "js"@ {
        compare::jump_if(m, o1, compare::sign(m))
    } else if name == "jco"@ {
        compare::jump_if(m, o1, m.regs.flag(CARRY_BIT) || m.regs.flag(OVERFLOW_BIT))
    } else if name.len() == 0 {
        Ok((m, ()))
    } else {
        Err("Unknown opcode: "@ + c.opcode)
    }
}

/// Runs a command on the CPU: the instruction its mnemonic names (in any
/// case), on its operands; a line with no mnemonic does nothing.
#[verifier::rlimit(80)]
pub fn execute_command<F: Fn(FloatOp, u32, u32) -> u32>(
    command: Command,
    cpu: &mut CPU,
    memory: &mut WorkMemory,
    fpu: &F,
) -> (r: Result<(), String>)
    requires
        old(memory).wf(),
        fpu_ok(*fpu),
    ensures
        executed(
            *old(cpu),
            *old(memory),
            *final(cpu),
            *final(memory),
            r,
            command16_effect(machine(*old(cpu), *old(memory)), command@, *fpu),
        ),
{
    let op1 = widen_operand(&command.operand1);
    let op2 = widen_operand(&command.operand2);
    let name = to_lowercase(command.opcode.as_str());
    let v = chars_of(name.as_str());
    let n = v.as_slice();
    if chars_equal_str(n, "movi") {
        moves::execute_movi(cpu, &op1, &op2, memory)
    } else if chars_equal_str(n, "movw") {
        moves::execute_movw(cpu, &op1, &op2, memory)
    } else if chars_equal_str(n, "lodi") {
        moves::execute_lodi(cpu, &op1, &op2, memory)
    } else if chars_equal_str(n, "lodw") {
        moves::execute_lodw(cpu, &op1, &op2, memory)
    } else if chars_equal_str(n, "stri") {
        moves::execute_stri(cpu, &op1, &op2, memory)
    } else if chars_equal_str(n, "strw") {
        moves::execute_strw(cpu, &op1, &op2, memory)
    } else if chars_equal_str(n, "push") {
        moves::execute_push(cpu, &op1, &op2, memory)
    } else if chars_equal_str(n, "pop") {
        moves::execute_pop(cpu, &op1, &op2, memory)
    } else if chars_equal_str(n, "xcgh") {
        moves::execute_xcgh(cpu, &op1, &op2, memory)
    } else if chars_equal_str(n, "addw") {
        aritmethic::execute_addw_instruction(cpu, &op1, &op2, memory, fpu)
    } else if chars_equal_str(n, "dec") {
        aritmethic::execute_dec_instruction(cpu, &op1, &op2, memory, fpu)
    } else if chars_equal_str(n, "inc") {
        aritmethic::execute_inc_instruction(cpu, &op1, &op2, memory, fpu)
    } else if chars_equal_str(n, "neg") {
        aritmethic::execute_neg_instruction(cpu, &op1, &op2, memory, fpu)
    } else if chars_equal_str(n, "mul") {
        aritmethic::execute_mul_instruction(cpu, &op1, &op2, memory, fpu)
    } else if chars_equal_str(n, "subw") {
        aritmethic::execute_subw_instruction(cpu, &op1, &op2, memory, fpu)
    } else if chars_equal_str(n, "not") {
        bitwise::execute_not_instruction(cpu, &op1, &op2, memory)
    } else if chars_equal_str(n, "and") {
        bitwise::execute_and_instruction(cpu, &op1, &op2, memory)
    } else if chars_equal_str(n, "or") {
        bitwise::execute_or_instruction(cpu, &op1, &op2, memory)
    } else if chars_equal_str(n, "xor") {
        bitwise::execute_xor_instruction(cpu, &op1, &op2, memory)
    } else if chars_equal_str(n, "cmpw") {
        compare::execute_cmpw(cpu, &op1, &op2, memory, fpu)
    } else if chars_equal_str(n, "jmp") {
        compare::execute_jmp(cpu, &op1, &op2, memory)
    } else if chars_equal_str(n, "call") {
        compare::execute_call(cpu, &op1, &op2, memory)
    } else if chars_equal_str(n, "ret") {
        compare::execute_ret(cpu, &op1, &op2, memory)
    } else if chars_equal_str(n, "je") {
        compare::execute_je(cpu, &op1, &op2, memory)
    } else if chars_equal_str(n, "jne") {
        compare::execute_jne(cpu, &op1, &op2, memory)
    } else if chars_equal_str(n, "jgt") {
        compare::execute_jgt(cpu, &op1, &op2, memory)
    } else if chars_equal_str(n, "jge") {
        compare::execute_jge(cpu, &op1, &op2, memory)
    } else if chars_equal_str(n, "jlt") {
        compare::execute_jlt(cpu, &op1, &op2, memory)
    } else if chars_equal_str(n, "jle") {
        compare::execute_jle(cpu, &op1, &op2, memory)
    } else if chars_equal_str(n, "js") {
        compare::execute_js(cpu, &op1, &op2, memory)
    } else if chars_equal_str(n, "jco") {
        compare::execute_jco(cpu, &op1, &op2, memory)
    } else if n.len() == 0 {
        Ok(())
    } else {
        let mut e = string_from_str("Unknown opcode: ");
        push_str(&mut e, command.opcode.as_str());
        Err(e)
    }
}

} // verus!
