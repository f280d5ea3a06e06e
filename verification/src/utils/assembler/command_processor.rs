//! Parsing of assembly lines into commands, and the two-pass assembler that
//! turns commands into machine code and data.

use vstd::prelude::*;
use crate::memory::registers::Reg;
use crate::text::{
    chars_of, copy_string, find_char, find_whitespace, first_index_of, first_ws_index,
    lemma_first_index_of, range_equals, string_from_chars, string_from_str, trim, trim_bounds,
};
use crate::text::{copy_string as copy_text, dec_text, hex_text, push_dec, push_hex, push_str as push_text, result_is, same_text, starts_with_char, text_is};
use crate::utils::assembler::encoder::{
    assemble_data, assemble_instruction, bitv_overflows, command_word, data_bytes, get_instruction_or_data_size, item_size, lookup,
    symbols_view,
};
use crate::utils::assembler::operands::{
    clone_opt, float_arg, float_reader_ok, opt_view, operand_of, operand_panics,
    operand_error, operand_range_error, parse_operand_range, Operand, OperandView,
};

verus! {

/// A macro definition in assembly code.
#[derive(Debug)]
pub struct Macro {
    /// The name of the macro.
    pub name: String,
    /// The arguments the macro accepts.
    pub args: Vec<String>,
    /// The body of the macro.
    pub body: Vec<Command>,
}

/// A single assembly command or directive.
#[derive(Debug)]
pub struct Command {
    /// The opcode or directive name (e.g., "MOVI", ".word").
    pub opcode: String,
    /// The first operand, if present.
    pub operand1: Option<Operand>,
    /// The second operand, if present.
    pub operand2: Option<Operand>,
    /// The label on this line, if any.
    pub label: Option<String>,
    /// The name of the macro, for a macro definition.
    pub macro_name: Option<String>,
    /// The arguments of the macro, for a macro definition.
    pub macro_args: Option<Vec<String>>,
    /// The start of the text segment, set by `.text_start`.
    pub text_start_address: Option<u32>,
    /// The start of the stack segment, set by `.stack_start`.
    pub stack_start_address: Option<u32>,
    /// The size of the stack segment, set by `.stack_size`.
    pub stack_segment_size: Option<u32>,
}

/// The section of assembly code being assembled.
#[derive(Debug, Clone, Copy, PartialEq, Eq, Structural)]
pub enum Section {
    /// The text (code) section.
    Text,
    /// The data section.
    Data,
}

/// An assembled program: machine code, data, and the segment layout.
#[derive(Debug, Default, Clone)]
pub struct AssembledProgram {
    /// The machine code instructions.
    pub text: Vec<u32>,
    /// The initialized data.
    pub data: Vec<u8>,
    /// The starting address of the text segment.
    pub actual_text_start: u32,
    /// The starting address of the data segment.
    pub actual_data_start: u32,
    /// The starting address of the stack segment.
    pub actual_stack_start: u32,
    /// The size of the stack segment.
    pub actual_stack_size: u32,
}

/// The mathematical value of a `Command`.
pub struct CommandView {
    pub opcode: Seq<char>,
    pub operand1: Option<OperandView>,
    pub operand2: Option<OperandView>,
    pub label: Option<Seq<char>>,
    pub macro_name: Option<Seq<char>>,
    pub macro_args: Option<Seq<Seq<char>>>,
    pub text_start_address: Option<u32>,
    pub stack_start_address: Option<u32>,
    pub stack_segment_size: Option<u32>,
}

/// The view of an optional string.
pub open spec fn opt_text(s: Option<String>) -> Option<Seq<char>> {
    match s {
        Some(t) => Some(t@),
        None => None,
    }
}

/// The texts of a list of strings.
pub open spec fn texts(v: Seq<String>) -> Seq<Seq<char>> {
    v.map_values(|s: String| s@)
}

impl View for Command {
    type V = CommandView;

    open spec fn view(&self) -> CommandView {
        CommandView {
            opcode: self.opcode@,
            operand1: opt_view(self.operand1),
            operand2: opt_view(self.operand2),
            label: opt_text(self.label),
            macro_name: opt_text(self.macro_name),
            macro_args: match self.macro_args {
                Some(a) => Some(texts(a@)),
                None => None,
            },
            text_start_address: self.text_start_address,
            stack_start_address: self.stack_start_address,
            stack_segment_size: self.stack_segment_size,
        }
    }
}

/// A copy of an optional string.
pub fn clone_opt_string(s: &Option<String>) -> (r: Option<String>)
    ensures
        opt_text(r) == opt_text(*s),
{
    match s {
        Some(t) => Some(copy_string(t)),
        None => None,
    }
}

/// A copy of a list of strings.
pub fn clone_strings(v: &Vec<String>) -> (r: Vec<String>)
    ensures
        texts(r@) == texts(v@),
{
    let mut r: Vec<String> = Vec::new();
    let mut i: usize = 0;
    while i < v.len()
        invariant
            i <= v@.len(),
            r@.len() == i,
            forall|j: int| 0 <= j < i ==> #[trigger] r@[j]@ == v@[j]@,
        decreases v.len() - i,
    {
        r.push(copy_string(&v[i]));
        i = i + 1;
    }
    assert(texts(r@) =~= texts(v@));
    r
}

impl Clone for Command {
    fn clone(&self) -> (r: Self)
        ensures
            r@ == self@,
    {
        Command {
            opcode: copy_string(&self.opcode),
            operand1: clone_opt(&self.operand1),
            operand2: clone_opt(&self.operand2),
            label: clone_opt_string(&self.label),
            macro_name: clone_opt_string(&self.macro_name),
            macro_args: match &self.macro_args {
                Some(a) => Some(clone_strings(a)),
                None => None,
            },
            text_start_address: self.text_start_address,
            stack_start_address: self.stack_start_address,
            stack_segment_size: self.stack_segment_size,
        }
    }
}

// ---------------------------------------------------------------------------
// Specification of line parsing
// ---------------------------------------------------------------------------

/// The line up to its first `;`.
pub open spec fn strip_comment(s: Seq<char>) -> Seq<char> {
    match first_index_of(s, ';') {
        Some(i) => s.take(i),
        None => s,
    }
}

/// The first piece of `s.splitn(2, char::is_whitespace)`.
pub open spec fn ws_head(s: Seq<char>) -> Seq<char> {
    match first_ws_index(s) {
        Some(i) => s.take(i),
        None => s,
    }
}

/// The second piece of `s.splitn(2, char::is_whitespace)`, if any.
pub open spec fn ws_tail(s: Seq<char>) -> Option<Seq<char>> {
    match first_ws_index(s) {
        Some(i) => Some(s.skip(i + 1)),
        None => None,
    }
}

/// The label of a trimmed line, if its first word ends with `:`.
pub open spec fn line_label(t: Seq<char>) -> Option<Seq<char>> {
    let first = ws_head(t);
    if first.len() > 0 && first.last() == ':' {
        Some(first.drop_last())
    } else {
        None
    }
}

/// A trimmed line without its label.
pub open spec fn line_rest(t: Seq<char>) -> Seq<char> {
    if line_label(t) is Some {
        match ws_tail(t) {
            Some(r) => r,
            None => seq![],
        }
    } else {
        t
    }
}

/// A command with the given opcode and label and nothing else.
pub open spec fn bare_command(opcode: Seq<char>, label: Option<Seq<char>>) -> CommandView {
    CommandView {
        opcode: opcode,
        operand1: None,
        operand2: None,
        label: label,
        macro_name: None,
        macro_args: None,
        text_start_address: None,
        stack_start_address: None,
        stack_segment_size: None,
    }
}

/// The operand that the text `s` denotes, read with the reader `f`.
pub open spec fn operand_with<F: Fn(&str) -> Option<u32>>(s: Seq<char>, f: F) -> OperandView {
    operand_of(s, float_arg(f, s))
}

/// Whether reading the operand text `s` with `f` stops the program.
pub open spec fn operand_stops<F: Fn(&str) -> Option<u32>>(s: Seq<char>, f: F) -> bool {
    operand_panics(s, float_arg(f, s))
}

/// The texts of the two operands of an instruction line, from its operand
/// string: split at the first comma, or else at the first whitespace.
pub open spec fn operand_texts(o: Seq<char>) -> (Seq<char>, Option<Seq<char>>) {
    let to = trim(o);
    match first_index_of(to, ',') {
        Some(i) => (trim(to.take(i)), Some(trim(to.skip(i + 1)))),
        None => (
            trim(ws_head(to)),
            match ws_tail(to) {
                Some(r) => Some(trim(r)),
                None => None,
            },
        ),
    }
}

/// An optional operand read from a text, absent when the text is empty.
pub open spec fn operand_if_any<F: Fn(&str) -> Option<u32>>(s: Seq<char>, f: F) -> Option<
    OperandView,
> {
    if s.len() > 0 {
        Some(operand_with(s, f))
    } else {
        None
    }
}

/// Whether reading an optional operand text stops the program.
pub open spec fn optional_stops<F: Fn(&str) -> Option<u32>>(s: Seq<char>, f: F) -> bool {
    s.len() > 0 && operand_stops(s, f)
}

/// The error text of a segment directive without its operand.
pub open spec fn missing_operand_text(directive: Seq<char>, what: Seq<char>) -> Seq<char> {
    "Missing operand for "@ + directive + " directive. Expected immediate "@ + what + "."@
}

/// The error text of a segment directive with a non-immediate operand.
pub open spec fn invalid_operand_text(directive: Seq<char>, what: Seq<char>) -> Seq<char> {
    "Invalid operand for "@ + directive + " directive. Expected immediate "@ + what + "."@
}

/// Whether an opcode names a segment directive, which takes an immediate.
pub open spec fn is_segment_directive(opcode: Seq<char>) -> bool {
    opcode == ".text_start"@ || opcode == ".stack_start"@ || opcode == ".stack_size"@
}

/// What a segment directive sets: an address, or the stack's size.
pub open spec fn segment_what(opcode: Seq<char>) -> Seq<char> {
    if opcode == ".stack_size"@ {
        "size"@
    } else {
        "address"@
    }
}

/// The command a segment directive gives, with its immediate `v`.
pub open spec fn with_segment(opcode: Seq<char>, v: u32, base: CommandView) -> CommandView {
    if opcode == ".text_start"@ {
        CommandView { text_start_address: Some(v), ..base }
    } else if opcode == ".stack_start"@ {
        CommandView { stack_start_address: Some(v), ..base }
    } else {
        CommandView { stack_segment_size: Some(v), ..base }
    }
}

/// What a directive line parses to, from its opcode and operand text.
pub open spec fn directive_of<F: Fn(&str) -> Option<u32>>(
    opcode: Seq<char>,
    ops: Option<Seq<char>>,
    base: CommandView,
    f: F,
) -> Result<CommandView, Seq<char>> {
    if is_segment_directive(opcode) {
        match ops {
            None => Err(missing_operand_text(opcode, segment_what(opcode))),
            Some(o) => match operand_with(o, f) {
                OperandView::Immediate(v) => Ok(with_segment(opcode, v, base)),
                _ => Err(invalid_operand_text(opcode, segment_what(opcode))),
            },
        }
    } else {
        match ops {
            Some(o) => if o.len() > 0 {
                Ok(CommandView { operand1: Some(operand_with(o, f)), ..base })
            } else {
                Ok(base)
            },
            None => Ok(base),
        }
    }
}

/// Whether parsing a directive line stops the program.
pub open spec fn directive_stops<F: Fn(&str) -> Option<u32>>(
    opcode: Seq<char>,
    ops: Option<Seq<char>>,
    f: F,
) -> bool {
    match ops {
        None => false,
        Some(o) => if is_segment_directive(opcode) {
            operand_stops(o, f)
        } else {
            o.len() > 0 && operand_stops(o, f)
        },
    }
}

/// The command an instruction line gives, from its operand text.
pub open spec fn instruction_of<F: Fn(&str) -> Option<u32>>(
    ops: Option<Seq<char>>,
    base: CommandView,
    f: F,
) -> CommandView {
    match ops {
        None => base,
        Some(o) => {
            let (p1, p2) = operand_texts(o);
            CommandView {
                operand1: operand_if_any(p1, f),
                operand2: match p2 {
                    Some(q) => operand_if_any(q, f),
                    None => None,
                },
                ..base
            }
        },
    }
}

/// Whether parsing the operands of an instruction line stops the program.
pub open spec fn instruction_stops<F: Fn(&str) -> Option<u32>>(ops: Option<Seq<char>>, f: F) -> bool {
    match ops {
        None => false,
        Some(o) => {
            let (p1, p2) = operand_texts(o);
            optional_stops(p1, f) || match p2 {
                Some(q) => optional_stops(q, f),
                None => false,
            }
        },
    }
}

/// The trimmed line without its comment.
pub open spec fn line_text(input: Seq<char>) -> Seq<char> {
    trim(strip_comment(input))
}

/// The opcode of a non-empty trimmed line.
pub open spec fn line_opcode(t: Seq<char>) -> Seq<char> {
    ws_head(line_rest(t))
}

/// The operand text of a non-empty trimmed line, if any.
pub open spec fn line_operands(t: Seq<char>) -> Option<Seq<char>> {
    ws_tail(line_rest(t))
}

/// Whether an opcode is a directive: it starts with `.`.
pub open spec fn is_directive(opcode: Seq<char>) -> bool {
    opcode.len() > 0 && opcode[0] == '.'
}

/// What a line whose operands are all operands parses to, read with the
/// floating-point reader `f`.
pub open spec fn parsed_command<F: Fn(&str) -> Option<u32>>(input: Seq<char>, f: F) -> Result<
    CommandView,
    Seq<char>,
> {
    let t = line_text(input);
    if t.len() == 0 {
        Ok(bare_command(seq![], None))
    } else {
        let label = line_label(t);
        let opcode = line_opcode(t);
        let ops = line_operands(t);
        let base = bare_command(opcode, label);
        if is_directive(opcode) {
            directive_of(opcode, ops, base, f)
        } else if opcode.len() == 0 && label is Some {
            Ok(base)
        } else {
            Ok(instruction_of(ops, base, f))
        }
    }
}

/// Whether parsing a line with the reader `f` stops the program: some
/// operand text on it is no operand at all.
pub open spec fn command_panics<F: Fn(&str) -> Option<u32>>(input: Seq<char>, f: F) -> bool {
    let t = line_text(input);
    if t.len() == 0 {
        false
    } else {
        let opcode = line_opcode(t);
        let ops = line_operands(t);
        if is_directive(opcode) {
            directive_stops(opcode, ops, f)
        } else if opcode.len() == 0 && line_label(t) is Some {
            false
        } else {
            instruction_stops(ops, f)
        }
    }
}

/// The error of the first operand text of an instruction line that is no
/// operand.
pub open spec fn instruction_error<F: Fn(&str) -> Option<u32>>(o: Seq<char>, f: F) -> Seq<char> {
    let (p1, p2) = operand_texts(o);
    if optional_stops(p1, f) {
        operand_error(p1)
    } else {
        match p2 {
            Some(q) => operand_error(q),
            None => seq![],
        }
    }
}

/// The error of a line with an operand text that is no operand (see
/// `command_panics`): that of its first such operand.
pub open spec fn command_error<F: Fn(&str) -> Option<u32>>(input: Seq<char>, f: F) -> Seq<char> {
    let t = line_text(input);
    match line_operands(t) {
        None => seq![],
        Some(o) => if is_directive(line_opcode(t)) {
            operand_error(o)
        } else {
            instruction_error(o, f)
        },
    }
}

/// What a line parses to, read with the floating-point reader `f`: the
/// error of its first operand text that is no operand, if any; else the
/// command, or the error of a segment directive without a fitting operand.
pub open spec fn command_of<F: Fn(&str) -> Option<u32>>(input: Seq<char>, f: F) -> Result<
    CommandView,
    Seq<char>,
> {
    if command_panics(input, f) {
        Err(command_error(input, f))
    } else {
        parsed_command(input, f)
    }
}

// ---------------------------------------------------------------------------
// Line parsing
// ---------------------------------------------------------------------------

/// A command with the given opcode and label and nothing else.
fn new_command(opcode: String, label: Option<String>) -> (c: Command)
    ensures
        c@ == bare_command(opcode@, opt_text(label)),
{
    Command {
        opcode,
        operand1: None,
        operand2: None,
        label,
        macro_name: None,
        macro_args: None,
        text_start_address: None,
        stack_start_address: None,
        stack_segment_size: None,
    }
}

/// The optional operand of `s[lo..hi]`, absent when that text is empty.
fn optional_operand<F: Fn(&str) -> Option<u32>>(s: &[char], lo: usize, hi: usize, f: &F) -> (r:
    Option<Operand>)
    requires
        lo <= hi <= s@.len(),
        float_reader_ok(*f),
        !optional_stops(s@.subrange(lo as int, hi as int), *f),
    ensures
        opt_view(r) == operand_if_any(s@.subrange(lo as int, hi as int), *f),
{
    if hi > lo {
        Some(parse_operand_range(s, lo, hi, f))
    } else {
        None
    }
}

/// The operand text after an opcode that ends at `oe`, in a line that ends
/// at `rb`.
pub open spec fn operands_after(s: Seq<char>, oe: int, rb: int) -> Option<Seq<char>> {
    if oe < rb {
        Some(s.subrange(oe + 1, rb))
    } else {
        None
    }
}

/// Splits a line into its label, and the bounds of its opcode and of the
/// rest: `None` for a line that is empty once its comment is gone.
#[verifier::rlimit(40)]
fn split_line(s: &[char]) -> (r: Option<(Option<String>, usize, usize, usize)>)
    ensures
        r is None <==> line_text(s@).len() == 0,
        r matches Some((label, ra, oe, rb)) ==> {
            &&& ra <= oe <= rb <= s@.len()
            &&& opt_text(label) == line_label(line_text(s@))
            &&& s@.subrange(ra as int, oe as int) == line_opcode(line_text(s@))
            &&& operands_after(s@, oe as int, rb as int) == line_operands(line_text(s@))
        },
{
    let n = s.len();
    assert(s@.subrange(0, n as int) =~= s@);
    let e = match find_char(s, 0, n, ';') {
        Some(i) => i,
        None => n,
    };
    assert(strip_comment(s@) =~= s@.subrange(0, e as int));
    let (a, b) = trim_bounds(s, 0, e);
    let ghost t = s@.subrange(a as int, b as int);
    assert(t == line_text(s@));
    if a == b {
        return None;
    }
    let first_end = match find_whitespace(s, a, b) {
        Some(w) => w,
        None => b,
    };
    proof {
        crate::text::lemma_first_ws_index(t);
        assert(ws_head(t) =~= s@.subrange(a as int, first_end as int));
    }
    let has_label = first_end > a && s[first_end - 1] == ':';
    let (ra, rb) = if has_label {
        if first_end < b {
            assert(ws_tail(t) == Some(s@.subrange(first_end + 1, b as int)));
            (first_end + 1, b)
        } else {
            (b, b)
        }
    } else {
        (a, b)
    };
    let label: Option<String> = if has_label {
        assert(ws_head(t).drop_last() =~= s@.subrange(a as int, first_end - 1));
        Some(string_from_chars(&s[a..first_end - 1]))
    } else {
        None
    };
    let ghost rest = s@.subrange(ra as int, rb as int);
    assert(rest =~= line_rest(t));
    let op_end = match find_whitespace(s, ra, rb) {
        Some(w) => w,
        None => rb,
    };
    proof {
        crate::text::lemma_first_ws_index(rest);
        assert(ws_head(rest) =~= s@.subrange(ra as int, op_end as int));
        if op_end < rb {
            assert(ws_tail(rest) == Some(s@.subrange(op_end + 1, rb as int)));
        } else {
            assert(ws_tail(rest) is None);
        }
    }
    Some((label, ra, op_end, rb))
}

/// Finishes a directive line whose opcode is `s[ra..oe]`.
fn parse_directive<F: Fn(&str) -> Option<u32>>(
    s: &[char],
    ra: usize,
    oe: usize,
    rb: usize,
    command: Command,
    float_value: &F,
) -> (r: Result<Command, String>)
    requires
        ra <= oe <= rb <= s@.len(),
        float_reader_ok(*float_value),
        command@ == bare_command(s@.subrange(ra as int, oe as int), command@.label),
        !directive_stops(
            s@.subrange(ra as int, oe as int),
            operands_after(s@, oe as int, rb as int),
            *float_value,
        ),
    ensures
        match directive_of(
            s@.subrange(ra as int, oe as int),
            operands_after(s@, oe as int, rb as int),
            command@,
            *float_value,
        ) {
            Ok(c) => r matches Ok(cmd) && cmd@ == c,
            Err(e) => r matches Err(msg) && msg@ == e,
        },
{
    let ghost opcode_v = s@.subrange(ra as int, oe as int);
    let mut command = command;
    let has_ops = oe < rb;
    let oa = if has_ops {
        oe + 1
    } else {
        rb
    };
    let is_ts = range_equals(s, ra, oe, chars_of(".text_start").as_slice());
    let is_ss = range_equals(s, ra, oe, chars_of(".stack_start").as_slice());
    let is_sz = range_equals(s, ra, oe, chars_of(".stack_size").as_slice());
    if is_ts || is_ss || is_sz {
        let (missing, invalid) = if is_ts {
            (
                "Missing operand for .text_start directive. Expected immediate address.",
                "Invalid operand for .text_start directive. Expected immediate address.",
            )
        } else if is_ss {
            (
                "Missing operand for .stack_start directive. Expected immediate address.",
                "Invalid operand for .stack_start directive. Expected immediate address.",
            )
        } else {
            (
                "Missing operand for .stack_size directive. Expected immediate size.",
                "Invalid operand for .stack_size directive. Expected immediate size.",
            )
        };
        proof {
            reveal_strlit("Missing operand for .text_start directive. Expected immediate address.");
            reveal_strlit("Invalid operand for .text_start directive. Expected immediate address.");
            reveal_strlit("Missing operand for .stack_start directive. Expected immediate address.");
            reveal_strlit("Invalid operand for .stack_start directive. Expected immediate address.");
            reveal_strlit("Missing operand for .stack_size directive. Expected immediate size.");
            reveal_strlit("Invalid operand for .stack_size directive. Expected immediate size.");
            reveal_strlit("Missing operand for ");
            reveal_strlit("Invalid operand for ");
            reveal_strlit(" directive. Expected immediate ");
            reveal_strlit("size");
            reveal_strlit("address");
            reveal_strlit(".");
            reveal_strlit(".text_start");
            reveal_strlit(".stack_start");
            reveal_strlit(".stack_size");
            assert(is_segment_directive(opcode_v));
            if is_ts {
                assert(opcode_v == ".text_start"@);
                assert(opcode_v[1] != ".stack_size"@[1]);
                assert(segment_what(opcode_v) == "address"@);
            } else if is_ss {
                assert(opcode_v == ".stack_start"@);
                assert(segment_what(opcode_v) == "address"@);
            } else {
                assert(opcode_v == ".stack_size"@);
                assert(segment_what(opcode_v) == "size"@);
            }
            assert(missing@ =~= missing_operand_text(opcode_v, segment_what(opcode_v)));
            assert(invalid@ =~= invalid_operand_text(opcode_v, segment_what(opcode_v)));
        }
        if !has_ops {
            return Err(string_from_str(missing));
        }
        let op = parse_operand_range(s, oa, rb, float_value);
        match op {
            Operand::Immediate(v) => {
                if is_ts {
                    command.text_start_address = Some(v);
                } else if is_ss {
                    command.stack_start_address = Some(v);
                } else {
                    command.stack_segment_size = Some(v);
                }
                return Ok(command);
            },
            _ => {
                return Err(string_from_str(invalid));
            },
        }
    }
    proof {
        reveal_strlit(".text_start");
        reveal_strlit(".stack_start");
        reveal_strlit(".stack_size");
        assert(!is_segment_directive(opcode_v));
    }
    if has_ops && rb > oa {
        command.operand1 = Some(parse_operand_range(s, oa, rb, float_value));
    }
    Ok(command)
}

/// The optional operand of `s[lo..hi]` once trimmed, absent when that text
/// is empty.
fn trimmed_operand<F: Fn(&str) -> Option<u32>>(s: &[char], lo: usize, hi: usize, f: &F) -> (r:
    Option<Operand>)
    requires
        lo <= hi <= s@.len(),
        float_reader_ok(*f),
        !optional_stops(trim(s@.subrange(lo as int, hi as int)), *f),
    ensures
        opt_view(r) == operand_if_any(trim(s@.subrange(lo as int, hi as int)), *f),
{
    let (a, b) = trim_bounds(s, lo, hi);
    optional_operand(s, a, b, f)
}

/// Fills in the operands of an instruction line from `s[oa..rb]`.
#[verifier::rlimit(40)]
fn parse_instruction_operands<F: Fn(&str) -> Option<u32>>(
    s: &[char],
    oa: usize,
    rb: usize,
    command: Command,
    float_value: &F,
) -> (r: Command)
    requires
        oa <= rb <= s@.len(),
        float_reader_ok(*float_value),
        !instruction_stops(Some(s@.subrange(oa as int, rb as int)), *float_value),
    ensures
        r@ == instruction_of(Some(s@.subrange(oa as int, rb as int)), command@, *float_value),
{
    let mut command = command;
    let (ta, tb) = trim_bounds(s, oa, rb);
    let ghost to = s@.subrange(ta as int, tb as int);
    match find_char(s, ta, tb, ',') {
        Some(ci) => {
            proof {
                lemma_first_index_of(to, ',');
                assert(to.take(ci - ta) =~= s@.subrange(ta as int, ci as int));
                assert(to.skip(ci - ta + 1) =~= s@.subrange(ci + 1, tb as int));
            }
            command.operand1 = trimmed_operand(s, ta, ci, float_value);
            command.operand2 = trimmed_operand(s, ci + 1, tb, float_value);
        },
        None => {
            let he = match find_whitespace(s, ta, tb) {
                Some(w) => w,
                None => tb,
            };
            proof {
                crate::text::lemma_first_ws_index(to);
                assert(ws_head(to) =~= s@.subrange(ta as int, he as int));
                if he < tb {
                    assert(ws_tail(to) == Some(s@.subrange(he + 1, tb as int)));
                }
            }
            command.operand1 = trimmed_operand(s, ta, he, float_value);
            if he < tb {
                command.operand2 = trimmed_operand(s, he + 1, tb, float_value);
            } else {
                command.operand2 = None;
            }
        },
    }
    command
}

/// The error of the trimmed text `s[lo..hi]` read as an optional operand,
/// where it is no operand.
fn trimmed_error<F: Fn(&str) -> Option<u32>>(s: &[char], lo: usize, hi: usize, f: &F) -> (r: Option<
    String,
>)
    requires
        lo <= hi <= s@.len(),
        float_reader_ok(*f),
    ensures
        (r is Some) == optional_stops(trim(s@.subrange(lo as int, hi as int)), *f),
        r matches Some(e) ==> e@ == operand_error(trim(s@.subrange(lo as int, hi as int))),
{
    let (a, b) = trim_bounds(s, lo, hi);
    if b > a {
        operand_range_error(s, a, b, f)
    } else {
        None
    }
}

/// The error of the first operand text of an instruction line, from
/// `s[oa..rb]`, that is no operand; `None` where all are operands.
#[verifier::rlimit(40)]
fn instruction_operands_error<F: Fn(&str) -> Option<u32>>(
    s: &[char],
    oa: usize,
    rb: usize,
    float_value: &F,
) -> (r: Option<String>)
    requires
        oa <= rb <= s@.len(),
        float_reader_ok(*float_value),
    ensures
        (r is Some) == instruction_stops(Some(s@.subrange(oa as int, rb as int)), *float_value),
        r matches Some(e) ==> e@ == instruction_error(s@.subrange(oa as int, rb as int), *float_value),
{
    let (ta, tb) = trim_bounds(s, oa, rb);
    let ghost to = s@.subrange(ta as int, tb as int);
    match find_char(s, ta, tb, ',') {
        Some(ci) => {
            proof {
                lemma_first_index_of(to, ',');
                assert(to.take(ci - ta) =~= s@.subrange(ta as int, ci as int));
                assert(to.skip(ci - ta + 1) =~= s@.subrange(ci + 1, tb as int));
            }
            let first = trimmed_error(s, ta, ci, float_value);
            if first.is_some() {
                return first;
            }
            trimmed_error(s, ci + 1, tb, float_value)
        },
        None => {
            let he = match find_whitespace(s, ta, tb) {
                Some(w) => w,
                None => tb,
            };
            proof {
                crate::text::lemma_first_ws_index(to);
                assert(ws_head(to) =~= s@.subrange(ta as int, he as int));
                if he < tb {
                    assert(ws_tail(to) == Some(s@.subrange(he + 1, tb as int)));
                }
            }
            let first = trimmed_error(s, ta, he, float_value);
            if first.is_some() {
                return first;
            }
            if he < tb {
                trimmed_error(s, he + 1, tb, float_value)
            } else {
                None
            }
        },
    }
}

/// The error of the first operand text of the line `input` that is no
/// operand (see `command_error`); `None` where all are operands.
fn line_operand_error<F: Fn(&str) -> Option<u32>>(input: &str, float_value: &F) -> (r: Option<
    String,
>)
    requires
        float_reader_ok(*float_value),
    ensures
        (r is Some) == command_panics(input@, *float_value),
        r matches Some(e) ==> e@ == command_error(input@, *float_value),
{
    let cs = chars_of(input);
    let s = cs.as_slice();
    match split_line(s) {
        None => None,
        Some((label, ra, oe, rb)) => {
            let has_label = label.is_some();
            if oe > ra && s[ra] == '.' {
                if oe < rb {
                    let is_ts = range_equals(s, ra, oe, chars_of(".text_start").as_slice());
                    let is_ss = range_equals(s, ra, oe, chars_of(".stack_start").as_slice());
                    let is_sz = range_equals(s, ra, oe, chars_of(".stack_size").as_slice());
                    proof {
                        reveal_strlit(".text_start");
                        reveal_strlit(".stack_start");
                        reveal_strlit(".stack_size");
                    }
                    if is_ts || is_ss || is_sz || rb > oe + 1 {
                        operand_range_error(s, oe + 1, rb, float_value)
                    } else {
                        None
                    }
                } else {
                    None
                }
            } else if oe == ra && has_label {
                None
            } else if oe < rb {
                instruction_operands_error(s, oe + 1, rb, float_value)
            } else {
                None
            }
        },
    }
}

/// Parses a line of assembly into a command: an optional `label:`, an
/// opcode or directive, and up to two operands separated by a comma or by
/// whitespace. Text after `;` is a comment. The segment directives
/// `.text_start`, `.stack_start` and `.stack_size` take an immediate, and
/// are an error without one. Floating-point operands are read by
/// `float_value` (see `parse_operand`).
pub fn parse_command<F: Fn(&str) -> Option<u32>>(input: &str, float_value: &F) -> (r: Result<
    Command,
    String,
>)
    requires
        float_reader_ok(*float_value),
    ensures
        match command_of(input@, *float_value) {
            Ok(c) => r matches Ok(cmd) && cmd@ == c,
            Err(e) => r matches Err(msg) && msg@ == e,
        },
{
    if let Some(e) = line_operand_error(input, float_value) {
        return Err(e);
    }
    let cs = chars_of(input);
    let s = cs.as_slice();
    match split_line(s) {
        None => Ok(new_command(String::new(), None)),
        Some((label, ra, oe, rb)) => {
            let has_label = label.is_some();
            let opcode = string_from_chars(&s[ra..oe]);
            let command = new_command(opcode, label);
            if oe > ra && s[ra] == '.' {
                parse_directive(s, ra, oe, rb, command, float_value)
            } else if oe == ra && has_label {
                Ok(command)
            } else if oe < rb {
                Ok(parse_instruction_operands(s, oe + 1, rb, command, float_value))
            } else {
                Ok(command)
            }
        },
    }
}

// ---------------------------------------------------------------------------
// Views of the assembler's inputs and output
// ---------------------------------------------------------------------------

/// The mathematical value of a `Macro`.
pub struct MacroView {
    pub name: Seq<char>,
    pub args: Seq<Seq<char>>,
    pub body: Seq<CommandView>,
}

/// The views of a list of commands.
pub open spec fn command_views(v: Seq<Command>) -> Seq<CommandView> {
    v.map_values(|c: Command| c@)
}

impl View for Macro {
    type V = MacroView;

    open spec fn view(&self) -> MacroView {
        MacroView { name: self.name@, args: texts(self.args@), body: command_views(self.body@) }
    }
}

/// The views of a list of macros.
pub open spec fn macro_views(v: Seq<Macro>) -> Seq<MacroView> {
    v.map_values(|m: Macro| m@)
}

/// The mathematical value of an `AssembledProgram`.
pub struct ProgramView {
    pub text: Seq<u32>,
    pub data: Seq<u8>,
    pub text_start: u32,
    pub data_start: u32,
    pub stack_start: u32,
    pub stack_size: u32,
}

impl View for AssembledProgram {
    type V = ProgramView;

    open spec fn view(&self) -> ProgramView {
        ProgramView {
            text: self.text@,
            data: self.data@,
            text_start: self.actual_text_start,
            data_start: self.actual_data_start,
            stack_start: self.actual_stack_start,
            stack_size: self.actual_stack_size,
        }
    }
}

/// The start of the text segment when no `.text_start` sets it.
pub const DEFAULT_TEXT_START: u32 = 0x0000;

/// The size of the stack segment when no `.stack_size` sets it.
pub const DEFAULT_STACK_SIZE: u32 = 0x1000;

// ---------------------------------------------------------------------------
// The first pass: symbols, counters and segment directives
// ---------------------------------------------------------------------------

/// What the first pass has gathered.
pub struct FirstPass {
    pub syms: Seq<(Seq<char>, u32)>,
    /// For each symbol, the section whose start its value counts from, or
    /// `None` for a `.equ` constant.
    pub places: Seq<Option<Section>>,
    pub text: u32,
    pub data: u32,
    pub section: Section,
    pub text_start: Option<u32>,
    pub stack_start: Option<u32>,
    pub stack_size: Option<u32>,
}

/// The first pass before any command.
pub open spec fn first_pass_start() -> FirstPass {
    FirstPass {
        syms: seq![],
        places: seq![],
        text: DEFAULT_TEXT_START,
        data: 0,
        section: Section::Text,
        text_start: None,
        stack_start: None,
        stack_size: None,
    }
}

/// Whether a command is an instruction, which takes four bytes.
pub open spec fn is_instruction(c: CommandView) -> bool {
    c.opcode.len() > 0 && c.opcode[0] != '.'
}

/// The first pass after a command, before its instruction is counted.
pub open spec fn first_pass_mark(st: FirstPass, c: CommandView) -> Result<FirstPass, Seq<char>> {
    if c.opcode == ".equ"@ {
        match (c.label, c.operand1) {
            (Some(l), Some(OperandView::Immediate(v))) => if lookup(st.syms, l) is Some {
                Err("Duplicate label: "@ + l)
            } else {
                Ok(FirstPass { syms: st.syms.push((l, v)), places: st.places.push(None), ..st })
            },
            _ => Err(".equ directive requires a label and an immediate value"@),
        }
    } else if c.text_start_address is Some && st.text_start is Some {
        Err("Multiple .text_start directives found. Only one is allowed."@)
    } else if c.stack_start_address is Some && st.stack_start is Some {
        Err("Multiple .stack_start directives found. Only one is allowed."@)
    } else if c.stack_segment_size is Some && st.stack_size is Some {
        Err("Multiple .stack_size directives found. Only one is allowed."@)
    } else {
        let st1 = FirstPass {
            text_start: if c.text_start_address is Some {
                c.text_start_address
            } else {
                st.text_start
            },
            stack_start: if c.stack_start_address is Some {
                c.stack_start_address
            } else {
                st.stack_start
            },
            stack_size: if c.stack_segment_size is Some {
                c.stack_segment_size
            } else {
                st.stack_size
            },
            ..st
        };
        if c.opcode == ".text"@ {
            Ok(FirstPass { section: Section::Text, ..st1 })
        } else if c.opcode == ".data"@ {
            Ok(FirstPass { section: Section::Data, ..st1 })
        } else {
            match c.label {
                Some(l) => if lookup(st1.syms, l) is Some {
                    Err("Duplicate label: "@ + l)
                } else {
                    let address = if st1.section == Section::Text {
                        st1.text
                    } else {
                        st1.data
                    };
                    Ok(
                        FirstPass {
                            syms: st1.syms.push((l, address)),
                            places: st1.places.push(Some(st1.section)),
                            ..st1
                        },
                    )
                },
                None => Ok(st1),
            }
        }
    }
}

/// The counter that an instruction advances.
pub open spec fn pass_counter(st: FirstPass) -> u32 {
    if st.section == Section::Text {
        st.text
    } else {
        st.data
    }
}

/// The bytes a data directive reserves in the data section at `counter`,
/// padding first: `None` for anything else, and for a directive in error
/// (which the second pass reports).
pub open spec fn data_item(st: FirstPass, c: CommandView) -> Option<(u32, u32)> {
    if st.section == Section::Data && is_directive(c.opcode) {
        match item_size(c, st.data) {
            Ok(sp) => Some(sp),
            Err(_) => None,
        }
    } else {
        None
    }
}

/// The first pass after a command: an instruction takes four bytes of its
/// section; a data directive in the data section takes its bytes (see
/// `data_item`).
pub open spec fn first_pass_step(st: FirstPass, c: CommandView) -> Result<FirstPass, Seq<char>> {
    match first_pass_mark(st, c) {
        Err(e) => Err(e),
        Ok(st2) => if is_instruction(c) {
            if st2.section == Section::Text {
                Ok(FirstPass { text: (st2.text + 4) as u32, ..st2 })
            } else {
                Ok(FirstPass { data: (st2.data + 4) as u32, ..st2 })
            }
        } else {
            match data_item(st2, c) {
                Some((size, pad)) => Ok(FirstPass { data: (st2.data + pad + size) as u32, ..st2 }),
                None => Ok(st2),
            }
        },
    }
}

/// Whether a command overflows the 32-bit counter of its section, or is a
/// `.bitv` whose size overflows.
pub open spec fn first_pass_step_stops(st: FirstPass, c: CommandView) -> bool {
    first_pass_mark(st, c) matches Ok(st2) && if is_instruction(c) {
        pass_counter(st2) + 4 > u32::MAX
    } else {
        st2.section == Section::Data && is_directive(c.opcode) && (bitv_overflows(c) || match data_item(
            st2,
            c,
        ) {
            Some((size, pad)) => st2.data + pad + size > u32::MAX,
            None => false,
        })
    }
}

/// The first pass over a list of commands; the first error ends it.
pub open spec fn first_pass(cmds: Seq<CommandView>) -> Result<FirstPass, Seq<char>>
    decreases cmds.len(),
{
    if cmds.len() == 0 {
        Ok(first_pass_start())
    } else {
        match first_pass(cmds.drop_last()) {
            Ok(st) => first_pass_step(st, cmds.last()),
            Err(e) => Err(e),
        }
    }
}

/// Whether the first pass stops the program on an overflowing counter.
pub open spec fn first_pass_stops(cmds: Seq<CommandView>) -> bool {
    exists|i: int| 0 <= i < cmds.len() && first_pass_stops_after(#[trigger] first_pass(cmds.take(i)), cmds[i])
}

/// Whether a command stops the first pass that has come to `r`.
pub open spec fn first_pass_stops_after(r: Result<FirstPass, Seq<char>>, c: CommandView) -> bool {
    match r {
        Ok(st) => first_pass_step_stops(st, c),
        Err(_) => false,
    }
}

// ---------------------------------------------------------------------------
// Segment layout
// ---------------------------------------------------------------------------

/// The segment layout that the first pass and the memory size give:
/// `(text_start, stack_start, stack_size, data_start)`. The stack sits at the
/// top of memory unless `.stack_start` places it; the data segment ends
/// where the stack starts.
pub open spec fn layout_of(p: FirstPass, total: usize) -> (u32, u32, u32, u32) {
    let ts = match p.text_start {
        Some(v) => v,
        None => DEFAULT_TEXT_START,
    };
    let sz = match p.stack_size {
        Some(v) => v,
        None => DEFAULT_STACK_SIZE,
    };
    let ss = match p.stack_start {
        Some(v) => v,
        None => if (total as u32) >= sz {
            ((total as u32) - sz) as u32
        } else {
            0
        },
    };
    let ds = if ss >= p.data {
        (ss - p.data) as u32
    } else {
        0
    };
    (ts, ss, sz, ds)
}

/// The error of a segment layout that does not fit, if any.
pub open spec fn layout_error(p: FirstPass, total: usize) -> Option<Seq<char>> {
    let (ts, ss, sz, ds) = layout_of(p, total);
    if ts >= total {
        Some(
            ".text_start address (0x"@ + hex_text(ts as nat, 4, true)
                + ") is outside total memory (0x"@ + hex_text(total as nat, 4, true) + ")."@,
        )
    } else if ss >= total {
        Some(
            ".stack_start address (0x"@ + hex_text(ss as nat, 4, true)
                + ") is outside total memory (0x"@ + hex_text(total as nat, 4, true) + ")."@,
        )
    } else if ss + sz > total {
        Some(
            "Stack segment (0x"@ + hex_text(ss as nat, 4, true) + " - 0x"@ + hex_text(
                (ss + sz) as nat,
                4,
                true,
            ) + ") exceeds total memory (0x"@ + hex_text(total as nat, 4, true) + ")."@,
        )
    } else if ts + p.text > ds {
        Some(
            "Text segment (0x"@ + hex_text(ts as nat, 4, true) + " - 0x"@ + hex_text(
                (ts + p.text) as nat,
                4,
                true,
            ) + ") overlaps with Data segment (0x"@ + hex_text(ds as nat, 4, true) + ")."@,
        )
    } else {
        None
    }
}

/// Whether checking the layout stops the program: the end of the stack, or
/// of the text, does not fit in 32 bits.
pub open spec fn layout_stops(p: FirstPass, total: usize) -> bool {
    let (ts, ss, sz, ds) = layout_of(p, total);
    ts < total && ss < total && if ss + sz > total {
        ss + sz > u32::MAX
    } else {
        ts + p.text > u32::MAX
    }
}

// ---------------------------------------------------------------------------
// Macro expansion
// ---------------------------------------------------------------------------

/// The first macro with the given name.
pub open spec fn find_macro(macros: Seq<MacroView>, name: Seq<char>) -> Option<MacroView>
    decreases macros.len(),
{
    if macros.len() == 0 {
        None
    } else if macros[0].name == name {
        Some(macros[0])
    } else {
        find_macro(macros.skip(1), name)
    }
}

/// Whether a command has an operand that is the label `arg`.
pub open spec fn mentions(c: CommandView, arg: Seq<char>) -> bool {
    c.operand1 == Some(OperandView::Label(arg)) || c.operand2 == Some(OperandView::Label(arg))
}

/// An operand with the label `arg` replaced by `value`.
pub open spec fn replace_operand(o: Option<OperandView>, arg: Seq<char>, value: OperandView) -> Option<
    OperandView,
> {
    if o == Some(OperandView::Label(arg)) {
        Some(value)
    } else {
        o
    }
}

/// A command with the label `arg` replaced by `value` in its operands.
pub open spec fn replace_in(c: CommandView, arg: Seq<char>, value: OperandView) -> CommandView {
    CommandView {
        operand1: replace_operand(c.operand1, arg, value),
        operand2: replace_operand(c.operand2, arg, value),
        ..c
    }
}

/// A macro body with the parameter `arg` bound to `value`; an error when
/// the body uses a parameter that was given no argument.
pub open spec fn bind_parameter(
    body: Seq<CommandView>,
    arg: Seq<char>,
    value: Option<OperandView>,
) -> Result<Seq<CommandView>, Seq<char>> {
    match value {
        Some(v) => Ok(body.map_values(|c: CommandView| replace_in(c, arg, v))),
        None => if exists|j: int| 0 <= j < body.len() && #[trigger] mentions(body[j], arg) {
            Err("Missing argument for macro parameter: "@ + arg)
        } else {
            Ok(body)
        },
    }
}

/// The argument for the parameter at index `i`: the call's first operand,
/// its second, or none.
pub open spec fn argument(i: int, op1: Option<OperandView>, op2: Option<OperandView>) -> Option<
    OperandView,
> {
    if i == 0 {
        op1
    } else if i == 1 {
        op2
    } else {
        None
    }
}

/// A macro body with its parameters bound, in order, to a call's operands.
pub open spec fn bind_parameters(
    body: Seq<CommandView>,
    args: Seq<Seq<char>>,
    op1: Option<OperandView>,
    op2: Option<OperandView>,
) -> Result<Seq<CommandView>, Seq<char>>
    decreases args.len(),
{
    if args.len() == 0 {
        Ok(body)
    } else {
        match bind_parameters(body, args.drop_last(), op1, op2) {
            Ok(b) => bind_parameter(b, args.last(), argument(args.len() - 1, op1, op2)),
            Err(e) => Err(e),
        }
    }
}

/// The commands that one command expands to.
pub open spec fn expand_one(c: CommandView, macros: Seq<MacroView>) -> Result<Seq<CommandView>, Seq<char>> {
    match find_macro(macros, c.opcode) {
        Some(m) => bind_parameters(m.body, m.args, c.operand1, c.operand2),
        None => Ok(seq![c]),
    }
}

/// The commands with every macro call expanded.
pub open spec fn expand(cmds: Seq<CommandView>, macros: Seq<MacroView>) -> Result<Seq<CommandView>, Seq<char>>
    decreases cmds.len(),
{
    if cmds.len() == 0 {
        Ok(seq![])
    } else {
        match expand(cmds.drop_last(), macros) {
            Ok(prev) => match expand_one(cmds.last(), macros) {
                Ok(more) => Ok(prev + more),
                Err(e) => Err(e),
            },
            Err(e) => Err(e),
        }
    }
}

// ---------------------------------------------------------------------------
// The second pass: machine code and data
// ---------------------------------------------------------------------------

/// What the second pass has produced.
pub struct SecondPass {
    pub text: Seq<u32>,
    pub data: Seq<u8>,
    pub section: Section,
    pub counter: u32,
}

/// The padding from `counter` up to a multiple of `b`.
pub open spec fn align_padding(counter: u32, b: u32) -> nat {
    (((b as int) - ((counter % b) as int)) % (b as int)) as nat
}

/// Whether a command is a segment directive that the second pass skips.
pub open spec fn skipped_in_second_pass(c: CommandView) -> bool {
    c.opcode == ".equ"@ || c.opcode == ".text_start"@ || c.opcode == ".stack_start"@ || c.opcode
        == ".stack_size"@
}

/// The second pass after a command.
pub open spec fn second_pass_step(st: SecondPass, c: CommandView, syms: Seq<(Seq<char>, u32)>) -> Result<
    SecondPass,
    Seq<char>,
> {
    if c.opcode == ".text"@ {
        Ok(SecondPass { section: Section::Text, ..st })
    } else if c.opcode == ".data"@ {
        Ok(SecondPass { section: Section::Data, ..st })
    } else if skipped_in_second_pass(c) {
        Ok(st)
    } else if c.opcode == ".align"@ {
        match c.operand1 {
            Some(OperandView::Immediate(b)) => if st.section == Section::Data {
                let pad = align_padding(st.counter, b);
                Ok(
                    SecondPass {
                        data: st.data + Seq::new(pad, |i: int| 0u8),
                        counter: (st.counter + pad) as u32,
                        ..st
                    },
                )
            } else {
                Ok(st)
            },
            _ => Ok(st),
        }
    } else if c.opcode.len() == 0 {
        Ok(st)
    } else if st.section == Section::Text {
        if is_instruction(c) {
            match command_word(c, syms) {
                Ok(w) => Ok(SecondPass { text: st.text.push(w), ..st }),
                Err(e) => Err(e),
            }
        } else {
            Ok(st)
        }
    } else {
        match data_bytes(c, syms) {
            Ok(b) => Ok(
                SecondPass {
                    data: st.data + b,
                    counter: (st.counter + (b.len() as u32)) as u32,
                    ..st
                },
            ),
            Err(e) => Err(e),
        }
    }
}

/// Whether the second pass stops the program on a command: an alignment
/// to 0, or a data counter that overflows.
pub open spec fn second_pass_step_stops(
    st: SecondPass,
    c: CommandView,
    syms: Seq<(Seq<char>, u32)>,
) -> bool {
    if c.opcode == ".text"@ || c.opcode == ".data"@ || skipped_in_second_pass(c) {
        false
    } else if c.opcode == ".align"@ {
        match c.operand1 {
            Some(OperandView::Immediate(b)) => st.section == Section::Data && (b == 0 || st.counter
                + align_padding(st.counter, b) > u32::MAX),
            _ => false,
        }
    } else if c.opcode.len() == 0 || st.section == Section::Text {
        false
    } else {
        bitv_overflows(c) || match data_bytes(c, syms) {
            Ok(b) => st.counter + (b.len() as u32) > u32::MAX,
            Err(_) => false,
        }
    }
}

/// The second pass over a list of commands, from the data segment's start.
pub open spec fn second_pass(cmds: Seq<CommandView>, syms: Seq<(Seq<char>, u32)>, data_start: u32) -> Result<
    SecondPass,
    Seq<char>,
>
    decreases cmds.len(),
{
    if cmds.len() == 0 {
        Ok(SecondPass { text: seq![], data: seq![], section: Section::Text, counter: data_start })
    } else {
        match second_pass(cmds.drop_last(), syms, data_start) {
            Ok(st) => second_pass_step(st, cmds.last(), syms),
            Err(e) => Err(e),
        }
    }
}

/// Whether the second pass stops the program.
pub open spec fn second_pass_stops(cmds: Seq<CommandView>, syms: Seq<(Seq<char>, u32)>, data_start: u32) -> bool {
    exists|i: int|
        0 <= i < cmds.len() && second_pass_stops_after(
            #[trigger] second_pass(cmds.take(i), syms, data_start),
            cmds[i],
            syms,
        )
}

/// Whether a command stops the second pass that has come to `r`.
pub open spec fn second_pass_stops_after(
    r: Result<SecondPass, Seq<char>>,
    c: CommandView,
    syms: Seq<(Seq<char>, u32)>,
) -> bool {
    match r {
        Ok(st) => second_pass_step_stops(st, c, syms),
        Err(_) => false,
    }
}

// ---------------------------------------------------------------------------
// The whole assembly
// ---------------------------------------------------------------------------

/// `a + b`, wrapping around at 2^32.
pub open spec fn add_wrapping(a: u32, b: u32) -> u32 {
    if a + b <= u32::MAX {
        (a + b) as u32
    } else {
        (a + b - 0x1_0000_0000) as u32
    }
}

/// The value a symbol stands for once the segments are laid out: a label
/// counts from the start of its section, a `.equ` constant stays.
pub open spec fn placed_value(v: u32, place: Option<Section>, ts: u32, ds: u32) -> u32 {
    match place {
        None => v,
        Some(Section::Text) => add_wrapping(ts, v),
        Some(Section::Data) => add_wrapping(ds, v),
    }
}

/// The symbol table with every label at its memory address.
pub open spec fn placed(p: FirstPass, ts: u32, ds: u32) -> Seq<(Seq<char>, u32)> {
    Seq::new(p.syms.len(), |i: int| (p.syms[i].0, placed_value(p.syms[i].1, p.places[i], ts, ds)))
}

/// The error of assembled segments that overlap: the text (of
/// `text_len` instructions) running into the data, or the data (of
/// `data_len` bytes) into the stack.
pub open spec fn overlap_error(ts: u32, ds: u32, ss: u32, text_len: nat, data_len: nat) -> Option<
    Seq<char>,
> {
    if ts + 4 * text_len > ds {
        Some(
            "Text segment at 0x"@ + hex_text(ts as nat, 4, true) + " with "@ + dec_text(text_len)
                + " instructions overlaps with Data segment (0x"@ + hex_text(ds as nat, 4, true)
                + ")."@,
        )
    } else if ds + data_len > ss {
        Some(
            "Data segment at 0x"@ + hex_text(ds as nat, 4, true) + " with "@ + dec_text(data_len)
                + " bytes overlaps with Stack segment (0x"@ + hex_text(ss as nat, 4, true) + ")."@,
        )
    } else {
        None
    }
}

/// The program that a list of commands assembles to, with the given macros,
/// in a memory of `total` bytes.
pub open spec fn assembly(cmds: Seq<CommandView>, macros: Seq<MacroView>, total: usize) -> Result<
    ProgramView,
    Seq<char>,
> {
    match first_pass(cmds) {
        Err(e) => Err(e),
        Ok(p) => match layout_error(p, total) {
            Some(e) => Err(e),
            None => {
                let (ts, ss, sz, ds) = layout_of(p, total);
                match expand(cmds, macros) {
                    Err(e) => Err(e),
                    Ok(ex) => match second_pass(ex, placed(p, ts, ds), ds) {
                        Err(e) => Err(e),
                        Ok(q) => match overlap_error(ts, ds, ss, q.text.len(), q.data.len()) {
                            Some(e) => Err(e),
                            None => Ok(
                                ProgramView {
                                    text: q.text,
                                    data: q.data,
                                    text_start: ts,
                                    data_start: ds,
                                    stack_start: ss,
                                    stack_size: sz,
                                },
                            ),
                        },
                    },
                }
            },
        },
    }
}

/// Whether assembling stops the program: a counter or an address overflows
/// 32 bits, or data is aligned to 0.
pub open spec fn assembly_stops(cmds: Seq<CommandView>, macros: Seq<MacroView>, total: usize) -> bool {
    first_pass_stops(cmds) || match first_pass(cmds) {
        Err(_) => false,
        Ok(p) => layout_stops(p, total) || (layout_error(p, total) is None && match expand(
            cmds,
            macros,
        ) {
            Err(_) => false,
            Ok(ex) => second_pass_stops(
                ex,
                placed(p, layout_of(p, total).0, layout_of(p, total).3),
                layout_of(p, total).3,
            ),
        }),
    }
}

// ---------------------------------------------------------------------------
// The first pass, executed
// ---------------------------------------------------------------------------

/// The symbol table, counters and segment settings of the first pass.
pub struct SymbolState {
    pub table: Vec<(String, u32)>,
    pub places: Vec<Option<Section>>,
    pub text: u32,
    pub data: u32,
    pub section: Section,
    pub text_start: Option<u32>,
    pub stack_start: Option<u32>,
    pub stack_size: Option<u32>,
}

impl View for SymbolState {
    type V = FirstPass;

    open spec fn view(&self) -> FirstPass {
        FirstPass {
            syms: symbols_view(self.table@),
            places: self.places@,
            text: self.text,
            data: self.data,
            section: self.section,
            text_start: self.text_start,
            stack_start: self.stack_start,
            stack_size: self.stack_size,
        }
    }
}

/// The error for a label defined twice.
fn duplicate_label(label: &String) -> (e: String)
    ensures
        e@ == "Duplicate label: "@ + label@,
{
    let mut e = string_from_str("Duplicate label: ");
    push_text(&mut e, label.as_str());
    e
}

/// Adds a symbol that is not yet in the table.
fn define_symbol(st: &mut SymbolState, label: &String, value: u32, place: Option<Section>) -> (r:
    Result<(), String>)
    ensures
        lookup(old(st)@.syms, label@) is Some ==> (r matches Err(e) && e@ == "Duplicate label: "@
            + label@),
        lookup(old(st)@.syms, label@) is None ==> r is Ok && final(st)@ == (FirstPass {
            syms: old(st)@.syms.push((label@, value)),
            places: old(st)@.places.push(place),
            ..old(st)@
        }),
        r is Err ==> final(st)@ == old(st)@,
{
    if crate::utils::assembler::encoder::find_symbol(&st.table, label).is_some() {
        return Err(duplicate_label(label));
    }
    let ghost t0 = st.table@;
    st.table.push((copy_string(label), value));
    st.places.push(place);
    assert(symbols_view(st.table@) =~= symbols_view(t0).push((label@, value)));
    Ok(())
}

/// Applies a command's label and directives to the first pass.
fn mark_command(st: &mut SymbolState, c: &Command) -> (r: Result<(), String>)
    ensures
        match first_pass_mark(old(st)@, c@) {
            Ok(n) => r is Ok && final(st)@ == n,
            Err(e) => r matches Err(msg) && msg@ == e,
        },
{
    if text_is(&c.opcode, ".equ") {
        return match (&c.label, &c.operand1) {
            (Some(l), Some(Operand::Immediate(v))) => define_symbol(st, l, *v, None),
            _ => Err(string_from_str(".equ directive requires a label and an immediate value")),
        };
    }
    if c.text_start_address.is_some() && st.text_start.is_some() {
        return Err(string_from_str("Multiple .text_start directives found. Only one is allowed."));
    }
    if c.stack_start_address.is_some() && st.stack_start.is_some() {
        return Err(string_from_str("Multiple .stack_start directives found. Only one is allowed."));
    }
    if c.stack_segment_size.is_some() && st.stack_size.is_some() {
        return Err(string_from_str("Multiple .stack_size directives found. Only one is allowed."));
    }
    if c.text_start_address.is_some() {
        st.text_start = c.text_start_address;
    }
    if c.stack_start_address.is_some() {
        st.stack_start = c.stack_start_address;
    }
    if c.stack_segment_size.is_some() {
        st.stack_size = c.stack_segment_size;
    }
    if text_is(&c.opcode, ".text") {
        st.section = Section::Text;
        return Ok(());
    }
    if text_is(&c.opcode, ".data") {
        st.section = Section::Data;
        return Ok(());
    }
    match &c.label {
        Some(l) => {
            let address = match st.section {
                Section::Text => st.text,
                Section::Data => st.data,
            };
            let section = st.section;
            define_symbol(st, l, address, Some(section))
        },
        None => Ok(()),
    }
}

/// Marking a command adds a place for each symbol it adds.
proof fn lemma_mark_keeps_places(st: FirstPass, c: CommandView)
    requires
        first_pass_mark(st, c) is Ok,
    ensures
        first_pass_mark(st, c)->Ok_0.places.len() - first_pass_mark(st, c)->Ok_0.syms.len()
            == st.places.len() - st.syms.len(),
{
}

/// Whether a command is an instruction.
fn is_instruction_command(c: &Command) -> (r: bool)
    ensures
        r == is_instruction(c@),
{
    let v = chars_of(c.opcode.as_str());
    v.len() > 0 && v[0] != '.'
}

/// The first pass after `cmds.take(i + 1)`, from the pass after `cmds.take(i)`.
proof fn lemma_first_pass_next(cmds: Seq<CommandView>, i: int)
    requires
        0 <= i < cmds.len(),
    ensures
        first_pass(cmds.take(i + 1)) == match first_pass(cmds.take(i)) {
            Ok(st) => first_pass_step(st, cmds[i]),
            Err(e) => Err(e),
        },
{
    assert(cmds.take(i + 1).drop_last() =~= cmds.take(i));
}

/// An error in the first pass over a prefix is the error of the whole pass.
proof fn lemma_first_pass_err(cmds: Seq<CommandView>, i: int)
    requires
        0 <= i <= cmds.len(),
        first_pass(cmds.take(i)) is Err,
    ensures
        first_pass(cmds) == first_pass(cmds.take(i)),
    decreases cmds.len() - i,
{
    if i == cmds.len() {
        assert(cmds.take(i) =~= cmds);
    } else {
        lemma_first_pass_next(cmds, i);
        lemma_first_pass_err(cmds, i + 1);
    }
}

/// Once the first pass over a prefix has failed, it has failed over every
/// longer prefix.
proof fn lemma_first_pass_err_later(cmds: Seq<CommandView>, i: int, k: int)
    requires
        0 <= i <= k <= cmds.len(),
        first_pass(cmds.take(i)) is Err,
    ensures
        first_pass(cmds.take(k)) is Err,
{
    assert(cmds.take(k).take(i) =~= cmds.take(i));
    lemma_first_pass_err(cmds.take(k), i);
}

/// Runs the first pass: the symbol table, the size of the text and of the
/// instructions placed in the data section, and the segment directives.
/// `None` when a counter would overflow 32 bits.
fn run_first_pass(commands: &[Command]) -> (r: Option<Result<SymbolState, String>>)
    ensures
        r matches Some(Ok(st)) ==> st.places@.len() == st.table@.len(),
        r is None <==> first_pass_stops(command_views(commands@)),
        r is Some ==> match first_pass(command_views(commands@)) {
            Ok(p) => r matches Some(Ok(st)) && st@ == p,
            Err(e) => r matches Some(Err(msg)) && msg@ == e,
        },
{
    let ghost cmds = command_views(commands@);
    let mut st = SymbolState {
        table: Vec::new(),
        places: Vec::new(),
        text: DEFAULT_TEXT_START,
        data: 0,
        section: Section::Text,
        text_start: None,
        stack_start: None,
        stack_size: None,
    };
    assert(symbols_view(st.table@) =~= seq![]);
    assert(cmds.take(0) =~= seq![]);
    let mut i: usize = 0;
    while i < commands.len()
        invariant
            i <= commands@.len(),
            cmds == command_views(commands@),
            first_pass(cmds.take(i as int)) == Ok::<FirstPass, Seq<char>>(st@),
            st.places@.len() == st.table@.len(),
            forall|k: int|
                0 <= k < i ==> !first_pass_stops_after(#[trigger] first_pass(cmds.take(k)), cmds[k]),
        decreases commands.len() - i,
    {
        let c = &commands[i];
        let ghost st0 = st@;
        proof {
            lemma_first_pass_next(cmds, i as int);
            assert(cmds[i as int] == c@);
        }
        match mark_command(&mut st, c) {
            Ok(()) => {
                proof {
                    lemma_mark_keeps_places(st0, c@);
                }
            },
            Err(e) => {
                proof {
                    lemma_first_pass_err(cmds, i + 1);
                    assert forall|k: int| 0 <= k < cmds.len() implies !first_pass_stops_after(
                        #[trigger] first_pass(cmds.take(k)),
                        cmds[k],
                    ) by {
                        if k > i {
                            lemma_first_pass_err_later(cmds, i + 1, k);
                        }
                    }
                }
                return Some(Err(e));
            },
        }
        if is_instruction_command(c) {
            let counter = match st.section {
                Section::Text => st.text,
                Section::Data => st.data,
            };
            if counter > u32::MAX - 4 {
                assert(first_pass_stops_after(first_pass(cmds.take(i as int)), cmds[i as int]));
                return None;
            }
            match st.section {
                Section::Text => {
                    st.text = st.text + 4;
                },
                Section::Data => {
                    st.data = st.data + 4;
                },
            }
        } else if st.section == Section::Data && starts_with_char(&c.opcode, '.') {
            if crate::utils::assembler::encoder::bitv_overflows_exec(c) {
                assert(first_pass_stops_after(first_pass(cmds.take(i as int)), cmds[i as int]));
                return None;
            }
            match get_instruction_or_data_size(c, st.data) {
                Ok((size, pad)) => {
                    if st.data as u64 + pad as u64 + size as u64 > u32::MAX as u64 {
                        assert(first_pass_stops_after(first_pass(cmds.take(i as int)), cmds[i as int]));
                        return None;
                    }
                    st.data = st.data + pad + size;
                },
                Err(_) => {},
            }
        }
        assert(!first_pass_stops_after(first_pass(cmds.take(i as int)), cmds[i as int]));
        i = i + 1;
    }
    assert(cmds.take(commands@.len() as int) =~= cmds);
    Some(Ok(st))
}

// ---------------------------------------------------------------------------
// Segment layout, executed
// ---------------------------------------------------------------------------

/// Appends `prefix`, then `v` as four or more upper-case hex digits.
fn push_hex4(s: &mut String, prefix: &str, v: u64)
    ensures
        final(s)@ == old(s)@ + prefix@ + hex_text(v as nat, 4, true),
{
    push_text(s, prefix);
    push_hex(s, v, 4, true);
}

/// Checks the segment layout: `(text_start, stack_start, stack_size,
/// data_start)`, or the error of a segment that does not fit; `None` when
/// the end of the stack or of the text overflows 32 bits.
fn segment_layout(st: &SymbolState, total: usize) -> (r: Option<
    Result<(u32, u32, u32, u32), String>,
>)
    ensures
        r is None <==> layout_stops(st@, total),
        r is Some ==> match layout_error(st@, total) {
            Some(e) => r matches Some(Err(msg)) && msg@ == e,
            None => r == Some(Ok::<(u32, u32, u32, u32), String>(layout_of(st@, total))),
        },
{
    let ts = match st.text_start {
        Some(v) => v,
        None => DEFAULT_TEXT_START,
    };
    let sz = match st.stack_size {
        Some(v) => v,
        None => DEFAULT_STACK_SIZE,
    };
    let ss = match st.stack_start {
        Some(v) => v,
        None => {
            let t32 = total as u32;
            if t32 >= sz {
                t32 - sz
            } else {
                0
            }
        },
    };
    let ds = if ss >= st.data {
        ss - st.data
    } else {
        0
    };
    let total64 = total as u64;
    if ts as u64 >= total64 {
        let mut e = String::new();
        push_hex4(&mut e, ".text_start address (0x", ts as u64);
        push_hex4(&mut e, ") is outside total memory (0x", total64);
        push_text(&mut e, ").");
        assert(e@ =~= layout_error(st@, total).unwrap());
        return Some(Err(e));
    }
    if ss as u64 >= total64 {
        let mut e = String::new();
        push_hex4(&mut e, ".stack_start address (0x", ss as u64);
        push_hex4(&mut e, ") is outside total memory (0x", total64);
        push_text(&mut e, ").");
        assert(e@ =~= layout_error(st@, total).unwrap());
        return Some(Err(e));
    }
    if ss as u64 + sz as u64 > total64 {
        if ss as u64 + sz as u64 > u32::MAX as u64 {
            return None;
        }
        let mut e = String::new();
        push_hex4(&mut e, "Stack segment (0x", ss as u64);
        push_hex4(&mut e, " - 0x", (ss + sz) as u64);
        push_hex4(&mut e, ") exceeds total memory (0x", total64);
        push_text(&mut e, ").");
        assert(e@ =~= layout_error(st@, total).unwrap());
        return Some(Err(e));
    }
    if ts as u64 + st.text as u64 > u32::MAX as u64 {
        return None;
    }
    let text_end = ts + st.text;
    if text_end > ds {
        let mut e = String::new();
        push_hex4(&mut e, "Text segment (0x", ts as u64);
        push_hex4(&mut e, " - 0x", text_end as u64);
        push_hex4(&mut e, ") overlaps with Data segment (0x", ds as u64);
        push_text(&mut e, ").");
        assert(e@ =~= layout_error(st@, total).unwrap());
        return Some(Err(e));
    }
    Some(Ok((ts, ss, sz, ds)))
}

// ---------------------------------------------------------------------------
// Macro expansion, executed
// ---------------------------------------------------------------------------

/// A copy of a list of commands.
pub fn clone_commands(v: &[Command]) -> (r: Vec<Command>)
    ensures
        command_views(r@) == command_views(v@),
{
    let mut r: Vec<Command> = Vec::new();
    let mut i: usize = 0;
    while i < v.len()
        invariant
            i <= v@.len(),
            r@.len() == i,
            forall|j: int| 0 <= j < i ==> #[trigger] r@[j]@ == v@[j]@,
        decreases v.len() - i,
    {
        r.push(v[i].clone());
        i = i + 1;
    }
    assert(command_views(r@) =~= command_views(v@));
    r
}

/// The index of the first macro named `name`.
fn find_macro_index(macros: &[Macro], name: &String) -> (r: Option<usize>)
    ensures
        match find_macro(macro_views(macros@), name@) {
            Some(m) => r matches Some(i) && i < macros@.len() && macros@[i as int]@ == m,
            None => r is None,
        },
{
    let ghost ms = macro_views(macros@);
    let mut i: usize = 0;
    assert(ms.skip(0) =~= ms);
    while i < macros.len()
        invariant
            i <= macros@.len(),
            ms == macro_views(macros@),
            find_macro(ms, name@) == find_macro(ms.skip(i as int), name@),
        decreases macros.len() - i,
    {
        assert(ms.skip(i as int)[0] == macros@[i as int]@);
        if same_text(&macros[i].name, name) {
            return Some(i);
        }
        assert(ms.skip(i as int).skip(1) =~= ms.skip(i + 1));
        i = i + 1;
    }
    None
}

/// Whether an operand is the label `arg`.
fn is_label(o: &Option<Operand>, arg: &String) -> (r: bool)
    ensures
        r == (opt_view(*o) == Some(OperandView::Label(arg@))),
{
    match o {
        Some(Operand::Label(l)) => same_text(l, arg),
        _ => false,
    }
}

/// Binds one macro parameter in a body (see `bind_parameter`).
fn bind_one(body: Vec<Command>, arg: &String, value: &Option<Operand>) -> (r: Result<
    Vec<Command>,
    String,
>)
    ensures
        match bind_parameter(command_views(body@), arg@, opt_view(*value)) {
            Ok(b) => r matches Ok(v) && command_views(v@) == b,
            Err(e) => r matches Err(msg) && msg@ == e,
        },
{
    let ghost bv = command_views(body@);
    match value {
        Some(v) => {
            let mut out: Vec<Command> = Vec::new();
            let mut j: usize = 0;
            while j < body.len()
                invariant
                    j <= body@.len(),
                    bv == command_views(body@),
                    out@.len() == j,
                    forall|k: int| 0 <= k < j ==> #[trigger] out@[k]@ == replace_in(bv[k], arg@, v@),
                decreases body.len() - j,
            {
                let mut c = body[j].clone();
                if is_label(&c.operand1, arg) {
                    c.operand1 = Some(v.clone());
                }
                if is_label(&c.operand2, arg) {
                    c.operand2 = Some(v.clone());
                }
                out.push(c);
                j = j + 1;
            }
            assert(command_views(out@) =~= bv.map_values(|c: CommandView| replace_in(c, arg@, v@)));
            Ok(out)
        },
        None => {
            let mut j: usize = 0;
            while j < body.len()
                invariant
                    j <= body@.len(),
                    bv == command_views(body@),
                    *value is None,
                    forall|k: int| 0 <= k < j ==> !#[trigger] mentions(bv[k], arg@),
                decreases body.len() - j,
            {
                if is_label(&body[j].operand1, arg) || is_label(&body[j].operand2, arg) {
                    assert(mentions(bv[j as int], arg@));
                    assert(exists|k: int| 0 <= k < bv.len() && #[trigger] mentions(bv[k], arg@));
                    let mut e = string_from_str("Missing argument for macro parameter: ");
                    push_text(&mut e, arg.as_str());
                    return Err(e);
                }
                j = j + 1;
            }
            Ok(body)
        },
    }
}

/// Binds the parameters of a macro to a call's operands.
fn bind_all(m: &Macro, op1: &Option<Operand>, op2: &Option<Operand>) -> (r: Result<
    Vec<Command>,
    String,
>)
    ensures
        match bind_parameters(m@.body, m@.args, opt_view(*op1), opt_view(*op2)) {
            Ok(b) => r matches Ok(v) && command_views(v@) == b,
            Err(e) => r matches Err(msg) && msg@ == e,
        },
{
    let ghost args = m@.args;
    let mut body = clone_commands(m.body.as_slice());
    let mut i: usize = 0;
    assert(args.take(0) =~= seq![]);
    while i < m.args.len()
        invariant
            i <= m.args@.len(),
            args == texts(m.args@),
            bind_parameters(m@.body, args.take(i as int), opt_view(*op1), opt_view(*op2)) == Ok::<
                Seq<CommandView>,
                Seq<char>,
            >(command_views(body@)),
        decreases m.args.len() - i,
    {
        let value = if i == 0 {
            clone_opt(op1)
        } else if i == 1 {
            clone_opt(op2)
        } else {
            None
        };
        assert(args.take(i + 1).drop_last() =~= args.take(i as int));
        assert(args.take(i + 1).last() == m.args@[i as int]@);
        match bind_one(body, &m.args[i], &value) {
            Ok(b) => {
                body = b;
            },
            Err(e) => {
                proof {
                    lemma_bind_err(m@.body, args, opt_view(*op1), opt_view(*op2), i + 1);
                }
                return Err(e);
            },
        }
        i = i + 1;
    }
    assert(args.take(m.args@.len() as int) =~= args);
    Ok(body)
}

/// An error in binding a prefix of the parameters is the error of the whole.
proof fn lemma_bind_err(
    body: Seq<CommandView>,
    args: Seq<Seq<char>>,
    op1: Option<OperandView>,
    op2: Option<OperandView>,
    i: int,
)
    requires
        0 <= i <= args.len(),
        bind_parameters(body, args.take(i), op1, op2) is Err,
    ensures
        bind_parameters(body, args, op1, op2) == bind_parameters(body, args.take(i), op1, op2),
    decreases args.len() - i,
{
    if i == args.len() {
        assert(args.take(i) =~= args);
    } else {
        assert(args.take(i + 1).drop_last() =~= args.take(i));
        lemma_bind_err(body, args, op1, op2, i + 1);
    }
}

/// An error in expanding a prefix of the commands is the error of the whole.
proof fn lemma_expand_err(cmds: Seq<CommandView>, macros: Seq<MacroView>, i: int)
    requires
        0 <= i <= cmds.len(),
        expand(cmds.take(i), macros) is Err,
    ensures
        expand(cmds, macros) == expand(cmds.take(i), macros),
    decreases cmds.len() - i,
{
    if i == cmds.len() {
        assert(cmds.take(i) =~= cmds);
    } else {
        assert(cmds.take(i + 1).drop_last() =~= cmds.take(i));
        lemma_expand_err(cmds, macros, i + 1);
    }
}

/// Expands every macro call among the commands: a command whose opcode
/// names a macro becomes that macro's body, its parameters bound to the
/// call's operands.
fn expand_macros(commands: &[Command], macros: &[Macro]) -> (r: Result<Vec<Command>, String>)
    ensures
        match expand(command_views(commands@), macro_views(macros@)) {
            Ok(ex) => r matches Ok(v) && command_views(v@) == ex,
            Err(e) => r matches Err(msg) && msg@ == e,
        },
{
    let ghost cmds = command_views(commands@);
    let ghost ms = macro_views(macros@);
    let mut out: Vec<Command> = Vec::new();
    let mut i: usize = 0;
    assert(cmds.take(0) =~= seq![]);
    assert(command_views(out@) =~= seq![]);
    while i < commands.len()
        invariant
            i <= commands@.len(),
            cmds == command_views(commands@),
            ms == macro_views(macros@),
            expand(cmds.take(i as int), ms) == Ok::<Seq<CommandView>, Seq<char>>(
                command_views(out@),
            ),
        decreases commands.len() - i,
    {
        let c = &commands[i];
        assert(cmds.take(i + 1).drop_last() =~= cmds.take(i as int));
        assert(cmds.take(i + 1).last() == c@);
        match find_macro_index(macros, &c.opcode) {
            Some(k) => {
                match bind_all(&macros[k], &c.operand1, &c.operand2) {
                    Ok(body) => {
                        let ghost before = command_views(out@);
                        let mut j: usize = 0;
                        while j < body.len()
                            invariant
                                j <= body@.len(),
                                command_views(out@) == before + command_views(body@).take(
                                    j as int,
                                ),
                            decreases body.len() - j,
                        {
                            let ghost o0 = out@;
                            out.push(body[j].clone());
                            assert(command_views(out@) =~= command_views(o0).push(body@[j as int]@));
                            assert(command_views(body@).take(j + 1) =~= command_views(body@).take(
                                j as int,
                            ).push(body@[j as int]@));
                            j = j + 1;
                        }
                        assert(command_views(body@).take(body@.len() as int) =~= command_views(
                            body@,
                        ));
                    },
                    Err(e) => {
                        proof {
                            lemma_expand_err(cmds, ms, i + 1);
                        }
                        return Err(e);
                    },
                }
            },
            None => {
                let ghost o0 = out@;
                out.push(c.clone());
                assert(command_views(out@) =~= command_views(o0) + seq![c@]);
            },
        }
        i = i + 1;
    }
    assert(cmds.take(commands@.len() as int) =~= cmds);
    Ok(out)
}

// ---------------------------------------------------------------------------
// The second pass, executed
// ---------------------------------------------------------------------------

/// The code, data, section and data counter of the second pass.
pub struct CodeState {
    pub text: Vec<u32>,
    pub data: Vec<u8>,
    pub section: Section,
    pub counter: u32,
}

impl View for CodeState {
    type V = SecondPass;

    open spec fn view(&self) -> SecondPass {
        SecondPass {
            text: self.text@,
            data: self.data@,
            section: self.section,
            counter: self.counter,
        }
    }
}

/// Appends `src` to `dst`.
fn append_bytes(dst: &mut Vec<u8>, src: &Vec<u8>)
    ensures
        final(dst)@ == old(dst)@ + src@,
{
    let ghost d0 = dst@;
    let mut i: usize = 0;
    while i < src.len()
        invariant
            i <= src@.len(),
            dst@ == d0 + src@.take(i as int),
        decreases src.len() - i,
    {
        dst.push(src[i]);
        assert(src@.take(i + 1) =~= src@.take(i as int).push(src@[i as int]));
        i = i + 1;
    }
    assert(src@.take(src@.len() as int) =~= src@);
}

/// Whether a command has no opcode.
fn has_no_opcode(c: &Command) -> (r: bool)
    ensures
        r == (c@.opcode.len() == 0),
{
    chars_of(c.opcode.as_str()).len() == 0
}

/// Applies one command to the second pass; `None` when it would stop the
/// program (an alignment to 0, or an overflowing data counter).
fn second_pass_command(st: &mut CodeState, c: &Command, table: &Vec<(String, u32)>) -> (r: Option<
    Result<(), String>,
>)
    ensures
        r is None <==> second_pass_step_stops(old(st)@, c@, symbols_view(table@)),
        r is Some ==> match second_pass_step(old(st)@, c@, symbols_view(table@)) {
            Ok(n) => r == Some(Ok::<(), String>(())) && final(st)@ == n,
            Err(e) => r matches Some(Err(msg)) && msg@ == e,
        },
{
    let op = &c.opcode;
    if text_is(op, ".text") {
        st.section = Section::Text;
        return Some(Ok(()));
    }
    if text_is(op, ".data") {
        st.section = Section::Data;
        return Some(Ok(()));
    }
    if text_is(op, ".equ") || text_is(op, ".text_start") || text_is(op, ".stack_start") || text_is(
        op,
        ".stack_size",
    ) {
        return Some(Ok(()));
    }
    if text_is(op, ".align") {
        match &c.operand1 {
            Some(Operand::Immediate(b)) => {
                if st.section == Section::Data {
                    let b = *b;
                    if b == 0 {
                        return None;
                    }
                    let pad = (b - st.counter % b) % b;
                    if st.counter as u64 + pad as u64 > u32::MAX as u64 {
                        return None;
                    }
                    let z = crate::utils::assembler::encoder::zeros(pad);
                    append_bytes(&mut st.data, &z);
                    st.counter = st.counter + pad;
                }
            },
            _ => {},
        }
        return Some(Ok(()));
    }
    if has_no_opcode(c) {
        return Some(Ok(()));
    }
    match st.section {
        Section::Text => {
            if !starts_with_char(op, '.') {
                match assemble_instruction(c, table) {
                    Ok(w) => {
                        st.text.push(w);
                    },
                    Err(e) => {
                        return Some(Err(e));
                    },
                }
            }
            Some(Ok(()))
        },
        Section::Data => {
            if crate::utils::assembler::encoder::bitv_overflows_exec(c) {
                return None;
            }
            match assemble_data(c, table) {
                Ok(bytes) => {
                    let n = bytes.len() as u32;
                    if st.counter as u64 + n as u64 > u32::MAX as u64 {
                        return None;
                    }
                    st.counter = st.counter + n;
                    append_bytes(&mut st.data, &bytes);
                    Some(Ok(()))
                },
                Err(e) => Some(Err(e)),
            }
        },
    }
}

/// The second pass after `cmds.take(i + 1)`, from the pass after
/// `cmds.take(i)`.
proof fn lemma_second_pass_next(
    cmds: Seq<CommandView>,
    syms: Seq<(Seq<char>, u32)>,
    ds: u32,
    i: int,
)
    requires
        0 <= i < cmds.len(),
    ensures
        second_pass(cmds.take(i + 1), syms, ds) == match second_pass(cmds.take(i), syms, ds) {
            Ok(st) => second_pass_step(st, cmds[i], syms),
            Err(e) => Err(e),
        },
{
    assert(cmds.take(i + 1).drop_last() =~= cmds.take(i));
}

/// An error in the second pass over a prefix is the error of the whole pass.
proof fn lemma_second_pass_err(
    cmds: Seq<CommandView>,
    syms: Seq<(Seq<char>, u32)>,
    ds: u32,
    i: int,
)
    requires
        0 <= i <= cmds.len(),
        second_pass(cmds.take(i), syms, ds) is Err,
    ensures
        second_pass(cmds, syms, ds) == second_pass(cmds.take(i), syms, ds),
    decreases cmds.len() - i,
{
    if i == cmds.len() {
        assert(cmds.take(i) =~= cmds);
    } else {
        lemma_second_pass_next(cmds, syms, ds, i);
        lemma_second_pass_err(cmds, syms, ds, i + 1);
    }
}

/// Runs the second pass over the expanded commands, with data placed from
/// `data_start` on; `None` when it would stop the program.
fn run_second_pass(commands: &Vec<Command>, table: &Vec<(String, u32)>, data_start: u32) -> (r:
    Option<Result<CodeState, String>>)
    ensures
        r is None <==> second_pass_stops(command_views(commands@), symbols_view(table@), data_start),
        r is Some ==> match second_pass(command_views(commands@), symbols_view(table@), data_start) {
            Ok(q) => r matches Some(Ok(st)) && st@ == q,
            Err(e) => r matches Some(Err(msg)) && msg@ == e,
        },
{
    let ghost cmds = command_views(commands@);
    let ghost syms = symbols_view(table@);
    let mut st = CodeState {
        text: Vec::new(),
        data: Vec::new(),
        section: Section::Text,
        counter: data_start,
    };
    assert(cmds.take(0) =~= seq![]);
    assert(st@ == (SecondPass { text: seq![], data: seq![], section: Section::Text, counter: data_start }));
    let mut i: usize = 0;
    while i < commands.len()
        invariant
            i <= commands@.len(),
            cmds == command_views(commands@),
            syms == symbols_view(table@),
            second_pass(cmds.take(i as int), syms, data_start) == Ok::<SecondPass, Seq<char>>(st@),
            forall|k: int|
                0 <= k < i ==> !second_pass_stops_after(
                    #[trigger] second_pass(cmds.take(k), syms, data_start),
                    cmds[k],
                    syms,
                ),
        decreases commands.len() - i,
    {
        let c = &commands[i];
        proof {
            lemma_second_pass_next(cmds, syms, data_start, i as int);
            assert(cmds[i as int] == c@);
        }
        match second_pass_command(&mut st, c, table) {
            None => {
                assert(second_pass_stops_after(
                    second_pass(cmds.take(i as int), syms, data_start),
                    cmds[i as int],
                    syms,
                ));
                return None;
            },
            Some(Err(e)) => {
                proof {
                    lemma_second_pass_err(cmds, syms, data_start, i + 1);
                    assert forall|k: int| 0 <= k < cmds.len() implies !second_pass_stops_after(
                        #[trigger] second_pass(cmds.take(k), syms, data_start),
                        cmds[k],
                        syms,
                    ) by {
                        if k > i {
                            assert(cmds.take(k).take(i + 1) =~= cmds.take(i + 1));
                            lemma_second_pass_err(cmds.take(k), syms, data_start, i + 1);
                        }
                    }
                }
                return Some(Err(e));
            },
            Some(Ok(())) => {},
        }
        i = i + 1;
    }
    assert(cmds.take(commands@.len() as int) =~= cmds);
    Some(Ok(st))
}

// ---------------------------------------------------------------------------
// Assembling a program
// ---------------------------------------------------------------------------

/// Assembles a program, or gives `None` where assembling it stops the
/// program (see `assemble_program`).
/// `a + b`, wrapping around at 2^32.
fn add_wrapping_exec(a: u32, b: u32) -> (r: u32)
    ensures
        r == add_wrapping(a, b),
{
    if a as u64 + b as u64 <= u32::MAX as u64 {
        a + b
    } else {
        (a as u64 + b as u64 - 0x1_0000_0000u64) as u32
    }
}

/// The symbol table with every label at its memory address (see `placed`).
fn place_symbols(st: &SymbolState, ts: u32, ds: u32) -> (r: Vec<(String, u32)>)
    requires
        st.places@.len() == st.table@.len(),
    ensures
        symbols_view(r@) == placed(st@, ts, ds),
{
    let mut r: Vec<(String, u32)> = Vec::new();
    let mut i: usize = 0;
    while i < st.table.len()
        invariant
            i <= st.table@.len(),
            st.places@.len() == st.table@.len(),
            r@.len() == i,
            forall|k: int| 0 <= k < i ==> #[trigger] symbols_view(r@)[k] == placed(st@, ts, ds)[k],
        decreases st.table@.len() - i,
    {
        let (name, v) = &st.table[i];
        let value = match st.places[i] {
            None => *v,
            Some(Section::Text) => add_wrapping_exec(ts, *v),
            Some(Section::Data) => add_wrapping_exec(ds, *v),
        };
        let ghost r0 = r@;
        r.push((copy_string(name), value));
        proof {
            assert forall|k: int| 0 <= k < i + 1 implies #[trigger] symbols_view(r@)[k] == placed(
                st@,
                ts,
                ds,
            )[k] by {
                if k < i {
                    assert(r@[k] == r0[k]);
                    assert(symbols_view(r0)[k] == placed(st@, ts, ds)[k]);
                }
            }
        }
        i = i + 1;
    }
    assert(symbols_view(r@) =~= placed(st@, ts, ds));
    r
}

/// The error of assembled segments that overlap (see `overlap_error`).
fn check_overlap(ts: u32, ds: u32, ss: u32, text_len: usize, data_len: usize) -> (r: Option<String>)
    ensures
        match overlap_error(ts, ds, ss, text_len as nat, data_len as nat) {
            Some(e) => r matches Some(msg) && msg@ == e,
            None => r is None,
        },
{
    if text_len as u64 > 0xFFFF_FFFFu64 || ts as u64 + 4 * (text_len as u64) > ds as u64 {
        let mut e = String::new();
        push_hex4(&mut e, "Text segment at 0x", ts as u64);
        push_text(&mut e, " with ");
        push_dec(&mut e, text_len as u64);
        push_hex4(&mut e, " instructions overlaps with Data segment (0x", ds as u64);
        push_text(&mut e, ").");
        return Some(e);
    }
    if data_len as u64 > 0xFFFF_FFFFu64 || ds as u64 + data_len as u64 > ss as u64 {
        let mut e = String::new();
        push_hex4(&mut e, "Data segment at 0x", ds as u64);
        push_text(&mut e, " with ");
        push_dec(&mut e, data_len as u64);
        push_hex4(&mut e, " bytes overlaps with Stack segment (0x", ss as u64);
        push_text(&mut e, ").");
        return Some(e);
    }
    None
}

fn assemble_checked(commands: &[Command], macros: &[Macro], total_memory_size: usize) -> (r: Option<
    Result<AssembledProgram, String>,
>)
    ensures
        r is None <==> assembly_stops(
            command_views(commands@),
            macro_views(macros@),
            total_memory_size,
        ),
        r is Some ==> match assembly(command_views(commands@), macro_views(macros@), total_memory_size) {
            Ok(p) => r matches Some(Ok(prog)) && prog@ == p,
            Err(e) => r matches Some(Err(msg)) && msg@ == e,
        },
{
    let st = match run_first_pass(commands) {
        None => {
            return None;
        },
        Some(Ok(st)) => st,
        Some(Err(e)) => {
            return Some(Err(e));
        },
    };
    let (ts, ss, sz, ds) = match segment_layout(&st, total_memory_size) {
        None => {
            return None;
        },
        Some(Ok(l)) => l,
        Some(Err(e)) => {
            return Some(Err(e));
        },
    };
    let expanded = match expand_macros(commands, macros) {
        Ok(v) => v,
        Err(e) => {
            return Some(Err(e));
        },
    };
    let table = place_symbols(&st, ts, ds);
    let code = match run_second_pass(&expanded, &table, ds) {
        None => {
            return None;
        },
        Some(Ok(code)) => code,
        Some(Err(e)) => {
            return Some(Err(e));
        },
    };
    if let Some(e) = check_overlap(ts, ds, ss, code.text.len(), code.data.len()) {
        return Some(Err(e));
    }
    Some(
        Ok(
            AssembledProgram {
                text: code.text,
                data: code.data,
                actual_text_start: ts,
                actual_data_start: ds,
                actual_stack_start: ss,
                actual_stack_size: sz,
            },
        ),
    )
}

/// Whether assembling the commands runs to an end: no counter or address
/// overflows 32 bits, and no data is aligned to 0.
pub fn assembly_fits(commands: &[Command], macros: &[Macro], total_memory_size: usize) -> (r: bool)
    ensures
        r == !assembly_stops(command_views(commands@), macro_views(macros@), total_memory_size),
{
    assemble_checked(commands, macros, total_memory_size).is_some()
}

/// Assembles a program in two passes. The first pass builds the symbol
/// table (labels, and `.equ` constants), measures the text and the data,
/// and reads the segment directives; the segments are then laid out in
/// `total_memory_size` bytes: the stack at the top (or at `.stack_start`),
/// the data just below it, the text from `.text_start` (default 0), and
/// every label is placed at its memory address. Macro calls are expanded,
/// and the second pass encodes each instruction of the text section and the
/// bytes of each data directive. Segments that overlap are an error, before
/// and after the second pass (see `layout_error`, `overlap_error`). `Err`
/// gives the first problem met.
pub fn assemble_program(commands: &[Command], macros: &[Macro], total_memory_size: usize) -> (r:
    Result<AssembledProgram, String>)
    requires
        !assembly_stops(command_views(commands@), macro_views(macros@), total_memory_size),
    ensures
        match assembly(command_views(commands@), macro_views(macros@), total_memory_size) {
            Ok(p) => r matches Ok(prog) && prog@ == p,
            Err(e) => r matches Err(msg) && msg@ == e,
        },
{
    match assemble_checked(commands, macros, total_memory_size) {
        Some(r) => r,
        None => Err(String::new()),
    }
}

/// Assembles a program where that runs to an end (see `assembly_fits`);
/// `None` otherwise.
pub fn try_assemble_program(commands: &[Command], macros: &[Macro], total_memory_size: usize) -> (r:
    Option<Result<AssembledProgram, String>>)
    ensures
        r is None <==> assembly_stops(
            command_views(commands@),
            macro_views(macros@),
            total_memory_size,
        ),
        r is Some ==> match assembly(command_views(commands@), macro_views(macros@), total_memory_size) {
            Ok(p) => r matches Some(Ok(prog)) && prog@ == p,
            Err(e) => r matches Some(Err(msg)) && msg@ == e,
        },
{
    if assembly_fits(commands, macros, total_memory_size) {
        Some(assemble_program(commands, macros, total_memory_size))
    } else {
        None
    }
}

} // verus!
