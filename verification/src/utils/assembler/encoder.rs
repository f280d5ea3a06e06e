//! Encoding of single assembly commands: the symbol table, the 32-bit
//! instruction words, the bytes of data directives, and the size of an item.
//!
//! An instruction word holds the opcode in bits 24..31. Register operands
//! take bits 16..19 (first) and 8..11 (second); bit 0 tells a second register
//! from an immediate. A 24-bit address sets bit 23 to read its register
//! (bits 19..22) instead; an 8-bit address sets bit 7 to read its register
//! (bits 3..6).

use vstd::prelude::*;
use crate::memory::main_memory::{byte_of, u32_bytes};
use vstd::utf8::encode_utf8;
use crate::memory::registers::Reg;
use crate::text::{
    chars_equal_str, chars_of, dec_text, push_dec, push_str, result_is, same_text,
    starts_with_char, string_from_str, text_is,
};
use crate::utils::assembler::command_processor::{Command, CommandView};
use crate::utils::assembler::operands::{Operand, OperandView};

verus! {

// ---------------------------------------------------------------------------
// The symbol table
// ---------------------------------------------------------------------------

/// The names and values of a symbol table.
pub open spec fn symbols_view(t: Seq<(String, u32)>) -> Seq<(Seq<char>, u32)> {
    t.map_values(|p: (String, u32)| (p.0@, p.1))
}

/// The value of the latest symbol named `name`.
pub open spec fn lookup(syms: Seq<(Seq<char>, u32)>, name: Seq<char>) -> Option<u32>
    decreases syms.len(),
{
    if syms.len() == 0 {
        None
    } else if syms.last().0 == name {
        Some(syms.last().1)
    } else {
        lookup(syms.drop_last(), name)
    }
}

/// The value of a symbol named in an operand.
pub open spec fn label_value(syms: Seq<(Seq<char>, u32)>, label: Seq<char>) -> Result<u32, Seq<char>> {
    match lookup(syms, label) {
        Some(v) => Ok(v),
        None => Err("Unknown label: "@ + label),
    }
}

/// The value of the symbol named `name`, if there is one.
pub fn find_symbol(table: &Vec<(String, u32)>, name: &String) -> (r: Option<u32>)
    ensures
        r == lookup(symbols_view(table@), name@),
{
    let ghost syms = symbols_view(table@);
    let mut i: usize = table.len();
    assert(syms.take(i as int) =~= syms);
    while i > 0
        invariant
            i <= table@.len(),
            syms == symbols_view(table@),
            lookup(syms, name@) == lookup(syms.take(i as int), name@),
        decreases i,
    {
        assert(syms.take(i as int).drop_last() =~= syms.take(i - 1));
        i = i - 1;
        if same_text(&table[i].0, name) {
            return Some(table[i].1);
        }
    }
    assert(syms.take(0).len() == 0);
    None
}

/// The error for an operand that names no symbol.
fn unknown_label(label: &String) -> (e: String)
    ensures
        e@ == "Unknown label: "@ + label@,
{
    let mut e = string_from_str("Unknown label: ");
    push_str(&mut e, label.as_str());
    e
}

/// The value of the symbol named `label`, or an error naming it.
pub fn resolve_label(table: &Vec<(String, u32)>, label: &String) -> (r: Result<u32, String>)
    ensures
        result_is(r, label_value(symbols_view(table@), label@)),
{
    match find_symbol(table, label) {
        Some(v) => Ok(v),
        None => Err(unknown_label(label)),
    }
}

// ---------------------------------------------------------------------------
// Operand fields
// ---------------------------------------------------------------------------

/// The number of a register, as it is encoded in an instruction.
pub fn register_to_number(reg: &Reg) -> (r: Result<u8, String>)
    ensures
        r == Ok::<u8, String>(reg.number()),
{
    match reg {
        Reg::AX => Ok(0),
        Reg::BX => Ok(1),
        Reg::CX => Ok(2),
        Reg::DX => Ok(3),
        Reg::EX => Ok(4),
        Reg::FX => Ok(5),
        Reg::GX => Ok(6),
        Reg::HX => Ok(7),
        Reg::SP => Ok(8),
        Reg::BP => Ok(9),
        Reg::SI => Ok(10),
        Reg::DI => Ok(11),
        Reg::PC => Ok(12),
        Reg::FLAGS => Ok(13),
    }
}

/// The number of a register, widened for shifting into an instruction word.
pub(crate) fn reg_num(reg: &Reg) -> (n: u32)
    ensures
        n == reg.number() as u32,
        n < 14,
{
    match register_to_number(reg) {
        Ok(n) => n as u32,
        Err(_) => 0,
    }
}

/// The error for a register where an address belongs.
pub open spec fn register_direct_text(r: Reg) -> Seq<char> {
    "Instruction does not support register direct addressing. Use an address or label, or define a new instruction for register-indirect I/O. Encountered register: "@
        + r.name()
}

fn register_direct_error(r: &Reg) -> (e: String)
    ensures
        e@ == register_direct_text(*r),
{
    let mut e = string_from_str(
        "Instruction does not support register direct addressing. Use an address or label, or define a new instruction for register-indirect I/O. Encountered register: ",
    );
    push_str(&mut e, r.name_text());
    e
}

/// The 24-bit address field that reads register `r`.
pub open spec fn indirect24(r: Reg) -> u32 {
    (1u32 << 23u32) | ((r.number() as u32) << 19u32)
}

/// The 8-bit address field that reads register `r`.
pub open spec fn indirect8(r: Reg) -> u8 {
    ((1u32 << 7u32) | ((r.number() as u32) << 3u32)) as u8
}

/// The 8-bit address field of an operand: a 7-bit direct address (of an
/// address or a label), or a register to read.
pub open spec fn addr8(op: Option<OperandView>, syms: Seq<(Seq<char>, u32)>) -> Result<u8, Seq<char>> {
    match op {
        None => Err("Missing operand for 8-bit address or register indirect"@),
        Some(OperandView::Address(a)) => Ok((a & 0x7F) as u8),
        Some(OperandView::Label(l)) => match label_value(syms, l) {
            Ok(v) => Ok((v & 0x7F) as u8),
            Err(e) => Err(e),
        },
        Some(OperandView::AddressRegister(r)) => Ok(indirect8(r)),
        Some(OperandView::Register(r)) => Err(register_direct_text(r)),
        Some(_) => Err("Invalid operand for 8-bit address or register indirect"@),
    }
}

fn assemble_8bit_addr_or_reg_indirect(operand: Option<&Operand>, table: &Vec<(String, u32)>) -> (r:
    Result<u8, String>)
    ensures
        result_is(
            r,
            addr8(
                match operand {
                    Some(o) => Some(o@),
                    None => None,
                },
                symbols_view(table@),
            ),
        ),
{
    match operand {
        None => Err(string_from_str("Missing operand for 8-bit address or register indirect")),
        Some(Operand::Address(a)) => Ok((*a & 0x7F) as u8),
        Some(Operand::Label(l)) => match resolve_label(table, l) {
            Ok(v) => Ok((v & 0x7F) as u8),
            Err(e) => Err(e),
        },
        Some(Operand::AddressRegister(reg)) => {
            let n = reg_num(reg);
            Ok(((1u32 << 7u32) | (n << 3u32)) as u8)
        },
        Some(Operand::Register(reg)) => Err(register_direct_error(reg)),
        Some(_) => Err(string_from_str("Invalid operand for 8-bit address or register indirect")),
    }
}

/// The optional view of an optional operand reference.
pub open spec fn op_view(o: Option<&Operand>) -> Option<OperandView> {
    match o {
        Some(op) => Some(op@),
        None => None,
    }
}

// ---------------------------------------------------------------------------
// Instruction forms
// ---------------------------------------------------------------------------

/// An instruction on a flag: `SETF`, `CLRF`.
pub open spec fn flag_op_word(opcode: u32, op1: Option<OperandView>) -> Result<u32, Seq<char>> {
    match op1 {
        Some(OperandView::Flag(id)) => Ok((opcode << 24u32) | (id as u32)),
        _ => Err("Instruction requires a flag name operand"@),
    }
}

fn assemble_flag_op(opcode: u32, op1: Option<&Operand>) -> (r: Result<u32, String>)
    ensures
        result_is(r, flag_op_word(opcode, op_view(op1))),
{
    match op1 {
        Some(Operand::Flag(id)) => Ok((opcode << 24u32) | (*id as u32)),
        _ => Err(string_from_str("Instruction requires a flag name operand")),
    }
}

/// The error for an immediate that does not fit in 16 bits.
pub open spec fn too_large_text(v: u32) -> Seq<char> {
    "Immediate value "@ + dec_text(v as nat) + " is too large for this instruction. Maximum is 65535."@
}

/// A register and a 16-bit immediate (or a label's value).
pub open spec fn reg_imm_word(
    opcode: u32,
    op1: Option<OperandView>,
    op2: Option<OperandView>,
    syms: Seq<(Seq<char>, u32)>,
) -> Result<u32, Seq<char>> {
    match op1 {
        Some(OperandView::Register(r)) => {
            let imm = match op2 {
                Some(OperandView::Immediate(i)) => Ok(i),
                Some(OperandView::Label(l)) => label_value(syms, l),
                _ => Err("Invalid second operand for register-immediate instruction"@),
            };
            match imm {
                Err(e) => Err(e),
                Ok(v) => if v > 0xFFFF {
                    Err(too_large_text(v))
                } else {
                    Ok((opcode << 24u32) | ((r.number() as u32) << 16u32) | (v & 0xFFFF))
                },
            }
        },
        _ => Err("Invalid first operand for register-immediate instruction"@),
    }
}

fn assemble_reg_imm(
    opcode: u32,
    op1: Option<&Operand>,
    op2: Option<&Operand>,
    table: &Vec<(String, u32)>,
) -> (r: Result<u32, String>)
    ensures
        result_is(r, reg_imm_word(opcode, op_view(op1), op_view(op2), symbols_view(table@))),
{
    match op1 {
        Some(Operand::Register(reg)) => {
            let n = reg_num(reg);
            let imm = match op2 {
                Some(Operand::Immediate(i)) => *i,
                Some(Operand::Label(l)) => match resolve_label(table, l) {
                    Ok(v) => v,
                    Err(e) => {
                        return Err(e);
                    },
                },
                _ => {
                    return Err(
                        string_from_str("Invalid second operand for register-immediate instruction"),
                    );
                },
            };
            if imm > 0xFFFF {
                let mut e = string_from_str("Immediate value ");
                push_dec(&mut e, imm as u64);
                push_str(&mut e, " is too large for this instruction. Maximum is 65535.");
                return Err(e);
            }
            Ok((opcode << 24u32) | (n << 16u32) | (imm & 0xFFFF))
        },
        _ => Err(string_from_str("Invalid first operand for register-immediate instruction")),
    }
}

/// Two registers.
pub open spec fn reg_reg_word(opcode: u32, op1: Option<OperandView>, op2: Option<OperandView>) -> Result<
    u32,
    Seq<char>,
> {
    match (op1, op2) {
        (Some(OperandView::Register(r1)), Some(OperandView::Register(r2))) => Ok(
            (opcode << 24u32) | ((r1.number() as u32) << 16u32) | ((r2.number() as u32) << 8u32),
        ),
        _ => Err("Invalid operands for register-register instruction"@),
    }
}

fn assemble_reg_reg(opcode: u32, op1: Option<&Operand>, op2: Option<&Operand>) -> (r: Result<
    u32,
    String,
>)
    ensures
        result_is(r, reg_reg_word(opcode, op_view(op1), op_view(op2))),
{
    match (op1, op2) {
        (Some(Operand::Register(r1)), Some(Operand::Register(r2))) => {
            let n1 = reg_num(r1);
            let n2 = reg_num(r2);
            Ok((opcode << 24u32) | (n1 << 16u32) | (n2 << 8u32))
        },
        _ => Err(string_from_str("Invalid operands for register-register instruction")),
    }
}

/// A register and a second register (bit 0 set) or a 16-bit immediate.
pub open spec fn reg_reg_or_reg_imm_word(
    opcode: u32,
    op1: Option<OperandView>,
    op2: Option<OperandView>,
) -> Result<u32, Seq<char>> {
    match op1 {
        Some(OperandView::Register(r1)) => match op2 {
            Some(OperandView::Register(r2)) => Ok(
                (opcode << 24u32) | ((r1.number() as u32) << 16u32) | ((r2.number() as u32) << 8u32)
                    | 1u32,
            ),
            Some(OperandView::Immediate(i)) => Ok(
                (opcode << 24u32) | ((r1.number() as u32) << 16u32) | (i & 0xFFFF),
            ),
            _ => Err("Invalid second operand"@),
        },
        _ => Err("Invalid first operand"@),
    }
}

fn assemble_reg_reg_or_reg_imm(opcode: u32, op1: Option<&Operand>, op2: Option<&Operand>) -> (r:
    Result<u32, String>)
    ensures
        result_is(r, reg_reg_or_reg_imm_word(opcode, op_view(op1), op_view(op2))),
{
    match op1 {
        Some(Operand::Register(r1)) => {
            let n1 = reg_num(r1);
            match op2 {
                Some(Operand::Register(r2)) => {
                    let n2 = reg_num(r2);
                    Ok((opcode << 24u32) | (n1 << 16u32) | (n2 << 8u32) | 1u32)
                },
                Some(Operand::Immediate(i)) => Ok((opcode << 24u32) | (n1 << 16u32) | (*i & 0xFFFF)),
                _ => Err(string_from_str("Invalid second operand")),
            }
        },
        _ => Err(string_from_str("Invalid first operand")),
    }
}

/// A single register.
pub open spec fn reg_word(opcode: u32, op1: Option<OperandView>) -> Result<u32, Seq<char>> {
    match op1 {
        Some(OperandView::Register(r)) => Ok((opcode << 24u32) | ((r.number() as u32) << 16u32)),
        _ => Err("Invalid operand for register instruction"@),
    }
}

fn assemble_reg(opcode: u32, op1: Option<&Operand>) -> (r: Result<u32, String>)
    ensures
        result_is(r, reg_word(opcode, op_view(op1))),
{
    match op1 {
        Some(Operand::Register(reg)) => {
            let n = reg_num(reg);
            Ok((opcode << 24u32) | (n << 16u32))
        },
        _ => Err(string_from_str("Invalid operand for register instruction")),
    }
}

/// A 24-bit address: an address, an immediate, a label's value, or a
/// register to read.
pub open spec fn addr_word(opcode: u32, op1: Option<OperandView>, syms: Seq<(Seq<char>, u32)>) -> Result<
    u32,
    Seq<char>,
> {
    let field: Result<u32, Seq<char>> = match op1 {
        None => Err("Missing operand for address instruction"@),
        Some(OperandView::Address(a)) => Ok(a),
        Some(OperandView::Immediate(i)) => Ok(i),
        Some(OperandView::Label(l)) => label_value(syms, l),
        Some(OperandView::AddressRegister(r)) => Ok(indirect24(r)),
        Some(OperandView::Register(r)) => Err(register_direct_text(r)),
        Some(_) => Err("Invalid operand for address instruction"@),
    };
    match field {
        Ok(v) => Ok((opcode << 24u32) | (v & 0xFFFFFF)),
        Err(e) => Err(e),
    }
}

fn assemble_addr(opcode: u32, op1: Option<&Operand>, table: &Vec<(String, u32)>) -> (r: Result<
    u32,
    String,
>)
    ensures
        result_is(r, addr_word(opcode, op_view(op1), symbols_view(table@))),
{
    let v: u32 = match op1 {
        None => {
            return Err(string_from_str("Missing operand for address instruction"));
        },
        Some(Operand::Address(a)) => *a,
        Some(Operand::Immediate(i)) => *i,
        Some(Operand::Label(l)) => match resolve_label(table, l) {
            Ok(v) => v,
            Err(e) => {
                return Err(e);
            },
        },
        Some(Operand::AddressRegister(reg)) => {
            let n = reg_num(reg);
            (1u32 << 23u32) | (n << 19u32)
        },
        Some(Operand::Register(reg)) => {
            return Err(register_direct_error(reg));
        },
        Some(_) => {
            return Err(string_from_str("Invalid operand for address instruction"));
        },
    };
    Ok((opcode << 24u32) | (v & 0xFFFFFF))
}

/// A register and a 16-bit address (an address or a label's value).
pub open spec fn reg_addr_word(
    opcode: u32,
    op1: Option<OperandView>,
    op2: Option<OperandView>,
    syms: Seq<(Seq<char>, u32)>,
) -> Result<u32, Seq<char>> {
    match op1 {
        Some(OperandView::Register(r)) => match op2 {
            None => Err("Missing second operand for register-address instruction"@),
            Some(o) => {
                let a = match o {
                    OperandView::Address(a) => Ok(a),
                    OperandView::Label(l) => label_value(syms, l),
                    _ => Err("Invalid second operand for register-address instruction"@),
                };
                match a {
                    Ok(a) => Ok((opcode << 24u32) | ((r.number() as u32) << 16u32) | (a & 0xFFFF)),
                    Err(e) => Err(e),
                }
            },
        },
        _ => Err("Invalid first operand for register-address instruction"@),
    }
}

fn assemble_reg_addr(
    opcode: u32,
    op1: Option<&Operand>,
    op2: Option<&Operand>,
    table: &Vec<(String, u32)>,
) -> (r: Result<u32, String>)
    ensures
        result_is(r, reg_addr_word(opcode, op_view(op1), op_view(op2), symbols_view(table@))),
{
    match op1 {
        Some(Operand::Register(reg)) => {
            let n = reg_num(reg);
            match op2 {
                None => Err(string_from_str("Missing second operand for register-address instruction")),
                Some(o) => {
                    let a: u32 = match o {
                        Operand::Address(a) => *a,
                        Operand::Label(l) => match resolve_label(table, l) {
                            Ok(v) => v,
                            Err(e) => {
                                return Err(e);
                            },
                        },
                        _ => {
                            return Err(
                                string_from_str(
                                    "Invalid second operand for register-address instruction",
                                ),
                            );
                        },
                    };
                    Ok((opcode << 24u32) | (n << 16u32) | (a & 0xFFFF))
                },
            }
        },
        _ => Err(string_from_str("Invalid first operand for register-address instruction")),
    }
}

/// An 8-bit address and an optional 16-bit immediate (0 when absent).
pub open spec fn addr_imm_word(
    opcode: u32,
    op1: Option<OperandView>,
    op2: Option<OperandView>,
    syms: Seq<(Seq<char>, u32)>,
) -> Result<u32, Seq<char>> {
    match addr8(op1, syms) {
        Err(e) => Err(e),
        Ok(a) => match op2 {
            Some(OperandView::Immediate(i)) => Ok(
                (opcode << 24u32) | ((a as u32) << 16u32) | (i & 0xFFFF),
            ),
            None => Ok((opcode << 24u32) | ((a as u32) << 16u32)),
            _ => Err(
                "Invalid second operand for address-immediate instruction. Expected immediate or none."@,
            ),
        },
    }
}

fn assemble_addr_imm(
    opcode: u32,
    op1: Option<&Operand>,
    op2: Option<&Operand>,
    table: &Vec<(String, u32)>,
) -> (r: Result<u32, String>)
    ensures
        result_is(r, addr_imm_word(opcode, op_view(op1), op_view(op2), symbols_view(table@))),
{
    let a = match assemble_8bit_addr_or_reg_indirect(op1, table) {
        Ok(a) => a,
        Err(e) => {
            return Err(e);
        },
    };
    let imm: u32 = match op2 {
        Some(Operand::Immediate(i)) => *i,
        None => 0,
        _ => {
            return Err(
                string_from_str(
                    "Invalid second operand for address-immediate instruction. Expected immediate or none.",
                ),
            );
        },
    };
    let w = (opcode << 24u32) | ((a as u32) << 16u32) | (imm & 0xFFFF);
    assert(op2 is None ==> w == (opcode << 24u32) | ((a as u32) << 16u32)) by {
        if op2 is None {
            assert(imm & 0xFFFF == 0) by (bit_vector)
                requires
                    imm == 0,
            ;
            let x = (opcode << 24u32) | ((a as u32) << 16u32);
            assert(x | 0u32 == x) by (bit_vector);
        }
    }
    Ok(w)
}

/// An 8-bit address and an optional second register (bit 0 set) or 16-bit
/// immediate (0 when absent).
pub open spec fn addr_reg_or_addr_imm_word(
    opcode: u32,
    op1: Option<OperandView>,
    op2: Option<OperandView>,
    syms: Seq<(Seq<char>, u32)>,
) -> Result<u32, Seq<char>> {
    match addr8(op1, syms) {
        Err(e) => Err(e),
        Ok(a) => match op2 {
            Some(OperandView::Register(r)) => Ok(
                (opcode << 24u32) | ((a as u32) << 16u32) | ((r.number() as u32) << 8u32) | 1u32,
            ),
            Some(OperandView::Immediate(i)) => Ok(
                (opcode << 24u32) | ((a as u32) << 16u32) | (i & 0xFFFF),
            ),
            None => Ok((opcode << 24u32) | ((a as u32) << 16u32)),
            _ => Err("Invalid second operand. Expected register, immediate, or none."@),
        },
    }
}

fn assemble_addr_reg_or_addr_imm(
    opcode: u32,
    op1: Option<&Operand>,
    op2: Option<&Operand>,
    table: &Vec<(String, u32)>,
) -> (r: Result<u32, String>)
    ensures
        result_is(
            r,
            addr_reg_or_addr_imm_word(opcode, op_view(op1), op_view(op2), symbols_view(table@)),
        ),
{
    let a = match assemble_8bit_addr_or_reg_indirect(op1, table) {
        Ok(a) => a,
        Err(e) => {
            return Err(e);
        },
    };
    match op2 {
        Some(Operand::Register(reg)) => {
            let n = reg_num(reg);
            Ok((opcode << 24u32) | ((a as u32) << 16u32) | (n << 8u32) | 1u32)
        },
        Some(Operand::Immediate(i)) => Ok((opcode << 24u32) | ((a as u32) << 16u32) | (*i & 0xFFFF)),
        None => Ok((opcode << 24u32) | ((a as u32) << 16u32)),
        _ => Err(string_from_str("Invalid second operand. Expected register, immediate, or none.")),
    }
}

/// A register (bit 0 set), a 16-bit immediate or label's value, or a
/// register to read.
pub open spec fn reg_or_imm_word(opcode: u32, op1: Option<OperandView>, syms: Seq<(Seq<char>, u32)>) -> Result<
    u32,
    Seq<char>,
> {
    match op1 {
        None => Err("Missing operand"@),
        Some(OperandView::Register(r)) => Ok(
            (opcode << 24u32) | ((r.number() as u32) << 16u32) | 1u32,
        ),
        Some(OperandView::Immediate(i)) => Ok((opcode << 24u32) | (i & 0xFFFF)),
        Some(OperandView::Label(l)) => match label_value(syms, l) {
            Ok(v) => Ok((opcode << 24u32) | (v & 0xFFFF)),
            Err(e) => Err(e),
        },
        Some(OperandView::AddressRegister(r)) => Ok((opcode << 24u32) | indirect24(r)),
        Some(_) => Err("Invalid operand"@),
    }
}

fn assemble_reg_or_imm(opcode: u32, op1: Option<&Operand>, table: &Vec<(String, u32)>) -> (r:
    Result<u32, String>)
    ensures
        result_is(r, reg_or_imm_word(opcode, op_view(op1), symbols_view(table@))),
{
    match op1 {
        None => Err(string_from_str("Missing operand")),
        Some(Operand::Register(reg)) => {
            let n = reg_num(reg);
            Ok((opcode << 24u32) | (n << 16u32) | 1u32)
        },
        Some(Operand::Immediate(i)) => Ok((opcode << 24u32) | (*i & 0xFFFF)),
        Some(Operand::Label(l)) => match resolve_label(table, l) {
            Ok(v) => Ok((opcode << 24u32) | (v & 0xFFFF)),
            Err(e) => Err(e),
        },
        Some(Operand::AddressRegister(reg)) => {
            let n = reg_num(reg);
            Ok((opcode << 24u32) | ((1u32 << 23u32) | (n << 19u32)))
        },
        Some(_) => Err(string_from_str("Invalid operand")),
    }
}

// ---------------------------------------------------------------------------
// Instructions
// ---------------------------------------------------------------------------

/// The operand forms of the instruction set.
#[derive(Debug, Clone, Copy, PartialEq, Eq, Structural)]
pub enum Form {
    /// A register and a 16-bit immediate or label.
    RegImm,
    /// A register and a register or a 16-bit immediate.
    RegRegOrRegImm,
    /// A register and a 16-bit address or label.
    RegAddr,
    /// An 8-bit address and an optional immediate.
    AddrImm,
    /// An 8-bit address and an optional register or immediate.
    AddrRegOrAddrImm,
    /// A register, an immediate, a label or a register to read.
    RegOrImm,
    /// A single register.
    Reg,
    /// Two registers.
    RegReg,
    /// A 24-bit address.
    Addr,
    /// A flag.
    Flag,
    /// No operand.
    Bare,
}

/// The opcode and operand form of a lower-case mnemonic.
pub open spec fn mnemonic(name: Seq<char>) -> Option<(u32, Form)> {
    if name == "movi"@ {
        Some((0x01u32, Form::RegImm))
    } else if name == "movw"@ {
        Some((0x02u32, Form::RegRegOrRegImm))
    } else if name == "lodi"@ {
        Some((0x03u32, Form::RegImm))
    } else if name == "lodw"@ {
        Some((0x04u32, Form::RegAddr))
    } else if name == "stri"@ {
        Some((0x05u32, Form::AddrImm))
    } else if name == "strw"@ {
        Some((0x06u32, Form::AddrRegOrAddrImm))
    } else if name == "push"@ {
        Some((0x07u32, Form::RegOrImm))
    } else if name == "pop"@ {
        Some((0x08u32, Form::Reg))
    } else if name == "xcgh"@ {
        Some((0x09u32, Form::RegReg))
    } else if name == "addw"@ {
        Some((0x10u32, Form::RegRegOrRegImm))
    } else if name == "subw"@ {
        Some((0x11u32, Form::RegRegOrRegImm))
    } else if name == "mul"@ {
        Some((0x12u32, Form::RegRegOrRegImm))
    } else if name == "inc"@ {
        Some((0x13u32, Form::Reg))
    } else if name == "dec"@ {
        Some((0x14u32, Form::Reg))
    } else if name == "neg"@ {
        Some((0x15u32, Form::Reg))
    } else if name == "not"@ {
        Some((0x20u32, Form::Reg))
    } else if name == "and"@ {
        Some((0x21u32, Form::RegRegOrRegImm))
    } else if name == "or"@ {
        Some((0x22u32, Form::RegRegOrRegImm))
    } else if name == "xor"@ {
        Some((0x23u32, Form::RegRegOrRegImm))
    } else if name == "shl"@ {
        Some((0x24u32, Form::RegRegOrRegImm))
    } else if name == "shr"@ {
        Some((0x25u32, Form::RegRegOrRegImm))
    } else if name == "cmpw"@ {
        Some((0x30u32, Form::RegRegOrRegImm))
    } else if name == "jmp"@ {
        Some((0x40u32, Form::Addr))
    } else if name == "call"@ {
        Some((0x41u32, Form::Addr))
    } else if name == "ret"@ {
        Some((0x42u32, Form::Bare))
    } else if name == "je"@ {
        Some((0x43u32, Form::Addr))
    } else if name == "jne"@ {
        Some((0x44u32, Form::Addr))
    } else if name == "jgt"@ {
        Some((0x45u32, Form::Addr))
    } else if name == "jge"@ {
        Some((0x46u32, Form::Addr))
    } else if name == "jlt"@ {
        Some((0x47u32, Form::Addr))
    } else if name == "jle"@ {
        Some((0x48u32, Form::Addr))
    } else if name == "js"@ {
        Some((0x49u32, Form::Addr))
    } else if name == "jco"@ {
        Some((0x4Au32, Form::Addr))
    } else if name == "in"@ {
        Some((0x50u32, Form::Addr))
    } else if name == "out"@ {
        Some((0x51u32, Form::Addr))
    } else if name == "insi"@ {
        Some((0x52u32, Form::Addr))
    } else if name == "outi"@ {
        Some((0x53u32, Form::RegOrImm))
    } else if name == "insw"@ {
        Some((0x54u32, Form::AddrImm))
    } else if name == "outw"@ {
        Some((0x55u32, Form::AddrRegOrAddrImm))
    } else if name == "setf"@ {
        Some((0x60u32, Form::Flag))
    } else if name == "clrf"@ {
        Some((0x61u32, Form::Flag))
    } else if name == "halt"@ {
        Some((0xFFu32, Form::Bare))
    } else {
        None
    }
}

/// The opcode and operand form of a lower-case mnemonic.
pub fn mnemonic_of(name: &str) -> (r: Option<(u32, Form)>)
    ensures
        r == mnemonic(name@),
{
    let v = chars_of(name);
    let n = v.as_slice();
    if chars_equal_str(n, "movi") {
        Some((0x01u32, Form::RegImm))
    } else if chars_equal_str(n, "movw") {
        Some((0x02u32, Form::RegRegOrRegImm))
    } else if chars_equal_str(n, "lodi") {
        Some((0x03u32, Form::RegImm))
    } else if chars_equal_str(n, "lodw") {
        Some((0x04u32, Form::RegAddr))
    } else if chars_equal_str(n, "stri") {
        Some((0x05u32, Form::AddrImm))
    } else if chars_equal_str(n, "strw") {
        Some((0x06u32, Form::AddrRegOrAddrImm))
    } else if chars_equal_str(n, "push") {
        Some((0x07u32, Form::RegOrImm))
    } else if chars_equal_str(n, "pop") {
        Some((0x08u32, Form::Reg))
    } else if chars_equal_str(n, "xcgh") {
        Some((0x09u32, Form::RegReg))
    } else if chars_equal_str(n, "addw") {
        Some((0x10u32, Form::RegRegOrRegImm))
    } else if chars_equal_str(n, "subw") {
        Some((0x11u32, Form::RegRegOrRegImm))
    } else if chars_equal_str(n, "mul") {
        Some((0x12u32, Form::RegRegOrRegImm))
    } else if chars_equal_str(n, "inc") {
        Some((0x13u32, Form::Reg))
    } else if chars_equal_str(n, "dec") {
        Some((0x14u32, Form::Reg))
    } else if chars_equal_str(n, "neg") {
        Some((0x15u32, Form::Reg))
    } else if chars_equal_str(n, "not") {
        Some((0x20u32, Form::Reg))
    } else if chars_equal_str(n, "and") {
        Some((0x21u32, Form::RegRegOrRegImm))
    } else if chars_equal_str(n, "or") {
        Some((0x22u32, Form::RegRegOrRegImm))
    } else if chars_equal_str(n, "xor") {
        Some((0x23u32, Form::RegRegOrRegImm))
    } else if chars_equal_str(n, "shl") {
        Some((0x24u32, Form::RegRegOrRegImm))
    } else if chars_equal_str(n, "shr") {
        Some((0x25u32, Form::RegRegOrRegImm))
    } else if chars_equal_str(n, "cmpw") {
        Some((0x30u32, Form::RegRegOrRegImm))
    } else if chars_equal_str(n, "jmp") {
        Some((0x40u32, Form::Addr))
    } else if chars_equal_str(n, "call") {
        Some((0x41u32, Form::Addr))
    } else if chars_equal_str(n, "ret") {
        Some((0x42u32, Form::Bare))
    } else if chars_equal_str(n, "je") {
        Some((0x43u32, Form::Addr))
    } else if chars_equal_str(n, "jne") {
        Some((0x44u32, Form::Addr))
    } else if chars_equal_str(n, "jgt") {
        Some((0x45u32, Form::Addr))
    } else if chars_equal_str(n, "jge") {
        Some((0x46u32, Form::Addr))
    } else if chars_equal_str(n, "jlt") {
        Some((0x47u32, Form::Addr))
    } else if chars_equal_str(n, "jle") {
        Some((0x48u32, Form::Addr))
    } else if chars_equal_str(n, "js") {
        Some((0x49u32, Form::Addr))
    } else if chars_equal_str(n, "jco") {
        Some((0x4Au32, Form::Addr))
    } else if chars_equal_str(n, "in") {
        Some((0x50u32, Form::Addr))
    } else if chars_equal_str(n, "out") {
        Some((0x51u32, Form::Addr))
    } else if chars_equal_str(n, "insi") {
        Some((0x52u32, Form::Addr))
    } else if chars_equal_str(n, "outi") {
        Some((0x53u32, Form::RegOrImm))
    } else if chars_equal_str(n, "insw") {
        Some((0x54u32, Form::AddrImm))
    } else if chars_equal_str(n, "outw") {
        Some((0x55u32, Form::AddrRegOrAddrImm))
    } else if chars_equal_str(n, "setf") {
        Some((0x60u32, Form::Flag))
    } else if chars_equal_str(n, "clrf") {
        Some((0x61u32, Form::Flag))
    } else if chars_equal_str(n, "halt") {
        Some((0xFFu32, Form::Bare))
    } else {
        None
    }
}

/// The instruction word of an opcode in a form, from its operands.
pub open spec fn form_word(
    opcode: u32,
    form: Form,
    op1: Option<OperandView>,
    op2: Option<OperandView>,
    syms: Seq<(Seq<char>, u32)>,
) -> Result<u32, Seq<char>> {
    match form {
        Form::RegImm => reg_imm_word(opcode, op1, op2, syms),
        Form::RegRegOrRegImm => reg_reg_or_reg_imm_word(opcode, op1, op2),
        Form::RegAddr => reg_addr_word(opcode, op1, op2, syms),
        Form::AddrImm => addr_imm_word(opcode, op1, op2, syms),
        Form::AddrRegOrAddrImm => addr_reg_or_addr_imm_word(opcode, op1, op2, syms),
        Form::RegOrImm => reg_or_imm_word(opcode, op1, syms),
        Form::Reg => reg_word(opcode, op1),
        Form::RegReg => reg_reg_word(opcode, op1, op2),
        Form::Addr => addr_word(opcode, op1, syms),
        Form::Flag => flag_op_word(opcode, op1),
        Form::Bare => Ok(opcode << 24u32),
    }
}

/// The instruction word of a lower-case mnemonic and its operands.
pub open spec fn instruction_word(
    name: Seq<char>,
    op1: Option<OperandView>,
    op2: Option<OperandView>,
    syms: Seq<(Seq<char>, u32)>,
) -> Result<u32, Seq<char>> {
    match mnemonic(name) {
        Some((opcode, form)) => form_word(opcode, form, op1, op2, syms),
        None => Err("Unsupported instruction: "@ + name),
    }
}

/// Encodes an instruction given its mnemonic in lower case: `Err` names an
/// unknown mnemonic, or says what is wrong with an operand.
pub fn encode_instruction(
    name: &str,
    op1: Option<&Operand>,
    op2: Option<&Operand>,
    table: &Vec<(String, u32)>,
) -> (r: Result<u32, String>)
    ensures
        result_is(r, instruction_word(name@, op_view(op1), op_view(op2), symbols_view(table@))),
{
    match mnemonic_of(name) {
        Some((opcode, form)) => match form {
            Form::RegImm => assemble_reg_imm(opcode, op1, op2, table),
            Form::RegRegOrRegImm => assemble_reg_reg_or_reg_imm(opcode, op1, op2),
            Form::RegAddr => assemble_reg_addr(opcode, op1, op2, table),
            Form::AddrImm => assemble_addr_imm(opcode, op1, op2, table),
            Form::AddrRegOrAddrImm => assemble_addr_reg_or_addr_imm(opcode, op1, op2, table),
            Form::RegOrImm => assemble_reg_or_imm(opcode, op1, table),
            Form::Reg => assemble_reg(opcode, op1),
            Form::RegReg => assemble_reg_reg(opcode, op1, op2),
            Form::Addr => assemble_addr(opcode, op1, table),
            Form::Flag => assemble_flag_op(opcode, op1),
            Form::Bare => Ok(opcode << 24u32),
        },
        None => {
            let mut e = string_from_str("Unsupported instruction: ");
            push_str(&mut e, name);
            Err(e)
        },
    }
}

/// The lower-case form of a text, as `str::to_lowercase` gives it.
pub uninterp spec fn lowercase_of(s: Seq<char>) -> Seq<char>;

/// The lower-case form of `s` (`str::to_lowercase`, which maps each
/// character to its Unicode lower case, and a final capital sigma to `ς`).
/// The contract names the result: it depends on the text alone.
#[verifier::external_body]
pub(crate) fn to_lowercase(s: &str) -> (r: String)
    ensures
        r@ == lowercase_of(s@),
{
    s.to_lowercase()
}

/// The word of an instruction command: 0 for a directive, else the encoding
/// of its mnemonic taken in lower case.
pub open spec fn command_word(c: CommandView, syms: Seq<(Seq<char>, u32)>) -> Result<u32, Seq<char>> {
    if c.opcode.len() > 0 && c.opcode[0] == '.' {
        Ok(0)
    } else {
        instruction_word(lowercase_of(c.opcode), c.operand1, c.operand2, syms)
    }
}

/// Assembles one instruction into its 32-bit word; a directive gives 0.
pub fn assemble_instruction(command: &Command, table: &Vec<(String, u32)>) -> (r: Result<
    u32,
    String,
>)
    ensures
        result_is(r, command_word(command@, symbols_view(table@))),
{
    if starts_with_char(&command.opcode, '.') {
        return Ok(0);
    }
    let name = to_lowercase(command.opcode.as_str());
    encode_instruction(name.as_str(), command.operand1.as_ref(), command.operand2.as_ref(), table)
}

// ---------------------------------------------------------------------------
// Data
// ---------------------------------------------------------------------------

/// Whether `n` is a power of two.
pub open spec fn power_of_two(n: nat) -> bool
    decreases n,
{
    if n == 1 {
        true
    } else if n == 0 || n % 2 == 1 {
        false
    } else {
        power_of_two(n / 2)
    }
}

/// Whether `n` is a power of two (`u32::is_power_of_two`).
pub fn is_power_of_two(n: u32) -> (r: bool)
    ensures
        r == power_of_two(n as nat),
{
    if n == 0 {
        return false;
    }
    let mut x: u32 = n;
    while x > 1 && x % 2 == 0
        invariant
            x >= 1,
            power_of_two(x as nat) == power_of_two(n as nat),
        decreases x,
    {
        x = x / 2;
    }
    x == 1
}

/// The byte length of a string's UTF-8 text plus its terminating zero, as a
/// 32-bit count.
pub open spec fn string_size(s: Seq<char>) -> u32 {
    ((encode_utf8(s).len() + 1) % 0x1_0000_0000) as u32
}

fn string_size_of(s: &String) -> (r: u32)
    ensures
        r == string_size(s@),
{
    let n: u64 = s.as_str().as_bytes().len() as u64;
    let m: u64 = n % 0x1_0000_0000;
    assert((n + 1) % 0x1_0000_0000 == if m == 0xFFFF_FFFF { 0 } else { m + 1 }) by (nonlinear_arith)
        requires
            m == n % 0x1_0000_0000,
    ;
    if m == 0xFFFF_FFFF {
        0
    } else {
        (m + 1) as u32
    }
}

/// Whether a `.bitv` from `b` to `e` covers more than `u32::MAX` bytes, so
/// that its size overflows.
pub open spec fn bitv_overflows(c: CommandView) -> bool {
    &&& c.opcode == ".bitv"@
    &&& c.operand1 matches Some(OperandView::Address(b))
    &&& c.operand2 matches Some(OperandView::Address(e))
    &&& b <= e
    &&& e - b + 1 > u32::MAX
}

/// Whether a command is a `.bitv` whose size overflows (see
/// `bitv_overflows`).
pub fn bitv_overflows_exec(c: &Command) -> (r: bool)
    ensures
        r == bitv_overflows(c@),
{
    if !text_is(&c.opcode, ".bitv") {
        return false;
    }
    match (&c.operand1, &c.operand2) {
        (Some(Operand::Address(b)), Some(Operand::Address(e))) => *b <= *e && *b == 0 && *e
            == u32::MAX,
        _ => false,
    }
}

/// The bytes a data directive puts in the data segment.
pub open spec fn data_bytes(c: CommandView, syms: Seq<(Seq<char>, u32)>) -> Result<Seq<u8>, Seq<char>> {
    if c.opcode == ".word"@ {
        match c.operand1 {
            Some(OperandView::Immediate(v)) => Ok(u32_bytes(v)),
            Some(OperandView::Label(l)) => match label_value(syms, l) {
                Ok(v) => Ok(u32_bytes(v)),
                Err(e) => Err(e),
            },
            _ => Err(".word directive requires an immediate value or a label"@),
        }
    } else if c.opcode == ".byte"@ {
        match c.operand1 {
            Some(OperandView::Immediate(v)) => Ok(seq![v as u8]),
            _ => Err(".byte directive requires an immediate value"@),
        }
    } else if c.opcode == ".string"@ {
        match c.operand1 {
            Some(OperandView::String(t)) => Ok(encode_utf8(t).push(0u8)),
            _ => Err(".string directive requires a string operand"@),
        }
    } else if c.opcode == ".space"@ {
        match c.operand1 {
            Some(OperandView::Immediate(v)) => Ok(Seq::new(v as nat, |i: int| 0u8)),
            _ => Err(".space directive requires an immediate value"@),
        }
    } else if c.opcode == ".bitv"@ {
        match (c.operand1, c.operand2) {
            (Some(OperandView::Address(b)), Some(OperandView::Address(e))) => if b > e {
                Err(".bitv begin address cannot be greater than end address"@)
            } else {
                Ok(Seq::new((e - b + 1) as nat, |i: int| 0u8))
            },
            _ => Err(".bitv directive requires two address operands"@),
        }
    } else {
        Err("Unknown directive in data section: "@ + c.opcode)
    }
}

/// `n` zero bytes.
pub(crate) fn zeros(n: u32) -> (r: Vec<u8>)
    ensures
        r@ == Seq::new(n as nat, |i: int| 0u8),
{
    let mut r: Vec<u8> = Vec::new();
    let mut i: u32 = 0;
    while i < n
        invariant
            i <= n,
            r@ == Seq::new(i as nat, |k: int| 0u8),
        decreases n - i,
    {
        r.push(0);
        i = i + 1;
        assert(r@ =~= Seq::new(i as nat, |k: int| 0u8));
    }
    r
}

/// The little-endian bytes of a word (`u32::to_le_bytes`).
fn le_bytes(v: u32) -> (r: Vec<u8>)
    ensures
        r@ == u32_bytes(v),
{
    let mut r: Vec<u8> = Vec::new();
    r.push((v & 0xff) as u8);
    r.push(((v >> 8) & 0xff) as u8);
    r.push(((v >> 16) & 0xff) as u8);
    r.push(((v >> 24) & 0xff) as u8);
    proof {
        assert(byte_of(v, 0) == (v & 0xff) as u8) by (bit_vector);
        assert(byte_of(v, 1) == ((v >> 8) & 0xff) as u8) by (bit_vector);
        assert(byte_of(v, 2) == ((v >> 16) & 0xff) as u8) by (bit_vector);
        assert(byte_of(v, 3) == ((v >> 24) & 0xff) as u8) by (bit_vector);
    }
    assert(r@ =~= u32_bytes(v));
    r
}

/// The UTF-8 bytes of a string, then a zero.
fn string_bytes(t: &String) -> (r: Vec<u8>)
    ensures
        r@ == encode_utf8(t@).push(0u8),
{
    let b = t.as_str().as_bytes();
    let mut r: Vec<u8> = Vec::new();
    let mut i: usize = 0;
    while i < b.len()
        invariant
            i <= b@.len(),
            b@ == encode_utf8(t@),
            r@ == b@.take(i as int),
        decreases b.len() - i,
    {
        r.push(b[i]);
        i = i + 1;
        assert(r@ =~= b@.take(i as int));
    }
    assert(b@.take(b@.len() as int) =~= b@);
    r.push(0);
    r
}

/// Assembles a data directive into its bytes.
pub fn assemble_data(command: &Command, table: &Vec<(String, u32)>) -> (r: Result<Vec<u8>, String>)
    requires
        !bitv_overflows(command@),
    ensures
        match data_bytes(command@, symbols_view(table@)) {
            Ok(b) => r matches Ok(v) && v@ == b,
            Err(e) => r matches Err(msg) && msg@ == e,
        },
{
    let op = &command.opcode;
    if text_is(op, ".word") {
        match &command.operand1 {
            Some(Operand::Immediate(v)) => Ok(le_bytes(*v)),
            Some(Operand::Label(l)) => match resolve_label(table, l) {
                Ok(v) => Ok(le_bytes(v)),
                Err(e) => Err(e),
            },
            _ => Err(string_from_str(".word directive requires an immediate value or a label")),
        }
    } else if text_is(op, ".byte") {
        match &command.operand1 {
            Some(Operand::Immediate(v)) => {
                let mut r: Vec<u8> = Vec::new();
                r.push(*v as u8);
                assert(r@ =~= seq![*v as u8]);
                Ok(r)
            },
            _ => Err(string_from_str(".byte directive requires an immediate value")),
        }
    } else if text_is(op, ".string") {
        match &command.operand1 {
            Some(Operand::String(t)) => Ok(string_bytes(t)),
            _ => Err(string_from_str(".string directive requires a string operand")),
        }
    } else if text_is(op, ".space") {
        match &command.operand1 {
            Some(Operand::Immediate(v)) => Ok(zeros(*v)),
            _ => Err(string_from_str(".space directive requires an immediate value")),
        }
    } else if text_is(op, ".bitv") {
        match (&command.operand1, &command.operand2) {
            (Some(Operand::Address(b)), Some(Operand::Address(e))) => {
                if *b > *e {
                    Err(string_from_str(".bitv begin address cannot be greater than end address"))
                } else {
                    Ok(zeros(*e - *b + 1))
                }
            },
            _ => Err(string_from_str(".bitv directive requires two address operands")),
        }
    } else {
        let mut e = string_from_str("Unknown directive in data section: ");
        push_str(&mut e, op.as_str());
        Err(e)
    }
}

/// The size and the padding that an item takes: 4 bytes for an
/// instruction; for a directive, the bytes it reserves, or for `.align` the
/// padding up to its power-of-two boundary from `addr`.
pub open spec fn item_size(c: CommandView, addr: u32) -> Result<(u32, u32), Seq<char>> {
    if c.opcode.len() > 0 && c.opcode[0] == '.' {
        if c.opcode == ".text"@ || c.opcode == ".data"@ || c.opcode == ".equ"@ {
            Ok((0, 0))
        } else if c.opcode == ".word"@ {
            Ok((4, 0))
        } else if c.opcode == ".byte"@ {
            Ok((1, 0))
        } else if c.opcode == ".string"@ {
            match c.operand1 {
                Some(OperandView::String(t)) => Ok((string_size(t), 0)),
                _ => Err(".string directive requires a string operand"@),
            }
        } else if c.opcode == ".space"@ {
            match c.operand1 {
                Some(OperandView::Immediate(v)) => Ok((v, 0)),
                _ => Err(".space directive requires an immediate value"@),
            }
        } else if c.opcode == ".align"@ {
            match c.operand1 {
                Some(OperandView::Immediate(b)) => if b == 0 || !power_of_two(b as nat) {
                    Err(".align boundary must be a power of two"@)
                } else {
                    Ok((0u32, (((b as int) - ((addr % b) as int)) % (b as int)) as u32))
                },
                _ => Err(".align directive requires an immediate value"@),
            }
        } else if c.opcode == ".bitv"@ {
            match (c.operand1, c.operand2) {
                (Some(OperandView::Address(b)), Some(OperandView::Address(e))) => if b > e {
                    Err(".bitv begin address cannot be greater than end address"@)
                } else {
                    Ok(((e - b + 1) as u32, 0))
                },
                _ => Err(".bitv directive requires two address operands"@),
            }
        } else {
            Err("Unknown directive: "@ + c.opcode)
        }
    } else {
        Ok((4, 0))
    }
}

/// The size and padding of an item at `current_address` (see `item_size`).
pub fn get_instruction_or_data_size(command: &Command, current_address: u32) -> (r: Result<
    (u32, u32),
    String,
>)
    requires
        !bitv_overflows(command@),
    ensures
        result_is(r, item_size(command@, current_address)),
{
    let op = &command.opcode;
    if !starts_with_char(op, '.') {
        return Ok((4, 0));
    }
    if text_is(op, ".text") || text_is(op, ".data") || text_is(op, ".equ") {
        Ok((0, 0))
    } else if text_is(op, ".word") {
        Ok((4, 0))
    } else if text_is(op, ".byte") {
        Ok((1, 0))
    } else if text_is(op, ".string") {
        match &command.operand1 {
            Some(Operand::String(t)) => Ok((string_size_of(t), 0)),
            _ => Err(string_from_str(".string directive requires a string operand")),
        }
    } else if text_is(op, ".space") {
        match &command.operand1 {
            Some(Operand::Immediate(v)) => Ok((*v, 0)),
            _ => Err(string_from_str(".space directive requires an immediate value")),
        }
    } else if text_is(op, ".align") {
        match &command.operand1 {
            Some(Operand::Immediate(b)) => {
                let b = *b;
                if b == 0 || !is_power_of_two(b) {
                    return Err(string_from_str(".align boundary must be a power of two"));
                }
                Ok((0, (b - current_address % b) % b))
            },
            _ => Err(string_from_str(".align directive requires an immediate value")),
        }
    } else if text_is(op, ".bitv") {
        match (&command.operand1, &command.operand2) {
            (Some(Operand::Address(b)), Some(Operand::Address(e))) => {
                if *b > *e {
                    Err(string_from_str(".bitv begin address cannot be greater than end address"))
                } else {
                    Ok((*e - *b + 1, 0))
                }
            },
            _ => Err(string_from_str(".bitv directive requires two address operands")),
        }
    } else {
        let mut e = string_from_str("Unknown directive: ");
        push_str(&mut e, op.as_str());
        Err(e)
    }
}

} // verus!
