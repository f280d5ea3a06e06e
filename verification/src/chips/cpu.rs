//! The CPU of the ARC computer: its registers, instruction decoding and
//! execution.
//!
//! An instruction word holds its opcode in bits 24..31. The CPU fetches the
//! word at the program counter, moves the counter past it, decodes the
//! operands that the opcode's form puts in the word, and runs the
//! instruction.

use vstd::prelude::*;
use crate::instructions::{
    aritmethic, bitwise, compare, control, fpu_ok, io, machine, moves, read_word, system, with_reg,
    FloatOp, Machine,
};
use crate::memory::main_memory::WorkMemory;
use crate::memory::registers::{Reg, Registers};
use crate::text::{dec_text, hex_text, push_dec, push_hex, string_from_str};
use crate::utils::assembler::operands::{Operand, OperandView};

verus! {

/// The central processing unit: the registers, and whether it has halted.
#[derive(Debug, Clone, Copy)]
pub struct CPU {
    /// The set of registers available to the CPU.
    pub registers: Registers,
    /// Whether the CPU is halted.
    pub halted: bool,
}

/// What an output instruction hands out to be shown.
#[derive(Debug, Clone, PartialEq)]
pub enum Output {
    /// The zero-terminated text that `OUT` read, without its zero.
    Text(Vec<u8>),
    /// The word that `OUTW` read.
    Word(u32),
}

/// The mathematical value of an `Output`.
pub enum OutputView {
    Text(Seq<u8>),
    Word(u32),
}

impl View for Output {
    type V = OutputView;

    open spec fn view(&self) -> OutputView {
        match self {
            Output::Text(t) => OutputView::Text(t@),
            Output::Word(w) => OutputView::Word(*w),
        }
    }
}

/// The view of an optional output.
pub open spec fn output_view(o: Option<Output>) -> Option<OutputView> {
    match o {
        Some(v) => Some(v@),
        None => None,
    }
}

// ---------------------------------------------------------------------------
// Decoding
// ---------------------------------------------------------------------------

/// The error for a register number out of range.
pub open spec fn invalid_register_text(n: u8) -> Seq<char> {
    "Invalid register number: "@ + dec_text(n as nat)
}

/// The register that a number encodes, or the error for a number out of
/// range.
pub open spec fn register_of(n: u8) -> Result<Reg, Seq<char>> {
    match Reg::from_number(n as u32) {
        Some(r) => Ok(r),
        None => Err(invalid_register_text(n)),
    }
}

/// The register that a number encodes.
pub fn number_to_register(num: u8) -> (r: Result<Reg, String>)
    ensures
        match register_of(num) {
            Ok(reg) => r == Ok::<Reg, String>(reg),
            Err(e) => r matches Err(msg) && msg@ == e,
        },
{
    match num {
        0 => Ok(Reg::AX),
        1 => Ok(Reg::BX),
        2 => Ok(Reg::CX),
        3 => Ok(Reg::DX),
        4 => Ok(Reg::EX),
        5 => Ok(Reg::FX),
        6 => Ok(Reg::GX),
        7 => Ok(Reg::HX),
        8 => Ok(Reg::SP),
        9 => Ok(Reg::BP),
        10 => Ok(Reg::SI),
        11 => Ok(Reg::DI),
        12 => Ok(Reg::PC),
        13 => Ok(Reg::FLAGS),
        _ => {
            let mut e = string_from_str("Invalid register number: ");
            push_dec(&mut e, num as u64);
            Err(e)
        },
    }
}

/// The register whose number is the byte of `instr` from bit `shift` on.
pub open spec fn register_field(instr: u32, shift: u32) -> Result<Reg, Seq<char>> {
    register_of(((instr >> shift) & 0xFF) as u8)
}

/// The operand of a 24-bit address field: with bit 23 set, the register in
/// bits 19..22 to read the address from; else the address itself.
pub open spec fn address_operand(field: u32) -> Result<OperandView, Seq<char>> {
    if (field >> 23u32) & 1 == 1 {
        match register_of(((field >> 19u32) & 0xF) as u8) {
            Ok(r) => Ok(OperandView::AddressRegister(r)),
            Err(e) => Err(e),
        }
    } else {
        Ok(OperandView::Address(field & 0xFFFFFF))
    }
}

/// Decodes a 24-bit address field (see `address_operand`).
fn decode_address_operand(field: u32) -> (r: Result<Operand, String>)
    ensures
        match address_operand(field) {
            Ok(o) => r matches Ok(op) && op@ == o,
            Err(e) => r matches Err(msg) && msg@ == e,
        },
{
    if (field >> 23u32) & 1 == 1 {
        match number_to_register(((field >> 19u32) & 0xF) as u8) {
            Ok(reg) => Ok(Operand::AddressRegister(reg)),
            Err(e) => Err(e),
        }
    } else {
        Ok(Operand::Address(field & 0xFFFFFF))
    }
}

/// The operand of an 8-bit address field: with bit 7 set, the register in
/// bits 3..6 to read the address from; else the 7-bit address itself.
pub open spec fn address8_operand(field: u32) -> Result<OperandView, Seq<char>> {
    if (field >> 7u32) & 1 == 1 {
        match register_of(((field >> 3u32) & 0xF) as u8) {
            Ok(r) => Ok(OperandView::AddressRegister(r)),
            Err(e) => Err(e),
        }
    } else {
        Ok(OperandView::Address(field & 0x7F))
    }
}

/// Decodes an 8-bit address field (see `address8_operand`).
fn decode_8bit_address_operand(field: u32) -> (r: Result<Operand, String>)
    ensures
        match address8_operand(field) {
            Ok(o) => r matches Ok(op) && op@ == o,
            Err(e) => r matches Err(msg) && msg@ == e,
        },
{
    if (field >> 7u32) & 1 == 1 {
        match number_to_register(((field >> 3u32) & 0xF) as u8) {
            Ok(reg) => Ok(Operand::AddressRegister(reg)),
            Err(e) => Err(e),
        }
    } else {
        Ok(Operand::Address(field & 0x7F))
    }
}

/// The opcode of an instruction word.
pub open spec fn opcode_of(instr: u32) -> u8 {
    (instr >> 24u32) as u8
}

/// A register operand from the byte at `shift`.
pub open spec fn register_operand(instr: u32, shift: u32) -> Result<OperandView, Seq<char>> {
    match register_field(instr, shift) {
        Ok(r) => Ok(OperandView::Register(r)),
        Err(e) => Err(e),
    }
}

/// A register from the byte at bit 8 when bit 0 is set, else the low 16
/// bits as an immediate.
pub open spec fn register_or_immediate(instr: u32) -> Result<OperandView, Seq<char>> {
    if instr & 1 == 1 {
        register_operand(instr, 8)
    } else {
        Ok(OperandView::Immediate(instr & 0xFFFF))
    }
}

/// Two results paired, the first error winning.
pub open spec fn both(a: Result<OperandView, Seq<char>>, b: Result<OperandView, Seq<char>>) -> Result<
    (OperandView, OperandView),
    Seq<char>,
> {
    match a {
        Err(e) => Err(e),
        Ok(x) => match b {
            Err(e) => Err(e),
            Ok(y) => Ok((x, y)),
        },
    }
}

/// The error for an opcode the CPU does not know.
pub open spec fn unknown_opcode_text(op: u8) -> Seq<char> {
    "Unknown opcode: 0x"@ + hex_text(op as nat, 2, false)
}

/// The operands an instruction word holds, as its opcode lays them out.
pub open spec fn decode(instr: u32) -> Result<(OperandView, OperandView), Seq<char>> {
    let op = opcode_of(instr);
    let none = Ok(OperandView::Empty);
    if op == 0x01 || op == 0x03 {
        both(register_operand(instr, 16), Ok(OperandView::Immediate(instr & 0xFFFF)))
    } else if op == 0x02 || op == 0x10 || op == 0x11 || op == 0x12 || op == 0x21 || op == 0x22
        || op == 0x23 || op == 0x24 || op == 0x25 || op == 0x30 {
        both(register_operand(instr, 16), register_or_immediate(instr))
    } else if op == 0x04 {
        both(register_operand(instr, 16), Ok(OperandView::Address(instr & 0xFFFF)))
    } else if op == 0x05 {
        both(
            Ok(OperandView::Address((instr >> 16u32) & 0xFF)),
            Ok(OperandView::Immediate(instr & 0xFFFF)),
        )
    } else if op == 0x06 {
        both(Ok(OperandView::Address((instr >> 16u32) & 0xFF)), register_or_immediate(instr))
    } else if op == 0x54 {
        both(address8_operand((instr >> 16u32) & 0xFF), Ok(OperandView::Immediate(instr & 0xFFFF)))
    } else if op == 0x55 {
        both(address8_operand((instr >> 16u32) & 0xFF), register_or_immediate(instr))
    } else if op == 0x07 {
        if instr & 1 == 1 {
            both(register_operand(instr, 16), none)
        } else {
            both(Ok(OperandView::Immediate(instr & 0xFFFF)), none)
        }
    } else if op == 0x08 || op == 0x13 || op == 0x14 || op == 0x15 || op == 0x20 {
        both(register_operand(instr, 16), none)
    } else if op == 0x09 {
        both(register_operand(instr, 16), register_operand(instr, 8))
    } else if op == 0x40 || op == 0x41 || (0x43 <= op && op <= 0x4A) || op == 0x50 || op == 0x51
        || op == 0x52 {
        both(address_operand(instr & 0xFFFFFF), none)
    } else if op == 0x42 || op == 0xFF {
        both(none, none)
    } else if op == 0x60 || op == 0x61 {
        both(Ok(OperandView::Flag((instr & 0xFF) as u8)), none)
    } else {
        Err(unknown_opcode_text(op))
    }
}

fn register_operand_of(instr: u32, shift: u32) -> (r: Result<Operand, String>)
    requires
        shift < 32,
    ensures
        match register_operand(instr, shift) {
            Ok(o) => r matches Ok(op) && op@ == o,
            Err(e) => r matches Err(msg) && msg@ == e,
        },
{
    match number_to_register(((instr >> shift) & 0xFF) as u8) {
        Ok(reg) => Ok(Operand::Register(reg)),
        Err(e) => Err(e),
    }
}

fn register_or_immediate_of(instr: u32) -> (r: Result<Operand, String>)
    ensures
        match register_or_immediate(instr) {
            Ok(o) => r matches Ok(op) && op@ == o,
            Err(e) => r matches Err(msg) && msg@ == e,
        },
{
    if instr & 1 == 1 {
        register_operand_of(instr, 8)
    } else {
        Ok(Operand::Immediate(instr & 0xFFFF))
    }
}

fn both_of(a: Result<Operand, String>, b: Result<Operand, String>) -> (r: Result<
    (Operand, Operand),
    String,
>)
    ensures
        match (a, b) {
            (Err(e), _) => r == Err::<(Operand, Operand), String>(e),
            (Ok(x), Err(e)) => r == Err::<(Operand, Operand), String>(e),
            (Ok(x), Ok(y)) => r == Ok::<(Operand, Operand), String>((x, y)),
        },
{
    match a {
        Err(e) => Err(e),
        Ok(x) => match b {
            Err(e) => Err(e),
            Ok(y) => Ok((x, y)),
        },
    }
}

/// Decodes the operands of an instruction word (see `decode`).
pub fn decode_operands(instr: u32) -> (r: Result<(Operand, Operand), String>)
    ensures
        match decode(instr) {
            Ok((a, b)) => r matches Ok((x, y)) && x@ == a && y@ == b,
            Err(e) => r matches Err(msg) && msg@ == e,
        },
{
    let op = (instr >> 24u32) as u8;
    if op == 0x01 || op == 0x03 {
        both_of(register_operand_of(instr, 16), Ok(Operand::Immediate(instr & 0xFFFF)))
    } else if op == 0x02 || op == 0x10 || op == 0x11 || op == 0x12 || op == 0x21 || op == 0x22
        || op == 0x23 || op == 0x24 || op == 0x25 || op == 0x30 {
        both_of(register_operand_of(instr, 16), register_or_immediate_of(instr))
    } else if op == 0x04 {
        both_of(register_operand_of(instr, 16), Ok(Operand::Address(instr & 0xFFFF)))
    } else if op == 0x05 {
        both_of(Ok(Operand::Address((instr >> 16u32) & 0xFF)), Ok(Operand::Immediate(instr & 0xFFFF)))
    } else if op == 0x06 {
        both_of(Ok(Operand::Address((instr >> 16u32) & 0xFF)), register_or_immediate_of(instr))
    } else if op == 0x54 {
        both_of(
            decode_8bit_address_operand((instr >> 16u32) & 0xFF),
            Ok(Operand::Immediate(instr & 0xFFFF)),
        )
    } else if op == 0x55 {
        both_of(decode_8bit_address_operand((instr >> 16u32) & 0xFF), register_or_immediate_of(instr))
    } else if op == 0x07 {
        if instr & 1 == 1 {
            both_of(register_operand_of(instr, 16), Ok(Operand::Empty))
        } else {
            both_of(Ok(Operand::Immediate(instr & 0xFFFF)), Ok(Operand::Empty))
        }
    } else if op == 0x08 || op == 0x13 || op == 0x14 || op == 0x15 || op == 0x20 {
        both_of(register_operand_of(instr, 16), Ok(Operand::Empty))
    } else if op == 0x09 {
        both_of(register_operand_of(instr, 16), register_operand_of(instr, 8))
    } else if op == 0x40 || op == 0x41 || (0x43 <= op && op <= 0x4A) || op == 0x50 || op == 0x51
        || op == 0x52 {
        both_of(decode_address_operand(instr & 0xFFFFFF), Ok(Operand::Empty))
    } else if op == 0x42 || op == 0xFF {
        Ok((Operand::Empty, Operand::Empty))
    } else if op == 0x60 || op == 0x61 {
        Ok((Operand::Flag((instr & 0xFF) as u8), Operand::Empty))
    } else {
        let mut e = string_from_str("Unknown opcode: 0x");
        push_hex(&mut e, op as u64, 2, false);
        Err(e)
    }
}

// ---------------------------------------------------------------------------
// Execution
// ---------------------------------------------------------------------------

/// An instruction's effect without output.
pub open spec fn silent(r: Result<(Machine, ()), Seq<char>>) -> Result<(Machine, Option<OutputView>), Seq<char>> {
    match r {
        Ok((m, _)) => Ok((m, None)),
        Err(e) => Err(e),
    }
}

/// What the instruction with opcode `op` and the given operands does.
pub open spec fn run_decoded<F: Fn(FloatOp, u32, u32) -> u32>(
    m: Machine,
    op: u8,
    o1: OperandView,
    o2: OperandView,
    fpu: F,
) -> Result<(Machine, Option<OutputView>), Seq<char>> {
    if op == 0x01 {
        silent(moves::load_immediate(m, o1, o2, "MOVI requires register first operand"@, "MOVI requires immediate second operand"@))
    } else if op == 0x03 {
        silent(moves::load_immediate(m, o1, o2, "LODI requires register first operand"@, "LODI requires immediate second operand"@))
    } else if op == 0x02 {
        silent(moves::movw_spec(m, o1, o2))
    } else if op == 0x10 {
        silent(aritmethic::addw_spec(m, o1, o2, fpu))
    } else if op == 0x11 {
        silent(aritmethic::subw_spec(m, o1, o2, fpu))
    } else if op == 0x12 {
        silent(aritmethic::mul_spec(m, o1, o2, fpu))
    } else if op == 0x21 {
        silent(bitwise::and_spec(m, o1, o2))
    } else if op == 0x22 {
        silent(bitwise::or_spec(m, o1, o2))
    } else if op == 0x23 {
        silent(bitwise::xor_spec(m, o1, o2))
    } else if op == 0x24 {
        silent(bitwise::shl_spec(m, o1, o2))
    } else if op == 0x25 {
        silent(bitwise::shr_spec(m, o1, o2))
    } else if op == 0x30 {
        silent(compare::cmpw_spec(m, o1, o2, fpu))
    } else if op == 0x04 {
        silent(moves::lodw_spec(m, o1, o2))
    } else if op == 0x05 {
        silent(moves::stri_spec(m, o1, o2))
    } else if op == 0x06 {
        silent(moves::strw_spec(m, o1, o2))
    } else if op == 0x54 {
        silent(io::store_input_spec(m, o1, io::INSW_VALUE, "INSW requires an address or address register operand"@))
    } else if op == 0x55 {
        match io::outw_spec(m, o1) {
            Ok((n, w)) => Ok((n, Some(OutputView::Word(w)))),
            Err(e) => Err(e),
        }
    } else if op == 0x07 {
        silent(moves::push_spec(m, o1))
    } else if op == 0x51 {
        match io::out_spec(m, o1) {
            Ok((n, t)) => Ok((n, Some(OutputView::Text(t)))),
            Err(e) => Err(e),
        }
    } else if op == 0x08 {
        silent(moves::pop_spec(m, o1))
    } else if op == 0x13 {
        silent(aritmethic::inc_spec(m, o1, fpu))
    } else if op == 0x14 {
        silent(aritmethic::dec_spec(m, o1, fpu))
    } else if op == 0x15 {
        silent(aritmethic::neg_spec(m, o1, fpu))
    } else if op == 0x20 {
        silent(bitwise::not_spec(m, o1))
    } else if op == 0x09 {
        silent(moves::xcgh_spec(m, o1, o2))
    } else if op == 0x40 {
        silent(compare::jmp_spec(m, o1))
    } else if op == 0x41 {
        silent(compare::call_spec(m, o1))
    } else if op == 0x43 {
        silent(compare::jump_if(m, o1, compare::zero(m)))
    } else if op == 0x44 {
        silent(compare::jump_if(m, o1, !compare::zero(m)))
    } else if op == 0x45 {
        silent(compare::jump_if(m, o1, !compare::zero(m) && !compare::sign(m)))
    } else if op == 0x46 {
        silent(compare::jump_if(m, o1, !compare::sign(m)))
    } else if op == 0x47 {
        silent(compare::jump_if(m, o1, !compare::zero(m) && compare::sign(m)))
    } else if op == 0x48 {
        silent(compare::jump_if(m, o1, compare::zero(m) || compare::sign(m)))
    } else if op == 0x49 {
        silent(compare::jump_if(m, o1, compare::sign(m)))
    } else if op == 0x4A {
        silent(compare::jump_if(m, o1, m.regs.flag(crate::memory::registers::CARRY_BIT) || m.regs.flag(crate::memory::registers::OVERFLOW_BIT)))
    } else if op == 0x50 {
        silent(io::in_spec(m, o1))
    } else if op == 0x52 {
        silent(io::store_input_spec(m, o1, io::INSI_VALUE, "INSI requires an address or address register operand"@))
    } else if op == 0x42 {
        silent(compare::ret_spec(m))
    } else if op == 0x60 {
        silent(control::flag_spec(m, o1, true, "SETF requires a flag name as operand"@))
    } else if op == 0x61 {
        silent(control::flag_spec(m, o1, false, "CLRF requires a flag name as operand"@))
    } else {
        silent(system::halt_spec(m))
    }
}

/// What executing an instruction word does: its operands decoded, then the
/// instruction run; with the output it hands out, if any.
#[verifier::opaque]
pub open spec fn execution<F: Fn(FloatOp, u32, u32) -> u32>(m: Machine, instr: u32, fpu: F) -> Result<
    (Machine, Option<OutputView>),
    Seq<char>,
> {
    match decode(instr) {
        Err(e) => Err(e),
        Ok((o1, o2)) => run_decoded(m, opcode_of(instr), o1, o2, fpu),
    }
}

/// Whether executing an instruction word stops the program: an `IN` whose
/// input would be copied past address `u32::MAX`, or an `OUT` whose text
/// runs past it.
pub open spec fn execution_stops(m: Machine, instr: u32) -> bool {
    match decode(instr) {
        Err(_) => false,
        Ok((o1, _)) => (opcode_of(instr) == 0x50 && io::in_stops(m, o1)) || (opcode_of(instr)
            == 0x51 && io::out_stops(m, o1)),
    }
}

/// Whether a step from `(c0, m0)` to `(c1, m1)` that returned `r` did what
/// `expected` says: on success the new state and output, on error that
/// text with the state `on_error`.
pub open spec fn stepped(
    m0: WorkMemory,
    c1: CPU,
    m1: WorkMemory,
    r: Result<Option<Output>, String>,
    expected: Result<(Machine, Option<OutputView>), Seq<char>>,
    on_error: Machine,
) -> bool {
    &&& m1.wf()
    &&& m1.size == m0.size
    &&& m1.stack_pointer == m0.stack_pointer
    &&& match expected {
        Ok((m, out)) => r matches Ok(o) && output_view(o) == out && machine(c1, m1) == m,
        Err(e) => r matches Err(msg) && msg@ == e && machine(c1, m1) == on_error,
    }
}

/// The opcode of an instruction word.
pub fn opcode(instr: u32) -> (r: u8)
    ensures
        r == opcode_of(instr),
{
    (instr >> 24u32) as u8
}

fn no_output(r: Result<(), String>) -> (o: Result<Option<Output>, String>)
    ensures
        match r {
            Ok(()) => o == Ok::<Option<Output>, String>(None),
            Err(e) => o == Err::<Option<Output>, String>(e),
        },
{
    match r {
        Ok(()) => Ok(None),
        Err(e) => Err(e),
    }
}

impl CPU {
    /// Creates a CPU with every register at 0, not halted.
    pub fn new() -> (c: Self)
        ensures
            c.registers.all_zero(),
            !c.halted,
    {
        CPU { registers: Registers::new(), halted: false }
    }

    /// Resets every register to 0 and clears the halt.
    pub fn reset(&mut self)
        ensures
            final(self).registers.all_zero(),
            !final(self).halted,
    {
        self.registers.reset();
        self.halted = false;
    }

    /// Loading a program text into the CPU itself does nothing: programs are
    /// loaded into memory.
    pub fn load_program(&mut self, program: &str) -> (r: Result<(), String>)
        ensures
            *final(self) == *old(self),
            r == Ok::<(), String>(()),
    {
        Ok(())
    }

    /// Executes one instruction word: decodes its operands and runs it. The
    /// output of `OUT` and `OUTW` is handed back to be shown.
    #[verifier::rlimit(60)]
    pub fn execute_instruction<F: Fn(FloatOp, u32, u32) -> u32>(
        &mut self,
        memory: &mut WorkMemory,
        instruction: u32,
        fpu: &F,
    ) -> (r: Result<Option<Output>, String>)
        requires
            old(memory).wf(),
            fpu_ok(*fpu),
            !execution_stops(machine(*old(self), *old(memory)), instruction),
        ensures
            stepped(
                *old(memory),
                *final(self),
                *final(memory),
                r,
                execution(machine(*old(self), *old(memory)), instruction, *fpu),
                machine(*old(self), *old(memory)),
            ),
    {
        proof {
            reveal(execution);
        }
        let (op1, op2) = match decode_operands(instruction) {
            Ok(p) => p,
            Err(e) => {
                return Err(e);
            },
        };
        let op = opcode(instruction);
        if op == 0x01 {
            no_output(moves::execute_movi(self, &op1, &op2, memory))
        } else if op == 0x03 {
            no_output(moves::execute_lodi(self, &op1, &op2, memory))
        } else if op == 0x02 {
            no_output(moves::execute_movw(self, &op1, &op2, memory))
        } else if op == 0x10 {
            no_output(aritmethic::execute_addw_instruction(self, &op1, &op2, memory, fpu))
        } else if op == 0x11 {
            no_output(aritmethic::execute_subw_instruction(self, &op1, &op2, memory, fpu))
        } else if op == 0x12 {
            no_output(aritmethic::execute_mul_instruction(self, &op1, &op2, memory, fpu))
        } else if op == 0x21 {
            no_output(bitwise::execute_and_instruction(self, &op1, &op2, memory))
        } else if op == 0x22 {
            no_output(bitwise::execute_or_instruction(self, &op1, &op2, memory))
        } else if op == 0x23 {
            no_output(bitwise::execute_xor_instruction(self, &op1, &op2, memory))
        } else if op == 0x24 {
            no_output(bitwise::execute_shl_instruction(self, &op1, &op2, memory))
        } else if op == 0x25 {
            no_output(bitwise::execute_shr_instruction(self, &op1, &op2, memory))
        } else if op == 0x30 {
            no_output(compare::execute_cmpw(self, &op1, &op2, memory, fpu))
        } else if op == 0x04 {
            no_output(moves::execute_lodw(self, &op1, &op2, memory))
        } else if op == 0x05 {
            no_output(moves::execute_stri(self, &op1, &op2, memory))
        } else if op == 0x06 {
            no_output(moves::execute_strw(self, &op1, &op2, memory))
        } else if op == 0x54 {
            no_output(io::execute_insw(self, &op1, &op2, memory))
        } else if op == 0x55 {
            match io::execute_outw(self, &op1, &op2, memory) {
                Ok(w) => Ok(Some(Output::Word(w))),
                Err(e) => Err(e),
            }
        } else if op == 0x07 {
            no_output(moves::execute_push(self, &op1, &op2, memory))
        } else if op == 0x51 {
            match io::execute_out(self, &op1, &op2, memory) {
                Ok(t) => Ok(Some(Output::Text(t))),
                Err(e) => Err(e),
            }
        } else if op == 0x08 {
            no_output(moves::execute_pop(self, &op1, &op2, memory))
        } else if op == 0x13 {
            no_output(aritmethic::execute_inc_instruction(self, &op1, &op2, memory, fpu))
        } else if op == 0x14 {
            no_output(aritmethic::execute_dec_instruction(self, &op1, &op2, memory, fpu))
        } else if op == 0x15 {
            no_output(aritmethic::execute_neg_instruction(self, &op1, &op2, memory, fpu))
        } else if op == 0x20 {
            no_output(bitwise::execute_not_instruction(self, &op1, &op2, memory))
        } else if op == 0x09 {
            no_output(moves::execute_xcgh(self, &op1, &op2, memory))
        } else if op == 0x40 {
            no_output(compare::execute_jmp(self, &op1, &op2, memory))
        } else if op == 0x41 {
            no_output(compare::execute_call(self, &op1, &op2, memory))
        } else if op == 0x43 {
            no_output(compare::execute_je(self, &op1, &op2, memory))
        } else if op == 0x44 {
            no_output(compare::execute_jne(self, &op1, &op2, memory))
        } else if op == 0x45 {
            no_output(compare::execute_jgt(self, &op1, &op2, memory))
        } else if op == 0x46 {
            no_output(compare::execute_jge(self, &op1, &op2, memory))
        } else if op == 0x47 {
            no_output(compare::execute_jlt(self, &op1, &op2, memory))
        } else if op == 0x48 {
            no_output(compare::execute_jle(self, &op1, &op2, memory))
        } else if op == 0x49 {
            no_output(compare::execute_js(self, &op1, &op2, memory))
        } else if op == 0x4A {
            no_output(compare::execute_jco(self, &op1, &op2, memory))
        } else if op == 0x50 {
            no_output(io::execute_in(self, &op1, &op2, memory))
        } else if op == 0x52 {
            no_output(io::execute_insi(self, &op1, &op2, memory))
        } else if op == 0x42 {
            no_output(compare::execute_ret(self, &op1, &op2, memory))
        } else if op == 0x60 {
            no_output(control::execute_setf(self, &op1, &op2, memory))
        } else if op == 0x61 {
            no_output(control::execute_clrf(self, &op1, &op2, memory))
        } else {
            no_output(system::execute_halt(self, &op1, &op2, memory))
        }
    }
}

// ---------------------------------------------------------------------------
// Stepping and running
// ---------------------------------------------------------------------------

/// The machine with its program counter moved past the instruction at it.
pub open spec fn fetched(m: Machine) -> Machine {
    with_reg(m, Reg::PC, (m.regs.pc + 4) as u32)
}

/// Whether a step stops the program: the program counter overflows, or the
/// fetched instruction stops it.
pub open spec fn step_stops(m: Machine) -> bool {
    match read_word(m, m.regs.pc) {
        Err(_) => false,
        Ok(w) => m.regs.pc + 4 > u32::MAX || execution_stops(fetched(m), w),
    }
}

/// In a memory below 4 GiB no step stops the program.
pub proof fn lemma_small_memory_steps(m: Machine)
    requires
        m.size <= u32::MAX,
    ensures
        !step_stops(m),
{
    if let Ok(w) = read_word(m, m.regs.pc) {
        if let Ok((o1, _)) = decode(w) {
            io::lemma_io_never_stops(fetched(m), o1);
        }
    }
}

/// The outputs of a step, as a sequence.
pub open spec fn outputs_of(o: Option<OutputView>) -> Seq<OutputView> {
    match o {
        Some(v) => seq![v],
        None => seq![],
    }
}

/// The views of a list of outputs.
pub open spec fn output_views(v: Seq<Output>) -> Seq<OutputView> {
    v.map_values(|o: Output| o@)
}

/// Whether the CPU may go on: it has not halted, and the program counter
/// lies below the memory's size (taken as a 32-bit number).
pub open spec fn can_run(m: Machine) -> bool {
    !m.halted && m.regs.pc < (m.size as u32)
}

/// Up to `n` steps from `m`, while the CPU may go on: the final state, the
/// outputs in order, and the first error.
pub open spec fn run_steps<F: Fn(FloatOp, u32, u32) -> u32>(m: Machine, n: nat, fpu: F) -> (
    Machine,
    Seq<OutputView>,
    Result<(), Seq<char>>,
)
    decreases n,
{
    if n == 0 || !can_run(m) {
        (m, seq![], Ok(()))
    } else {
        match read_word(m, m.regs.pc) {
            Err(e) => (m, seq![], Err(e)),
            Ok(w) => match execution(fetched(m), w, fpu) {
                Err(e) => (fetched(m), seq![], Err(e)),
                Ok((m2, out)) => {
                    let (m3, outs, res) = run_steps(m2, (n - 1) as nat, fpu);
                    (m3, outputs_of(out) + outs, res)
                },
            },
        }
    }
}

/// Whether some step among up to `n` steps from `m` stops the program.
pub open spec fn run_stops<F: Fn(FloatOp, u32, u32) -> u32>(m: Machine, n: nat, fpu: F) -> bool
    decreases n,
{
    if n == 0 || !can_run(m) {
        false
    } else if step_stops(m) {
        true
    } else {
        match read_word(m, m.regs.pc) {
            Err(_) => false,
            Ok(w) => match execution(fetched(m), w, fpu) {
                Err(_) => false,
                Ok((m2, _)) => run_stops(m2, (n - 1) as nat, fpu),
            },
        }
    }
}

/// Whether a step from `(c0, m0)` to `(c1, m1)` that returned `r` did what
/// a step does: the instruction at the program counter fetched (or the
/// error of its address), the counter moved past it, the instruction
/// executed.
pub open spec fn step_done<F: Fn(FloatOp, u32, u32) -> u32>(
    c0: CPU,
    m0: WorkMemory,
    c1: CPU,
    m1: WorkMemory,
    r: Result<Option<Output>, String>,
    fpu: F,
) -> bool {
    match read_word(machine(c0, m0), c0.registers.pc) {
        Err(e) => stepped(m0, c1, m1, r, Err(e), machine(c0, m0)),
        Ok(w) => stepped(
            m0,
            c1,
            m1,
            r,
            execution(fetched(machine(c0, m0)), w, fpu),
            fetched(machine(c0, m0)),
        ),
    }
}

impl CPU {
    /// Fetches the instruction at the program counter, moves the counter
    /// past it, and executes it. On an error in the instruction the counter
    /// stays moved.
    pub fn step<F: Fn(FloatOp, u32, u32) -> u32>(&mut self, memory: &mut WorkMemory, fpu: &F) -> (r:
        Result<Option<Output>, String>)
        requires
            old(memory).wf(),
            fpu_ok(*fpu),
            !step_stops(machine(*old(self), *old(memory))),
        ensures
            step_done(*old(self), *old(memory), *final(self), *final(memory), r, *fpu),
    {
        let instruction = match memory.read_instruction(self.registers.pc) {
            Ok(w) => w,
            Err(e) => {
                return Err(e);
            },
        };
        let pc = self.registers.read(Reg::PC);
        self.registers.write(Reg::PC, pc + 4);
        self.execute_instruction(memory, instruction, fpu)
    }

    /// Whether the CPU may go on (see `can_run`).
    pub fn is_running(&self, memory: &WorkMemory) -> (r: bool)
        ensures
            r == can_run(machine(*self, *memory)),
    {
        !self.halted && self.registers.pc < memory.size as u32
    }

    /// Runs up to `max_steps` steps while the CPU has not halted and the
    /// program counter lies inside memory; stops at the first error. Gives
    /// the outputs in order, and the error if any. Calling it again goes on
    /// where it stopped.
    pub fn run<F: Fn(FloatOp, u32, u32) -> u32>(
        &mut self,
        memory: &mut WorkMemory,
        fpu: &F,
        max_steps: u64,
    ) -> (r: (Vec<Output>, Result<(), String>))
        requires
            old(memory).wf(),
            fpu_ok(*fpu),
            !run_stops(machine(*old(self), *old(memory)), max_steps as nat, *fpu),
        ensures
            final(memory).wf(),
            final(memory).size == old(memory).size,
            final(memory).stack_pointer == old(memory).stack_pointer,
            ({
                let (m, outs, res) = run_steps(
                    machine(*old(self), *old(memory)),
                    max_steps as nat,
                    *fpu,
                );
                &&& machine(*final(self), *final(memory)) == m
                &&& output_views(r.0@) == outs
                &&& match res {
                    Ok(()) => r.1 is Ok,
                    Err(e) => r.1 matches Err(msg) && msg@ == e,
                }
            }),
    {
        let ghost m0 = machine(*self, *memory);
        let mut outputs: Vec<Output> = Vec::new();
        let mut left: u64 = max_steps;
        assert(output_views(outputs@) =~= seq![]);
        loop
            invariant
                memory.wf(),
                memory.size == old(memory).size,
                memory.stack_pointer == old(memory).stack_pointer,
                fpu_ok(*fpu),
                m0 == machine(*old(self), *old(memory)),
                !run_stops(machine(*self, *memory), left as nat, *fpu),
                ({
                    let (a, b, c) = run_steps(machine(*self, *memory), left as nat, *fpu);
                    run_steps(m0, max_steps as nat, *fpu) == (a, output_views(outputs@) + b, c)
                }),
            decreases left,
        {
            let ghost cur = machine(*self, *memory);
            if left == 0 || !self.is_running(memory) {
                assert(output_views(outputs@) + seq![] =~= output_views(outputs@));
                return (outputs, Ok(()));
            }
            match self.step(memory, fpu) {
                Ok(out) => {
                    let ghost before = output_views(outputs@);
                    match out {
                        Some(o) => {
                            outputs.push(o);
                        },
                        None => {},
                    }
                    proof {
                        assert(output_views(outputs@) =~= before + outputs_of(output_view(out)));
                        let (a, b, c) = run_steps(machine(*self, *memory), (left - 1) as nat, *fpu);
                        assert(before + (outputs_of(output_view(out)) + b) =~= output_views(outputs@)
                            + b);
                    }
                    left = left - 1;
                },
                Err(e) => {
                    assert(output_views(outputs@) + seq![] =~= output_views(outputs@));
                    return (outputs, Err(e));
                },
            }
        }
    }
}

} // verus!
