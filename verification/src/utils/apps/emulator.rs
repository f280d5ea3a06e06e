//! The emulator screen's state: the CPU and memory it runs, what the user
//! has selected, the loaded program; and the disassembler that shows each
//! instruction word as text.

use vstd::prelude::*;
use crate::chips::cpu::{opcode, opcode_of, step_done, step_stops, Output, CPU};
use crate::instructions::{fpu_ok, machine, FloatOp};
use crate::memory::main_memory::{load_words, pages_for, read32, write_bytes, WorkMemory};
use crate::memory::registers::Reg;
use crate::text::{hex_text, push_hex, push_str, string_from_str};
use crate::utils::assembler::command_processor::AssembledProgram;
use crate::utils::workspaces::{assembled_into, clone_program, source_assembly_stops, Workspace};
use crate::utils::assembler::command_processor::{clone_opt_string, clone_strings, macro_views, opt_text, texts};
use crate::utils::assembler::operands::float_reader_ok;
use crate::utils::ui::common::{AppState, Key, KeyInput};
use crate::utils::ui::resources::{with_message, AppStatus};

verus! {

// ---------------------------------------------------------------------------
// The disassembler
// ---------------------------------------------------------------------------

/// The name a register number is shown with.
pub open spec fn register_text(n: u32) -> Seq<char> {
    match Reg::from_number(n) {
        Some(r) => r.name(),
        None => "R??"@,
    }
}

fn reg_num_to_name(num: u32) -> (r: &'static str)
    ensures
        r@ == register_text(num),
{
    if num == 0 {
        "AX"
    } else if num == 1 {
        "BX"
    } else if num == 2 {
        "CX"
    } else if num == 3 {
        "DX"
    } else if num == 4 {
        "EX"
    } else if num == 5 {
        "FX"
    } else if num == 6 {
        "GX"
    } else if num == 7 {
        "HX"
    } else if num == 8 {
        "SP"
    } else if num == 9 {
        "BP"
    } else if num == 10 {
        "SI"
    } else if num == 11 {
        "DI"
    } else if num == 12 {
        "PC"
    } else if num == 13 {
        "FLAGS"
    } else {
        "R??"
    }
}

/// The name a flag id is shown with in the disassembly: ids 0 to 3 name
/// the zero, sign, carry and overflow flags, any other id `FLAG??`.
pub open spec fn flag_text(id: u32) -> Seq<char> {
    if id == 0 {
        "ZERO"@
    } else if id == 1 {
        "SIGN"@
    } else if id == 2 {
        "CARRY"@
    } else if id == 3 {
        "OVERFLOW"@
    } else {
        "FLAG??"@
    }
}

fn flag_id_to_name(id: u32) -> (r: &'static str)
    ensures
        r@ == flag_text(id),
{
    if id == 0 {
        "ZERO"
    } else if id == 1 {
        "SIGN"
    } else if id == 2 {
        "CARRY"
    } else if id == 3 {
        "OVERFLOW"
    } else {
        "FLAG??"
    }
}

/// How the operands of an instruction word are shown.
#[derive(Clone, Copy, Debug, PartialEq, Eq, Structural)]
pub enum Shape {
    /// A register and a 16-bit immediate.
    RegImm,
    /// A register, then a second register (bit 0 set) or an immediate.
    RegOrImm2,
    /// A register and a 16-bit address in brackets.
    RegAddr16,
    /// An 8-bit address in brackets and an immediate.
    Addr8Imm,
    /// An 8-bit address in brackets, then a register (bit 0 set) or an
    /// immediate.
    Addr8RegOrImm,
    /// A register (bit 0 set) or an immediate.
    RegOrImm1,
    /// A register.
    Reg,
    /// Two registers.
    RegReg,
    /// A 24-bit address.
    Addr24,
    /// A register (bit 0 set) or a 24-bit address.
    RegOrAddr24,
    /// A flag.
    Flag,
    /// No operand.
    Bare,
}

/// The mnemonic and operand shape of an opcode the disassembler knows.
pub open spec fn shape_of(op: u8) -> Option<(Seq<char>, Shape)> {
    if op == 0x01 {
        Some(("MOVI"@, Shape::RegImm))
    } else if op == 0x02 {
        Some(("MOVW"@, Shape::RegOrImm2))
    } else if op == 0x03 {
        Some(("LODI"@, Shape::RegImm))
    } else if op == 0x04 {
        Some(("LODW"@, Shape::RegAddr16))
    } else if op == 0x05 {
        Some(("STRI"@, Shape::Addr8Imm))
    } else if op == 0x06 {
        Some(("STRW"@, Shape::Addr8RegOrImm))
    } else if op == 0x07 {
        Some(("PUSH"@, Shape::RegOrImm1))
    } else if op == 0x08 {
        Some(("POP"@, Shape::Reg))
    } else if op == 0x09 {
        Some(("XCGH"@, Shape::RegReg))
    } else if op == 0x10 {
        Some(("ADDW"@, Shape::RegOrImm2))
    } else if op == 0x11 {
        Some(("SUBW"@, Shape::RegOrImm2))
    } else if op == 0x12 {
        Some(("MUL"@, Shape::RegOrImm2))
    } else if op == 0x13 {
        Some(("INC"@, Shape::Reg))
    } else if op == 0x14 {
        Some(("DEC"@, Shape::Reg))
    } else if op == 0x15 {
        Some(("NEG"@, Shape::Reg))
    } else if op == 0x20 {
        Some(("NOT"@, Shape::Reg))
    } else if op == 0x21 {
        Some(("AND"@, Shape::RegOrImm2))
    } else if op == 0x22 {
        Some(("OR"@, Shape::RegOrImm2))
    } else if op == 0x23 {
        Some(("XOR"@, Shape::RegOrImm2))
    } else if op == 0x30 {
        Some(("CMPW"@, Shape::RegOrImm2))
    } else if op == 0x40 {
        Some(("JMP"@, Shape::Addr24))
    } else if op == 0x41 {
        Some(("CALL"@, Shape::Addr24))
    } else if op == 0x42 {
        Some(("RET"@, Shape::Bare))
    } else if op == 0x43 {
        Some(("JE"@, Shape::Addr24))
    } else if op == 0x44 {
        Some(("JNE"@, Shape::Addr24))
    } else if op == 0x45 {
        Some(("JGT"@, Shape::Addr24))
    } else if op == 0x46 {
        Some(("JGE"@, Shape::Addr24))
    } else if op == 0x47 {
        Some(("JLT"@, Shape::Addr24))
    } else if op == 0x48 {
        Some(("JLE"@, Shape::Addr24))
    } else if op == 0x49 {
        Some(("JS"@, Shape::Addr24))
    } else if op == 0x4A {
        Some(("JCO"@, Shape::Addr24))
    } else if op == 0x50 {
        Some(("IN"@, Shape::Reg))
    } else if op == 0x51 {
        Some(("OUT"@, Shape::RegOrAddr24))
    } else if op == 0x60 {
        Some(("SETF"@, Shape::Flag))
    } else if op == 0x61 {
        Some(("CLRF"@, Shape::Flag))
    } else if op == 0xFF {
        Some(("HALT"@, Shape::Bare))
    } else {
        None
    }
}

fn shape_of_opcode(op: u8) -> (r: Option<(&'static str, Shape)>)
    ensures
        match shape_of(op) {
            Some((n, s)) => r matches Some((m, t)) && m@ == n && t == s,
            None => r is None,
        },
{
    if op == 0x01 {
        Some(("MOVI", Shape::RegImm))
    } else if op == 0x02 {
        Some(("MOVW", Shape::RegOrImm2))
    } else if op == 0x03 {
        Some(("LODI", Shape::RegImm))
    } else if op == 0x04 {
        Some(("LODW", Shape::RegAddr16))
    } else if op == 0x05 {
        Some(("STRI", Shape::Addr8Imm))
    } else if op == 0x06 {
        Some(("STRW", Shape::Addr8RegOrImm))
    } else if op == 0x07 {
        Some(("PUSH", Shape::RegOrImm1))
    } else if op == 0x08 {
        Some(("POP", Shape::Reg))
    } else if op == 0x09 {
        Some(("XCGH", Shape::RegReg))
    } else if op == 0x10 {
        Some(("ADDW", Shape::RegOrImm2))
    } else if op == 0x11 {
        Some(("SUBW", Shape::RegOrImm2))
    } else if op == 0x12 {
        Some(("MUL", Shape::RegOrImm2))
    } else if op == 0x13 {
        Some(("INC", Shape::Reg))
    } else if op == 0x14 {
        Some(("DEC", Shape::Reg))
    } else if op == 0x15 {
        Some(("NEG", Shape::Reg))
    } else if op == 0x20 {
        Some(("NOT", Shape::Reg))
    } else if op == 0x21 {
        Some(("AND", Shape::RegOrImm2))
    } else if op == 0x22 {
        Some(("OR", Shape::RegOrImm2))
    } else if op == 0x23 {
        Some(("XOR", Shape::RegOrImm2))
    } else if op == 0x30 {
        Some(("CMPW", Shape::RegOrImm2))
    } else if op == 0x40 {
        Some(("JMP", Shape::Addr24))
    } else if op == 0x41 {
        Some(("CALL", Shape::Addr24))
    } else if op == 0x42 {
        Some(("RET", Shape::Bare))
    } else if op == 0x43 {
        Some(("JE", Shape::Addr24))
    } else if op == 0x44 {
        Some(("JNE", Shape::Addr24))
    } else if op == 0x45 {
        Some(("JGT", Shape::Addr24))
    } else if op == 0x46 {
        Some(("JGE", Shape::Addr24))
    } else if op == 0x47 {
        Some(("JLT", Shape::Addr24))
    } else if op == 0x48 {
        Some(("JLE", Shape::Addr24))
    } else if op == 0x49 {
        Some(("JS", Shape::Addr24))
    } else if op == 0x4A {
        Some(("JCO", Shape::Addr24))
    } else if op == 0x50 {
        Some(("IN", Shape::Reg))
    } else if op == 0x51 {
        Some(("OUT", Shape::RegOrAddr24))
    } else if op == 0x60 {
        Some(("SETF", Shape::Flag))
    } else if op == 0x61 {
        Some(("CLRF", Shape::Flag))
    } else if op == 0xFF {
        Some(("HALT", Shape::Bare))
    } else {
        None
    }
}

/// The first register field (bits 16..23), shown.
pub open spec fn first_register(instr: u32) -> Seq<char> {
    register_text((instr >> 16u32) & 0xFF)
}

/// The second register field (bits 8..15), shown.
pub open spec fn second_register(instr: u32) -> Seq<char> {
    register_text((instr >> 8u32) & 0xFF)
}

/// The 16-bit immediate, shown in hexadecimal.
pub open spec fn immediate_text(instr: u32) -> Seq<char> {
    "0x"@ + hex_text((instr & 0xFFFF) as nat, 4, true)
}

/// The 8-bit address field (bits 16..23), shown in brackets.
pub open spec fn addr8_text(instr: u32) -> Seq<char> {
    "[0x"@ + hex_text(((instr >> 16u32) & 0xFF) as nat, 2, true) + "]"@
}

/// The 16-bit address, shown in brackets.
pub open spec fn addr16_text(instr: u32) -> Seq<char> {
    "[0x"@ + hex_text((instr & 0xFFFF) as nat, 4, true) + "]"@
}

/// The 24-bit address, shown in hexadecimal.
pub open spec fn addr24_text(instr: u32) -> Seq<char> {
    "0x"@ + hex_text((instr & 0xFFFFFF) as nat, 6, true)
}

/// Whether bit 0 of an instruction word is set.
pub open spec fn bit0(instr: u32) -> bool {
    instr & 1 == 1
}

/// The operands of an instruction word as shown in its shape.
pub open spec fn operands_text(instr: u32, shape: Shape) -> Seq<char> {
    match shape {
        Shape::RegImm => first_register(instr) + ", "@ + immediate_text(instr),
        Shape::RegOrImm2 => first_register(instr) + ", "@ + if bit0(instr) {
            second_register(instr)
        } else {
            immediate_text(instr)
        },
        Shape::RegAddr16 => first_register(instr) + ", "@ + addr16_text(instr),
        Shape::Addr8Imm => addr8_text(instr) + ", "@ + immediate_text(instr),
        Shape::Addr8RegOrImm => addr8_text(instr) + ", "@ + if bit0(instr) {
            second_register(instr)
        } else {
            immediate_text(instr)
        },
        Shape::RegOrImm1 => if bit0(instr) {
            first_register(instr)
        } else {
            immediate_text(instr)
        },
        Shape::Reg => first_register(instr),
        Shape::RegReg => first_register(instr) + ", "@ + second_register(instr),
        Shape::Addr24 => addr24_text(instr),
        Shape::RegOrAddr24 => if bit0(instr) {
            first_register(instr)
        } else {
            addr24_text(instr)
        },
        Shape::Flag => flag_text(instr & 0xFF),
        Shape::Bare => seq![],
    }
}

/// The text of an instruction word: its mnemonic and operands, or
/// `UNKNOWN` and the word in hexadecimal.
pub open spec fn disassembly(instr: u32) -> Seq<char> {
    match shape_of(opcode_of(instr)) {
        Some((name, Shape::Bare)) => name,
        Some((name, shape)) => name + " "@ + operands_text(instr, shape),
        None => "UNKNOWN 0x"@ + hex_text(instr as nat, 8, true),
    }
}

fn push_first_register(s: &mut String, instr: u32)
    ensures
        final(s)@ == old(s)@ + first_register(instr),
{
    push_str(s, reg_num_to_name((instr >> 16u32) & 0xFF));
}

fn push_second_register(s: &mut String, instr: u32)
    ensures
        final(s)@ == old(s)@ + second_register(instr),
{
    push_str(s, reg_num_to_name((instr >> 8u32) & 0xFF));
}

fn push_immediate(s: &mut String, instr: u32)
    ensures
        final(s)@ == old(s)@ + immediate_text(instr),
{
    let ghost s0 = s@;
    push_str(s, "0x");
    push_hex(s, (instr & 0xFFFF) as u64, 4, true);
    assert(s@ =~= s0 + immediate_text(instr));
}

fn push_addr8(s: &mut String, instr: u32)
    ensures
        final(s)@ == old(s)@ + addr8_text(instr),
{
    let ghost s0 = s@;
    push_str(s, "[0x");
    push_hex(s, ((instr >> 16u32) & 0xFF) as u64, 2, true);
    push_str(s, "]");
    assert(s@ =~= s0 + addr8_text(instr));
}

fn push_addr16(s: &mut String, instr: u32)
    ensures
        final(s)@ == old(s)@ + addr16_text(instr),
{
    let ghost s0 = s@;
    push_str(s, "[0x");
    push_hex(s, (instr & 0xFFFF) as u64, 4, true);
    push_str(s, "]");
    assert(s@ =~= s0 + addr16_text(instr));
}

fn push_addr24(s: &mut String, instr: u32)
    ensures
        final(s)@ == old(s)@ + addr24_text(instr),
{
    let ghost s0 = s@;
    push_str(s, "0x");
    push_hex(s, (instr & 0xFFFFFF) as u64, 6, true);
    assert(s@ =~= s0 + addr24_text(instr));
}

fn push_operands(s: &mut String, instr: u32, shape: Shape)
    ensures
        final(s)@ == old(s)@ + operands_text(instr, shape),
{
    let ghost s0 = s@;
    let b0 = instr & 1 == 1;
    match shape {
        Shape::RegImm => {
            push_first_register(s, instr);
            push_str(s, ", ");
            push_immediate(s, instr);
        },
        Shape::RegOrImm2 => {
            push_first_register(s, instr);
            push_str(s, ", ");
            if b0 {
                push_second_register(s, instr);
            } else {
                push_immediate(s, instr);
            }
        },
        Shape::RegAddr16 => {
            push_first_register(s, instr);
            push_str(s, ", ");
            push_addr16(s, instr);
        },
        Shape::Addr8Imm => {
            push_addr8(s, instr);
            push_str(s, ", ");
            push_immediate(s, instr);
        },
        Shape::Addr8RegOrImm => {
            push_addr8(s, instr);
            push_str(s, ", ");
            if b0 {
                push_second_register(s, instr);
            } else {
                push_immediate(s, instr);
            }
        },
        Shape::RegOrImm1 => {
            if b0 {
                push_first_register(s, instr);
            } else {
                push_immediate(s, instr);
            }
        },
        Shape::Reg => {
            push_first_register(s, instr);
        },
        Shape::RegReg => {
            push_first_register(s, instr);
            push_str(s, ", ");
            push_second_register(s, instr);
        },
        Shape::Addr24 => {
            push_addr24(s, instr);
        },
        Shape::RegOrAddr24 => {
            if b0 {
                push_first_register(s, instr);
            } else {
                push_addr24(s, instr);
            }
        },
        Shape::Flag => {
            push_str(s, flag_id_to_name(instr & 0xFF));
        },
        Shape::Bare => {},
    }
    assert(s@ =~= s0 + operands_text(instr, shape));
}

/// The text of an instruction word (see `disassembly`).
pub fn disassemble_instruction(instruction: u32) -> (r: String)
    ensures
        r@ == disassembly(instruction),
{
    match shape_of_opcode(opcode(instruction)) {
        Some((name, Shape::Bare)) => string_from_str(name),
        Some((name, shape)) => {
            let mut s = string_from_str(name);
            push_str(&mut s, " ");
            push_operands(&mut s, instruction, shape);
            assert(s@ =~= name@ + " "@ + operands_text(instruction, shape));
            s
        },
        None => {
            let mut s = string_from_str("UNKNOWN 0x");
            push_hex(&mut s, instruction as u64, 8, true);
            s
        },
    }
}

// ---------------------------------------------------------------------------
// The emulator screen's state
// ---------------------------------------------------------------------------

/// The number of registers the register list shows.
pub const REGISTER_COUNT: usize = 14;

/// The number of words a memory page shows.
pub const MEMORY_PAGE_SIZE: usize = 16;

/// The state of the emulator screen.
#[derive(Debug, Clone)]
pub struct EmulatorState {
    /// The CPU.
    pub cpu: CPU,
    /// The memory.
    pub memory: WorkMemory,
    /// Whether the program runs on its own.
    pub is_running: bool,
    /// Whether the flags are shown.
    pub show_flags: bool,
    /// The selected register in the register list.
    pub selected_register: Option<usize>,
    /// The memory page shown.
    pub selected_memory_page: usize,
    /// The selected word on the memory page.
    pub selected_memory_address: Option<usize>,
    /// The number of words on a memory page.
    pub memory_page_size: usize,
    /// The file of the loaded program.
    pub current_program_path: Option<String>,
    /// The source of the loaded program.
    pub program_source: Option<String>,
    /// The loaded program.
    pub assembled_program: Option<AssembledProgram>,
    /// The errors of the last assembly.
    pub last_assembly_errors: Vec<String>,
    /// Whether a program is loaded.
    pub program_loaded: bool,
    /// The word at the start of the loaded text.
    pub current_instruction: u32,
    /// The addresses to stop at.
    pub breakpoints: Vec<u32>,
}

impl EmulatorState {
    /// A fresh state: a new CPU, a zeroed memory of `memory_size` bytes,
    /// paused, the first register and the first word selected, pages of 16
    /// words, no program.
    pub fn new(memory_size: usize) -> (s: Self)
        requires
            memory_size > 0,
        ensures
            s.cpu.registers.all_zero() && !s.cpu.halted,
            s.memory.wf() && s.memory.size == memory_size,
            s.memory.memory@ == Seq::new(memory_size as nat, |i: int| 0u8),
            !s.is_running && !s.show_flags,
            s.selected_register == Some(0usize),
            s.selected_memory_address == Some(0usize),
            s.selected_memory_page == 0,
            s.memory_page_size == MEMORY_PAGE_SIZE,
            s.current_program_path is None && s.program_source is None,
            s.assembled_program is None,
            s.last_assembly_errors@.len() == 0,
            !s.program_loaded && s.current_instruction == 0,
            s.breakpoints@.len() == 0,
    {
        EmulatorState {
            cpu: CPU::new(),
            memory: WorkMemory::new(memory_size),
            is_running: false,
            show_flags: false,
            selected_register: Some(0),
            selected_memory_page: 0,
            selected_memory_address: Some(0),
            memory_page_size: MEMORY_PAGE_SIZE,
            current_program_path: None,
            program_source: None,
            assembled_program: None,
            last_assembly_errors: Vec::new(),
            program_loaded: false,
            current_instruction: 0,
            breakpoints: Vec::new(),
        }
    }

    /// Puts a new CPU and a zeroed memory of `memory_size` bytes in, pauses,
    /// hides the flags, and selects the first register, word and page. The
    /// loaded program's record stays.
    pub fn reset(&mut self, memory_size: usize)
        requires
            memory_size > 0,
        ensures
            final(self).cpu.registers.all_zero() && !final(self).cpu.halted,
            final(self).memory.wf() && final(self).memory.size == memory_size,
            final(self).memory.memory@ == Seq::new(memory_size as nat, |i: int| 0u8),
            !final(self).is_running && !final(self).show_flags,
            final(self).selected_register == Some(0usize),
            final(self).selected_memory_address == Some(0usize),
            final(self).selected_memory_page == 0,
            final(self).memory_page_size == old(self).memory_page_size,
            final(self).program_loaded == old(self).program_loaded,
            final(self).current_instruction == old(self).current_instruction,
            *final(self) == (EmulatorState {
                cpu: final(self).cpu,
                memory: final(self).memory,
                is_running: false,
                show_flags: false,
                selected_register: Some(0usize),
                selected_memory_address: Some(0usize),
                selected_memory_page: 0,
                ..*old(self)
            }),
    {
        self.cpu = CPU::new();
        self.memory = WorkMemory::new(memory_size);
        self.is_running = false;
        self.show_flags = false;
        self.selected_register = Some(0);
        self.selected_memory_address = Some(0);
        self.selected_memory_page = 0;
    }

    /// Loads an assembled program: its text from the text start, its data
    /// (if any) from the data start; then the program counter goes to the
    /// text start, the stack pointer to the stack start, and the first word
    /// of the text is recorded. An error leaves what was already loaded.
    pub fn load_assembled_program(&mut self, p: &AssembledProgram) -> (r: Result<(), String>)
        requires
            old(self).memory.wf(),
            p.actual_text_start + p.text@.len() * 4 <= old(self).memory.size ==> p.actual_text_start
                + p.text@.len() * 4 <= 0x1_0000_0000,
            p.actual_data_start + p.data@.len() <= old(self).memory.size ==> p.actual_data_start
                + p.data@.len() <= 0x1_0000_0000,
        ensures
            final(self).memory.wf(),
            final(self).memory.size == old(self).memory.size,
            ({
                let size = old(self).memory.size;
                let ts = p.actual_text_start;
                let m1 = load_words(old(self).memory.memory@, ts as int, p.text@);
                let m2 = if p.data@.len() > 0 {
                    write_bytes(m1, p.actual_data_start as int, p.data@)
                } else {
                    m1
                };
                if ts + p.text@.len() * 4 > size {
                    &&& r matches Err(e) && e@ == "Program too large for memory"@
                    &&& final(self).memory.memory@ == old(self).memory.memory@
                    &&& final(self).cpu == old(self).cpu
                } else if p.data@.len() > 0 && p.actual_data_start + p.data@.len() > size {
                    &&& r matches Err(e) && e@ == "Data too large for memory"@
                    &&& final(self).memory.memory@ == m1
                    &&& final(self).cpu == old(self).cpu
                } else {
                    &&& r is Ok
                    &&& final(self).memory.memory@ == m2
                    &&& final(self).cpu.registers == old(self).cpu.registers.with_value(
                        Reg::PC,
                        ts,
                    ).with_value(Reg::SP, p.actual_stack_start)
                    &&& final(self).cpu.halted == old(self).cpu.halted
                    &&& final(self).program_loaded
                    &&& final(self).current_instruction == if p.text@.len() > 0 {
                        read32(m2, ts as int)
                    } else {
                        0
                    }
                }
            }),
    {
        match self.memory.load_program(p.actual_text_start, p.text.as_slice()) {
            Ok(()) => {},
            Err(e) => {
                return Err(e);
            },
        }
        proof {
            crate::memory::main_memory::lemma_load_words_len(
                old(self).memory.memory@,
                p.actual_text_start as int,
                p.text@,
            );
        }
        if p.data.len() > 0 {
            match self.memory.load_data(p.actual_data_start, p.data.as_slice()) {
                Ok(()) => {},
                Err(e) => {
                    return Err(e);
                },
            }
        }
        self.cpu.registers.write(Reg::PC, p.actual_text_start);
        self.cpu.registers.write(Reg::SP, p.actual_stack_start);
        self.program_loaded = true;
        self.current_instruction = if p.text.len() > 0 {
            match self.memory.read_u32(p.actual_text_start) {
                Ok(w) => w,
                Err(e) => {
                    return Err(e);
                },
            }
        } else {
            0
        };
        Ok(())
    }

    /// Switches between running and paused.
    pub fn toggle_running(&mut self)
        ensures
            final(self).is_running == !old(self).is_running,
            final(self).cpu == old(self).cpu,
            *final(self) == (EmulatorState { is_running: !old(self).is_running, ..*old(self) }),
    {
        self.is_running = !self.is_running;
    }

    /// Steps the CPU once while paused; an error while running.
    pub fn step<F: Fn(FloatOp, u32, u32) -> u32>(&mut self, fpu: &F) -> (r: Result<
        Option<Output>,
        String,
    >)
        requires
            old(self).memory.wf(),
            fpu_ok(*fpu),
            !old(self).is_running ==> !step_stops(machine(old(self).cpu, old(self).memory)),
        ensures
            old(self).is_running ==> (r matches Err(e) && e@
                == "Cannot step while emulator is running. Pause first."@) && final(self).cpu
                == old(self).cpu && final(self).memory == old(self).memory,
            !old(self).is_running ==> step_done(
                old(self).cpu,
                old(self).memory,
                final(self).cpu,
                final(self).memory,
                r,
                *fpu,
            ),
            final(self).is_running == old(self).is_running,
            *final(self) == (EmulatorState { cpu: final(self).cpu, memory: final(self).memory, ..*old(self) }),
    {
        if self.is_running {
            return Err(string_from_str("Cannot step while emulator is running. Pause first."));
        }
        self.cpu.step(&mut self.memory, fpu)
    }

    /// Steps the CPU once while running (one step per frame); an error while
    /// paused.
    pub fn run_full_speed<F: Fn(FloatOp, u32, u32) -> u32>(&mut self, fpu: &F) -> (r: Result<
        Option<Output>,
        String,
    >)
        requires
            old(self).memory.wf(),
            fpu_ok(*fpu),
            old(self).is_running ==> !step_stops(machine(old(self).cpu, old(self).memory)),
        ensures
            !old(self).is_running ==> (r matches Err(e) && e@ == "Emulator is paused. Start first."@)
                && final(self).cpu == old(self).cpu && final(self).memory == old(self).memory,
            old(self).is_running ==> step_done(
                old(self).cpu,
                old(self).memory,
                final(self).cpu,
                final(self).memory,
                r,
                *fpu,
            ),
            final(self).is_running == old(self).is_running,
            *final(self) == (EmulatorState { cpu: final(self).cpu, memory: final(self).memory, ..*old(self) }),
    {
        if !self.is_running {
            return Err(string_from_str("Emulator is paused. Start first."));
        }
        self.cpu.step(&mut self.memory, fpu)
    }

    /// Whether the machine can be stepped (see `step` and `run_full_speed`):
    /// its memory is well formed and below 4 GiB, so no step stops the
    /// program.
    pub fn can_step(&self) -> (r: bool)
        ensures
            r == (self.memory.wf() && self.memory.size <= u32::MAX),
            r ==> !step_stops(machine(self.cpu, self.memory)),
    {
        let r = self.memory.memory.len() == self.memory.size && (self.memory.size as u64)
            <= 0xFFFF_FFFFu64;
        proof {
            if r {
                crate::chips::cpu::lemma_small_memory_steps(machine(self.cpu, self.memory));
            }
        }
        r
    }

    /// One frame of the emulator screen: while running, the CPU steps once
    /// (see `run_full_speed`); an error in the step ends the run and shows
    /// `Emulator error: ` and the error as a status message. What the step
    /// outputs is returned, to be shown. While paused nothing happens.
    pub fn run_frame<F: Fn(FloatOp, u32, u32) -> u32>(&mut self, status: &mut AppStatus, fpu: &F) -> (out:
        Option<Output>)
        requires
            old(self).memory.wf(),
            fpu_ok(*fpu),
            old(self).is_running ==> !step_stops(machine(old(self).cpu, old(self).memory)),
        ensures
            !old(self).is_running ==> *final(self) == *old(self) && *final(status) == *old(status)
                && out is None,
            old(self).is_running ==> exists|r: Result<Option<Output>, String>|
                {
                    &&& #[trigger] step_done(
                        old(self).cpu,
                        old(self).memory,
                        final(self).cpu,
                        final(self).memory,
                        r,
                        *fpu,
                    )
                    &&& match r {
                        Ok(o) => {
                            &&& out == o && final(self).is_running
                            &&& *final(status) == *old(status)
                        },
                        Err(e) => {
                            &&& out is None && !final(self).is_running
                            &&& final(status).shown() == with_message(
                                old(status).shown(),
                                "Emulator error: "@ + e@,
                            )
                            &&& final(status).is_loading == old(status).is_loading
                            &&& final(status).loading_progress == old(status).loading_progress
                        },
                    }
                },
            *final(self) == (EmulatorState {
                cpu: final(self).cpu,
                memory: final(self).memory,
                is_running: final(self).is_running,
                ..*old(self)
            }),
    {
        if !self.is_running {
            return None;
        }
        let r = self.run_full_speed(fpu);
        match r {
            Ok(o) => o,
            Err(e) => {
                let mut m = string_from_str("Emulator error: ");
                push_str(&mut m, e.as_str());
                status.set_message(m);
                self.is_running = false;
                proof {
                    reveal_strlit("Emulator error: ");
                }
                None
            },
        }
    }

    /// Selects the next register, wrapping from `FLAGS` (13) to `AX` (0).
    pub fn next_register(&mut self)
        ensures
            final(self).selected_register == Some(
                match old(self).selected_register {
                    Some(i) => if i >= 13 {
                        0
                    } else {
                        (i + 1) as usize
                    },
                    None => 0usize,
                },
            ),
            *final(self) == (EmulatorState { selected_register: final(self).selected_register, ..*old(self) }),
    {
        let i = match self.selected_register {
            Some(i) => if i >= 13 {
                0
            } else {
                i + 1
            },
            None => 0,
        };
        self.selected_register = Some(i);
    }

    /// Selects the previous register, wrapping from `AX` (0) to `FLAGS` (13).
    pub fn previous_register(&mut self)
        ensures
            final(self).selected_register == Some(
                match old(self).selected_register {
                    Some(i) => if i == 0 {
                        13
                    } else {
                        (i - 1) as usize
                    },
                    None => 0usize,
                },
            ),
            *final(self) == (EmulatorState { selected_register: final(self).selected_register, ..*old(self) }),
    {
        let i = match self.selected_register {
            Some(i) => if i == 0 {
                13
            } else {
                i - 1
            },
            None => 0,
        };
        self.selected_register = Some(i);
    }

    /// Selects the next word on the page, wrapping to the first.
    pub fn next_memory_address(&mut self)
        requires
            old(self).selected_memory_address is Some ==> old(self).memory_page_size > 0,
        ensures
            final(self).selected_memory_address == Some(
                match old(self).selected_memory_address {
                    Some(i) => if i >= old(self).memory_page_size - 1 {
                        0
                    } else {
                        (i + 1) as usize
                    },
                    None => 0usize,
                },
            ),
            *final(self) == (EmulatorState {
                selected_memory_address: final(self).selected_memory_address,
                ..*old(self)
            }),
    {
        let i = match self.selected_memory_address {
            Some(i) => if i >= self.memory_page_size - 1 {
                0
            } else {
                i + 1
            },
            None => 0,
        };
        self.selected_memory_address = Some(i);
    }

    /// Selects the previous word on the page, wrapping to the last.
    pub fn previous_memory_address(&mut self)
        requires
            old(self).selected_memory_address == Some(0usize) ==> old(self).memory_page_size > 0,
        ensures
            final(self).selected_memory_address == Some(
                match old(self).selected_memory_address {
                    Some(i) => if i == 0 {
                        (old(self).memory_page_size - 1) as usize
                    } else {
                        (i - 1) as usize
                    },
                    None => 0usize,
                },
            ),
            *final(self) == (EmulatorState {
                selected_memory_address: final(self).selected_memory_address,
                ..*old(self)
            }),
    {
        let i = match self.selected_memory_address {
            Some(i) => if i == 0 {
                self.memory_page_size - 1
            } else {
                i - 1
            },
            None => 0,
        };
        self.selected_memory_address = Some(i);
    }

    /// Shows the next memory page, wrapping to the first, and selects its
    /// first word.
    pub fn next_memory_page(&mut self)
        requires
            pages_for(old(self).memory.size as nat, old(self).memory_page_size as nat) > 0,
            old(self).selected_memory_page < usize::MAX,
        ensures
            final(self).selected_memory_page == (old(self).selected_memory_page + 1) % (pages_for(
                old(self).memory.size as nat,
                old(self).memory_page_size as nat,
            ) as int),
            final(self).selected_memory_address == Some(0usize),
            *final(self) == (EmulatorState {
                selected_memory_page: final(self).selected_memory_page,
                selected_memory_address: final(self).selected_memory_address,
                ..*old(self)
            }),
    {
        let n = self.memory.get_num_pages(self.memory_page_size);
        self.selected_memory_page = (self.selected_memory_page + 1) % n;
        self.selected_memory_address = Some(0);
    }

    /// Shows the previous memory page, wrapping to the last, and selects its
    /// first word.
    pub fn previous_memory_page(&mut self)
        requires
            pages_for(old(self).memory.size as nat, old(self).memory_page_size as nat) > 0,
            old(self).selected_memory_page + pages_for(
                old(self).memory.size as nat,
                old(self).memory_page_size as nat,
            ) <= usize::MAX,
        ensures
            final(self).selected_memory_page == (old(self).selected_memory_page + pages_for(
                old(self).memory.size as nat,
                old(self).memory_page_size as nat,
            ) - 1) % (pages_for(old(self).memory.size as nat, old(self).memory_page_size as nat) as int),
            final(self).selected_memory_address == Some(0usize),
            *final(self) == (EmulatorState {
                selected_memory_page: final(self).selected_memory_page,
                selected_memory_address: final(self).selected_memory_address,
                ..*old(self)
            }),
    {
        let n = self.memory.get_num_pages(self.memory_page_size);
        self.selected_memory_page = (self.selected_memory_page + n - 1) % n;
        self.selected_memory_address = Some(0);
    }
}

/// Leaving the emulator screen pauses the emulator.
pub fn on_exit_emulator(workspace: &mut Workspace)
    ensures
        match old(workspace).emulator {
            Some(e) => final(workspace).emulator == Some((EmulatorState { is_running: false, ..e })),
            None => final(workspace).emulator is None,
        },
        final(workspace).current_path == old(workspace).current_path,
        final(workspace).open_files == old(workspace).open_files,
        final(workspace).active_file == old(workspace).active_file,
        final(workspace).unsaved_changes == old(workspace).unsaved_changes,
{
    if let Some(emulator) = &mut workspace.emulator {
        emulator.is_running = false;
    }
}


/// The status message after the pause key: whether the emulator now runs.
pub open spec fn running_message(running: bool) -> Seq<char> {
    if running {
        "Emulator running"@
    } else {
        "Emulator paused"@
    }
}

/// Whether a key on the emulator screen can be handled without stopping
/// the program: stepping needs a sound memory and, while paused, a step
/// that runs to an end; resetting needs a memory; moving among pages needs
/// pages and room to count them; moving on a page needs words on it.
pub open spec fn emulator_key_ok<F: Fn(FloatOp, u32, u32) -> u32>(
    e: EmulatorState,
    key: KeyInput,
    fpu: F,
) -> bool {
    let pages = pages_for(e.memory.size as nat, e.memory_page_size as nat);
    key.pressed ==> {
        &&& key.code == Key::Char('s') ==> e.memory.wf() && (!e.is_running ==> !step_stops(
            machine(e.cpu, e.memory),
        ))
        &&& key.code == Key::Char('r') ==> e.memory.size > 0
        &&& key.code == Key::Left ==> pages > 0 && e.selected_memory_page + pages <= usize::MAX
        &&& key.code == Key::Right ==> pages > 0 && e.selected_memory_page < usize::MAX
        &&& key.code == Key::PageUp ==> (e.selected_memory_address == Some(0usize)
            ==> e.memory_page_size > 0)
        &&& key.code == Key::PageDown ==> (e.selected_memory_address is Some
            ==> e.memory_page_size > 0)
    }
}

/// Whether handling a key may stop the program (see `emulator_key_ok`):
/// `handle_emulator_input` may be called where this is `false`. For `s`
/// the memory must be well formed and below 4 GiB (see `can_step`), which
/// rules out every stopping step and only memories too large to step.
pub fn emulator_input_stops<F: Fn(FloatOp, u32, u32) -> u32>(
    emulator_state: &EmulatorState,
    key: KeyInput,
    fpu: &F,
) -> (r: bool)
    ensures
        !r ==> emulator_key_ok(*emulator_state, key, *fpu),
        r == (key.pressed && {
            let e = *emulator_state;
            let pages = pages_for(e.memory.size as nat, e.memory_page_size as nat);
            ||| key.code == Key::Char('s') && !(e.memory.wf() && e.memory.size <= u32::MAX)
            ||| key.code == Key::Char('r') && e.memory.size == 0
            ||| key.code == Key::Left && !(pages > 0 && e.selected_memory_page + pages
                <= usize::MAX)
            ||| key.code == Key::Right && !(pages > 0 && e.selected_memory_page < usize::MAX)
            ||| key.code == Key::PageUp && e.selected_memory_address == Some(0usize)
                && e.memory_page_size == 0
            ||| key.code == Key::PageDown && e.selected_memory_address is Some
                && e.memory_page_size == 0
        }),
{
    if !key.pressed {
        return false;
    }
    let e = emulator_state;
    let pages = e.memory.get_num_pages(e.memory_page_size);
    match key.code {
        Key::Char('s') => !e.can_step(),
        Key::Char('r') => e.memory.size == 0,
        Key::Left => !(pages > 0 && e.selected_memory_page <= usize::MAX - pages),
        Key::Right => !(pages > 0 && e.selected_memory_page < usize::MAX),
        Key::PageUp => e.selected_memory_address == Some(0usize) && e.memory_page_size == 0,
        Key::PageDown => e.selected_memory_address.is_some() && e.memory_page_size == 0,
        _ => false,
    }
}

/// Handles a key on the emulator screen. Only pressed keys count, and the
/// keys below set `handled`. `q` goes back to the start menu and `i` to the
/// I/O devices; `p` pauses or resumes, `s` steps once (see
/// `EmulatorState::step`), `r` resets the machine keeping its memory size,
/// each with a status message; `f` shows or hides the flags; Up and Down
/// move among the registers, Left and Right among the memory pages, PageUp
/// and PageDown among the words of the page. What a step outputs is
/// returned, to be shown.
pub fn handle_emulator_input<F: Fn(FloatOp, u32, u32) -> u32>(
    key: KeyInput,
    emulator_state: &mut EmulatorState,
    _workspace: &mut Workspace,
    app_state: &mut AppState,
    status: &mut AppStatus,
    handled: &mut bool,
    fpu: &F,
) -> (out: Option<Output>)
    requires
        fpu_ok(*fpu),
        emulator_key_ok(*old(emulator_state), key, *fpu),
    ensures
        final(status).is_loading == old(status).is_loading,
        ({
            let e0 = *old(emulator_state);
            let e1 = *final(emulator_state);
            let quiet = final(status).shown() == old(status).shown();
            let stays = *final(app_state) == *old(app_state);
            if !key.pressed {
                &&& e1 == e0 && stays && quiet && out is None
                &&& *final(handled) == *old(handled)
            } else {
                match key.code {
                    Key::Char('q') => e1 == e0 && quiet && out is None && *final(app_state)
                        == AppState::StartMenu && *final(handled),
                    Key::Char('i') => e1 == e0 && quiet && out is None && *final(app_state)
                        == AppState::IoDevices && *final(handled),
                    Key::Char('p') => {
                        &&& e1 == (EmulatorState { is_running: !e0.is_running, ..e0 })
                        &&& stays && out is None && *final(handled)
                        &&& final(status).shown() == with_message(
                            old(status).shown(),
                            running_message(!e0.is_running),
                        )
                    },
                    Key::Char('s') => {
                        &&& stays && *final(handled)
                        &&& e1 == (EmulatorState { cpu: e1.cpu, memory: e1.memory, ..e0 })
                        &&& exists|r: Result<Option<Output>, String>|
                            {
                                &&& #[trigger] stepped_as(e0, e1, r, *fpu)
                                &&& out == match r {
                                    Ok(o) => o,
                                    Err(_) => None,
                                }
                                &&& final(status).shown() == with_message(
                                    old(status).shown(),
                                    match r {
                                        Ok(_) => "Stepped one instruction."@,
                                        Err(msg) => "Error stepping: "@ + msg@,
                                    },
                                )
                            }
                    },
                    Key::Char('r') => {
                        &&& stays && out is None && *final(handled)
                        &&& e1.cpu.registers.all_zero() && !e1.cpu.halted
                        &&& e1.memory.wf() && e1.memory.size == e0.memory.size
                        &&& e1.memory.memory@ == Seq::new(e0.memory.size as nat, |i: int| 0u8)
                        &&& !e1.is_running && !e1.show_flags
                        &&& e1.selected_register == Some(0usize)
                        &&& e1.selected_memory_address == Some(0usize)
                        &&& e1.selected_memory_page == 0
                        &&& e1 == (EmulatorState {
                            cpu: e1.cpu,
                            memory: e1.memory,
                            is_running: false,
                            show_flags: false,
                            selected_register: Some(0usize),
                            selected_memory_address: Some(0usize),
                            selected_memory_page: 0,
                            ..e0
                        })
                        &&& final(status).shown() == with_message(
                            old(status).shown(),
                            "Emulator reset."@,
                        )
                    },
                    Key::Char('f') => {
                        &&& e1 == (EmulatorState { show_flags: !e0.show_flags, ..e0 })
                        &&& stays && quiet && out is None && *final(handled)
                    },
                    Key::Up | Key::Down | Key::Left | Key::Right | Key::PageUp | Key::PageDown => {
                        &&& stays && quiet && out is None && *final(handled)
                        &&& e1 == (EmulatorState {
                            selected_register: e1.selected_register,
                            selected_memory_page: e1.selected_memory_page,
                            selected_memory_address: e1.selected_memory_address,
                            ..e0
                        })
                        &&& key.code == Key::Up ==> e1.selected_register == Some(
                            match e0.selected_register {
                                Some(i) => if i == 0 {
                                    13
                                } else {
                                    (i - 1) as usize
                                },
                                None => 0usize,
                            },
                        ) && e1.selected_memory_page == e0.selected_memory_page
                            && e1.selected_memory_address == e0.selected_memory_address
                        &&& key.code == Key::Down ==> e1.selected_register == Some(
                            match e0.selected_register {
                                Some(i) => if i >= 13 {
                                    0
                                } else {
                                    (i + 1) as usize
                                },
                                None => 0usize,
                            },
                        ) && e1.selected_memory_page == e0.selected_memory_page
                            && e1.selected_memory_address == e0.selected_memory_address
                        &&& key.code == Key::Left ==> {
                            let n = pages_for(e0.memory.size as nat, e0.memory_page_size as nat);
                            &&& e1.selected_memory_page == (e0.selected_memory_page + n - 1) % (n as int)
                            &&& e1.selected_memory_address == Some(0usize)
                            &&& e1.selected_register == e0.selected_register
                        }
                        &&& key.code == Key::Right ==> {
                            let n = pages_for(e0.memory.size as nat, e0.memory_page_size as nat);
                            &&& e1.selected_memory_page == (e0.selected_memory_page + 1) % (n as int)
                            &&& e1.selected_memory_address == Some(0usize)
                            &&& e1.selected_register == e0.selected_register
                        }
                        &&& key.code == Key::PageUp ==> e1.selected_memory_address == Some(
                            match e0.selected_memory_address {
                                Some(i) => if i == 0 {
                                    (e0.memory_page_size - 1) as usize
                                } else {
                                    (i - 1) as usize
                                },
                                None => 0usize,
                            },
                        ) && e1.selected_register == e0.selected_register
                            && e1.selected_memory_page == e0.selected_memory_page
                        &&& key.code == Key::PageDown ==> e1.selected_memory_address == Some(
                            match e0.selected_memory_address {
                                Some(i) => if i >= e0.memory_page_size - 1 {
                                    0
                                } else {
                                    (i + 1) as usize
                                },
                                None => 0usize,
                            },
                        ) && e1.selected_register == e0.selected_register
                            && e1.selected_memory_page == e0.selected_memory_page
                    },
                    _ => {
                        &&& e1 == e0 && stays && quiet && out is None
                        &&& *final(handled) == *old(handled)
                    },
                }
            }
        }),
{
    if !key.pressed {
        return None;
    }
    match key.code {
        Key::Char('q') => {
            *app_state = AppState::StartMenu;
            *handled = true;
            None
        },
        Key::Char('p') => {
            emulator_state.toggle_running();
            let msg = if emulator_state.is_running {
                "Emulator running"
            } else {
                "Emulator paused"
            };
            status.set_message(string_from_str(msg));
            *handled = true;
            None
        },
        Key::Char('s') => {
            let ghost e0 = *emulator_state;
            let r = emulator_state.step(fpu);
            assert(stepped_as(e0, *emulator_state, r, *fpu));
            let out = match r {
                Ok(o) => {
                    status.set_message(string_from_str("Stepped one instruction."));
                    o
                },
                Err(e) => {
                    let mut m = string_from_str("Error stepping: ");
                    push_str(&mut m, e.as_str());
                    status.set_message(m);
                    None
                },
            };
            *handled = true;
            out
        },
        Key::Char('r') => {
            let size = emulator_state.memory.size;
            emulator_state.reset(size);
            status.set_message(string_from_str("Emulator reset."));
            *handled = true;
            None
        },
        Key::Char('f') => {
            emulator_state.show_flags = !emulator_state.show_flags;
            *handled = true;
            None
        },
        Key::Char('i') => {
            *app_state = AppState::IoDevices;
            *handled = true;
            None
        },
        Key::Up => {
            emulator_state.previous_register();
            *handled = true;
            None
        },
        Key::Down => {
            emulator_state.next_register();
            *handled = true;
            None
        },
        Key::Left => {
            emulator_state.previous_memory_page();
            *handled = true;
            None
        },
        Key::Right => {
            emulator_state.next_memory_page();
            *handled = true;
            None
        },
        Key::PageUp => {
            emulator_state.previous_memory_address();
            *handled = true;
            None
        },
        Key::PageDown => {
            emulator_state.next_memory_address();
            *handled = true;
            None
        },
        _ => None,
    }
}

/// Whether stepping the emulator `e0` (see `EmulatorState::step`) may give
/// `e1` and the answer `r`.
pub open spec fn stepped_as<F: Fn(FloatOp, u32, u32) -> u32>(
    e0: EmulatorState,
    e1: EmulatorState,
    r: Result<Option<Output>, String>,
    fpu: F,
) -> bool {
    if e0.is_running {
        r matches Err(e) && e@ == "Cannot step while emulator is running. Pause first."@ && e1.cpu
            == e0.cpu && e1.memory == e0.memory
    } else {
        step_done(e0.cpu, e0.memory, e1.cpu, e1.memory, r, fpu)
    }
}


/// Whether the emulator `b` is a copy of `a`.
pub open spec fn copy_of(a: EmulatorState, b: EmulatorState) -> bool {
    &&& b.cpu == a.cpu
    &&& b.memory.memory@ == a.memory.memory@ && b.memory.size == a.memory.size
    &&& b.memory.stack_pointer == a.memory.stack_pointer
    &&& b.is_running == a.is_running && b.show_flags == a.show_flags
    &&& b.selected_register == a.selected_register
    &&& b.selected_memory_page == a.selected_memory_page
    &&& b.selected_memory_address == a.selected_memory_address
    &&& b.memory_page_size == a.memory_page_size
    &&& opt_text(b.current_program_path) == opt_text(a.current_program_path)
    &&& opt_text(b.program_source) == opt_text(a.program_source)
    &&& (match (a.assembled_program, b.assembled_program) {
        (Some(p), Some(q)) => q@ == p@,
        (None, None) => true,
        _ => false,
    })
    &&& texts(b.last_assembly_errors@) == texts(a.last_assembly_errors@)
    &&& b.program_loaded == a.program_loaded
    &&& b.current_instruction == a.current_instruction
    &&& b.breakpoints@ == a.breakpoints@
}

/// A copy of an emulator.
pub fn clone_emulator(e: &EmulatorState) -> (r: EmulatorState)
    ensures
        copy_of(*e, r),
{
    let memory = e.memory.memory.clone();
    assert(memory@ =~= e.memory.memory@);
    let breakpoints = e.breakpoints.clone();
    assert(breakpoints@ =~= e.breakpoints@);
    EmulatorState {
        cpu: e.cpu,
        memory: WorkMemory {
            memory,
            size: e.memory.size,
            stack_pointer: e.memory.stack_pointer,
        },
        is_running: e.is_running,
        show_flags: e.show_flags,
        selected_register: e.selected_register,
        selected_memory_page: e.selected_memory_page,
        selected_memory_address: e.selected_memory_address,
        memory_page_size: e.memory_page_size,
        current_program_path: clone_opt_string(&e.current_program_path),
        program_source: clone_opt_string(&e.program_source),
        assembled_program: match &e.assembled_program {
            Some(p) => Some(clone_program(p)),
            None => None,
        },
        last_assembly_errors: clone_strings(&e.last_assembly_errors),
        program_loaded: e.program_loaded,
        current_instruction: e.current_instruction,
        breakpoints,
    }
}

/// Entering the emulator assembles and loads the active file of the
/// workspace, where `read` is the outcome of reading it (see
/// `Workspace::assemble_and_load_program`); on success the screen takes a
/// copy of the workspace's emulator. A status message tells how it went:
/// without an active file, that no program is selected.
pub fn on_enter_emulator<F: Fn(&str) -> Option<u32>>(
    emulator_state: &mut EmulatorState,
    workspace: &mut Workspace,
    status: &mut AppStatus,
    read: Result<String, String>,
    float_value: &F,
)
    requires
        float_reader_ok(*float_value),
        old(workspace).active_file is Some ==> (read matches Ok(src) ==> {
            &&& old(workspace).emulator matches Some(e) && e.memory.wf() && e.memory.size
                <= 0x1_0000_0000
            &&& !source_assembly_stops(
                src@,
                *float_value,
                macro_views(old(workspace).assembler.macros@),
                old(workspace).emulator.unwrap().memory.size,
            )
        }),
    ensures
        match old(workspace).active_file {
            None => {
                &&& *final(emulator_state) == *old(emulator_state)
                &&& final(workspace).emulator == old(workspace).emulator
                &&& final(status).shown() == with_message(
                    old(status).shown(),
                    "No program selected. Load one from File Explorer."@,
                )
            },
            Some(path) => match read {
                Err(e) => {
                    &&& *final(emulator_state) == *old(emulator_state)
                    &&& final(workspace).emulator == old(workspace).emulator
                    &&& final(status).shown() == with_message(
                        old(status).shown(),
                        "Error reading file: "@ + e@,
                    )
                },
                Ok(src) => exists|r: Result<(), String>|
                    {
                        &&& #[trigger] assembled_into(
                            *old(workspace),
                            *final(workspace),
                            final(status).is_loading,
                            src@,
                            *float_value,
                            r,
                        )
                        &&& match r {
                            Ok(()) => {
                                &&& copy_of(final(workspace).emulator.unwrap(), *final(emulator_state))
                                &&& final(status).shown() == with_message(
                                    old(status).shown(),
                                    "Assembled and loaded program: "@ + path@,
                                )
                            },
                            Err(e) => {
                                &&& *final(emulator_state) == *old(emulator_state)
                                &&& final(status).shown() == with_message(
                                    old(status).shown(),
                                    "Assembly error: "@ + e@,
                                )
                            },
                        }
                    },
            },
        },
{
    match workspace.get_selected_program_path() {
        Some(path) => match read {
            Ok(source) => {
                let r = workspace.assemble_and_load_program(source.as_str(), status, float_value);
                match r {
                    Ok(()) => {
                        if let Some(emu) = &workspace.emulator {
                            *emulator_state = clone_emulator(emu);
                        }
                        let mut m = string_from_str("Assembled and loaded program: ");
                        push_str(&mut m, path.as_str());
                        status.set_message(m);
                    },
                    Err(e) => {
                        let mut m = string_from_str("Assembly error: ");
                        push_str(&mut m, e.as_str());
                        status.set_message(m);
                    },
                }
            },
            Err(e) => {
                let mut m = string_from_str("Error reading file: ");
                push_str(&mut m, e.as_str());
                status.set_message(m);
            },
        },
        None => {
            status.set_message(
                string_from_str("No program selected. Load one from File Explorer."),
            );
        },
    }
}

} // verus!
