//! Bitwise instructions: AND, OR, XOR, NOT and the two shifts.

use vstd::prelude::*;
use crate::chips::cpu::CPU;
use crate::instructions::{done, executed, failed, machine, set_register, with_reg, Machine};
use crate::memory::main_memory::WorkMemory;
use crate::text::string_from_str;
use crate::utils::assembler::operands::{Operand, OperandView};

verus! {

/// A register combined with a second register or an immediate by `f`, the
/// result going back to the first register; with the errors for a first
/// operand that is no register and a second that is neither.
pub open spec fn combine(
    m: Machine,
    op1: OperandView,
    op2: OperandView,
    f: spec_fn(u32, u32) -> u32,
    not_register: Seq<char>,
    bad_second: Seq<char>,
) -> Result<(Machine, ()), Seq<char>> {
    match op1 {
        OperandView::Register(r) => match op2 {
            OperandView::Register(s) => done(with_reg(m, r, f(m.regs.value(r), m.regs.value(s)))),
            OperandView::Immediate(i) => done(with_reg(m, r, f(m.regs.value(r), i))),
            _ => failed(bad_second),
        },
        _ => failed(not_register),
    }
}

/// The second operand's value: a register's, or an immediate.
fn second_value(cpu: &CPU, op2: &Operand) -> (r: Option<u32>)
    ensures
        match op2@ {
            OperandView::Register(s) => r == Some(cpu.registers.value(s)),
            OperandView::Immediate(i) => r == Some(i),
            _ => r is None,
        },
{
    match op2 {
        Operand::Register(s) => Some(cpu.registers.read(*s)),
        Operand::Immediate(i) => Some(*i),
        _ => None,
    }
}

/// `AND reg, reg|imm`.
pub open spec fn and_spec(m: Machine, op1: OperandView, op2: OperandView) -> Result<(Machine, ()), Seq<char>> {
    combine(
        m,
        op1,
        op2,
        |a: u32, b: u32| a & b,
        "AND requires register first operand"@,
        "Invalid second operand for AND"@,
    )
}

/// Bitwise AND into a register: `AND reg, reg|imm`.
pub fn execute_and_instruction(cpu: &mut CPU, op1: &Operand, op2: &Operand, memory: &mut WorkMemory) -> (r:
    Result<(), String>)
    requires
        old(memory).wf(),
    ensures
        executed(
            *old(cpu),
            *old(memory),
            *final(cpu),
            *final(memory),
            r,
            and_spec(machine(*old(cpu), *old(memory)), op1@, op2@),
        ),
{
    match op1 {
        Operand::Register(reg) => {
            let v1 = cpu.registers.read(*reg);
            match second_value(cpu, op2) {
                Some(v2) => {
                    set_register(cpu, *reg, v1 & v2);
                    Ok(())
                },
                None => Err(string_from_str("Invalid second operand for AND")),
            }
        },
        _ => Err(string_from_str("AND requires register first operand")),
    }
}

/// `OR reg, reg|imm`.
pub open spec fn or_spec(m: Machine, op1: OperandView, op2: OperandView) -> Result<(Machine, ()), Seq<char>> {
    combine(
        m,
        op1,
        op2,
        |a: u32, b: u32| a | b,
        "OR requires register first operand"@,
        "Invalid second operand for OR"@,
    )
}

/// Bitwise OR into a register: `OR reg, reg|imm`.
pub fn execute_or_instruction(cpu: &mut CPU, op1: &Operand, op2: &Operand, memory: &mut WorkMemory) -> (r:
    Result<(), String>)
    requires
        old(memory).wf(),
    ensures
        executed(
            *old(cpu),
            *old(memory),
            *final(cpu),
            *final(memory),
            r,
            or_spec(machine(*old(cpu), *old(memory)), op1@, op2@),
        ),
{
    match op1 {
        Operand::Register(reg) => {
            let v1 = cpu.registers.read(*reg);
            match second_value(cpu, op2) {
                Some(v2) => {
                    set_register(cpu, *reg, v1 | v2);
                    Ok(())
                },
                None => Err(string_from_str("Invalid second operand for OR")),
            }
        },
        _ => Err(string_from_str("OR requires register first operand")),
    }
}

/// `XOR reg, reg|imm`.
pub open spec fn xor_spec(m: Machine, op1: OperandView, op2: OperandView) -> Result<(Machine, ()), Seq<char>> {
    combine(
        m,
        op1,
        op2,
        |a: u32, b: u32| a ^ b,
        "XOR requires register first operand"@,
        "XOR requires register or immediate second operand"@,
    )
}

/// Bitwise exclusive OR into a register: `XOR reg, reg|imm`.
pub fn execute_xor_instruction(cpu: &mut CPU, op1: &Operand, op2: &Operand, memory: &mut WorkMemory) -> (r:
    Result<(), String>)
    requires
        old(memory).wf(),
    ensures
        executed(
            *old(cpu),
            *old(memory),
            *final(cpu),
            *final(memory),
            r,
            xor_spec(machine(*old(cpu), *old(memory)), op1@, op2@),
        ),
{
    match op1 {
        Operand::Register(reg) => {
            let v1 = cpu.registers.read(*reg);
            match second_value(cpu, op2) {
                Some(v2) => {
                    set_register(cpu, *reg, v1 ^ v2);
                    Ok(())
                },
                None => Err(string_from_str("XOR requires register or immediate second operand")),
            }
        },
        _ => Err(string_from_str("XOR requires register first operand")),
    }
}

/// `NOT reg`: every bit of a register flipped.
pub open spec fn not_spec(m: Machine, op1: OperandView) -> Result<(Machine, ()), Seq<char>> {
    match op1 {
        OperandView::Register(r) => done(with_reg(m, r, !m.regs.value(r))),
        _ => failed("NOT requires register operand"@),
    }
}

/// Bitwise complement of a register: `NOT reg`.
pub fn execute_not_instruction(cpu: &mut CPU, op1: &Operand, op2: &Operand, memory: &mut WorkMemory) -> (r:
    Result<(), String>)
    requires
        old(memory).wf(),
    ensures
        executed(
            *old(cpu),
            *old(memory),
            *final(cpu),
            *final(memory),
            r,
            not_spec(machine(*old(cpu), *old(memory)), op1@),
        ),
{
    match op1 {
        Operand::Register(reg) => {
            let v = cpu.registers.read(*reg);
            set_register(cpu, *reg, !v);
            Ok(())
        },
        _ => Err(string_from_str("NOT requires register operand")),
    }
}

/// `SHL reg, reg|imm`: the shift count is taken modulo 32
/// (`u32::wrapping_shl`).
pub open spec fn shl_spec(m: Machine, op1: OperandView, op2: OperandView) -> Result<(Machine, ()), Seq<char>> {
    combine(
        m,
        op1,
        op2,
        |a: u32, b: u32| a << (b & 31u32),
        "SHL requires register first operand"@,
        "SHL requires register or immediate second operand"@,
    )
}

/// Shifts a register left: `SHL reg, reg|imm`.
pub fn execute_shl_instruction(cpu: &mut CPU, op1: &Operand, op2: &Operand, memory: &mut WorkMemory) -> (r:
    Result<(), String>)
    requires
        old(memory).wf(),
    ensures
        executed(
            *old(cpu),
            *old(memory),
            *final(cpu),
            *final(memory),
            r,
            shl_spec(machine(*old(cpu), *old(memory)), op1@, op2@),
        ),
{
    match op1 {
        Operand::Register(reg) => {
            let v1 = cpu.registers.read(*reg);
            match second_value(cpu, op2) {
                Some(v2) => {
                    let n = v2 & 31u32;
                    assert(n < 32) by (bit_vector)
                        requires
                            n == v2 & 31u32,
                    ;
                    set_register(cpu, *reg, v1 << n);
                    Ok(())
                },
                None => Err(string_from_str("SHL requires register or immediate second operand")),
            }
        },
        _ => Err(string_from_str("SHL requires register first operand")),
    }
}

/// `SHR reg, reg|imm`: the shift count is taken modulo 32
/// (`u32::wrapping_shr`).
pub open spec fn shr_spec(m: Machine, op1: OperandView, op2: OperandView) -> Result<(Machine, ()), Seq<char>> {
    combine(
        m,
        op1,
        op2,
        |a: u32, b: u32| a >> (b & 31u32),
        "SHR requires register first operand"@,
        "SHR requires register or immediate second operand"@,
    )
}

/// Shifts a register right: `SHR reg, reg|imm`.
pub fn execute_shr_instruction(cpu: &mut CPU, op1: &Operand, op2: &Operand, memory: &mut WorkMemory) -> (r:
    Result<(), String>)
    requires
        old(memory).wf(),
    ensures
        executed(
            *old(cpu),
            *old(memory),
            *final(cpu),
            *final(memory),
            r,
            shr_spec(machine(*old(cpu), *old(memory)), op1@, op2@),
        ),
{
    match op1 {
        Operand::Register(reg) => {
            let v1 = cpu.registers.read(*reg);
            match second_value(cpu, op2) {
                Some(v2) => {
                    let n = v2 & 31u32;
                    assert(n < 32) by (bit_vector)
                        requires
                            n == v2 & 31u32,
                    ;
                    set_register(cpu, *reg, v1 >> n);
                    Ok(())
                },
                None => Err(string_from_str("SHR requires register or immediate second operand")),
            }
        },
        _ => Err(string_from_str("SHR requires register first operand")),
    }
}

} // verus!
