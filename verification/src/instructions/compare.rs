//! Comparison, jumps, calls and returns.

use vstd::prelude::*;
use crate::chips::cpu::CPU;
use crate::instructions::{
    add4, done, executed, failed, float_op, fpu_ok, fpu_value, load_word, machine, read_word,
    set_register, store_word, sub4, with_reg, wrapping_add4, wrapping_sub4, write_word, FloatOp,
    Machine,
};
use crate::memory::main_memory::WorkMemory;
use crate::memory::registers::{
    flags_after_f32, Reg, CARRY_BIT, OVERFLOW_BIT, SIGN_BIT, ZERO_BIT,
};
use crate::text::{chars_of, parse_u32, parse_u32_range, push_str, string_from_str};
use crate::utils::assembler::operands::{Operand, OperandView};

verus! {

/// A value read for a comparison: a register's bits, an immediate
/// converted to a float, or a word in memory; with the error for any other
/// operand.
pub open spec fn compare_value<F: Fn(FloatOp, u32, u32) -> u32>(
    m: Machine,
    op: OperandView,
    fpu: F,
    bad: Seq<char>,
) -> Result<u32, Seq<char>> {
    match op {
        OperandView::Register(r) => Ok(m.regs.value(r)),
        OperandView::Immediate(i) => Ok(fpu_value(fpu, FloatOp::FromInt, i, 0)),
        OperandView::Address(a) => read_word(m, a),
        _ => Err(bad),
    }
}

/// `CMPW a, b`: the flags as after the float subtraction `a - b`, whose
/// result is dropped.
pub open spec fn cmpw_spec<F: Fn(FloatOp, u32, u32) -> u32>(
    m: Machine,
    op1: OperandView,
    op2: OperandView,
    fpu: F,
) -> Result<(Machine, ()), Seq<char>> {
    match compare_value(m, op1, fpu, "CMPW requires register, immediate, or address first operand"@) {
        Err(e) => failed(e),
        Ok(a) => match compare_value(
            m,
            op2,
            fpu,
            "CMPW requires register, immediate, or address second operand"@,
        ) {
            Err(e) => failed(e),
            Ok(b) => {
                let res = fpu_value(fpu, FloatOp::Sub, a, b);
                done(Machine { regs: m.regs.with_flags(flags_after_f32(m.regs.flags, res)), ..m })
            },
        },
    }
}

fn read_compare_value<F: Fn(FloatOp, u32, u32) -> u32>(
    cpu: &CPU,
    memory: &WorkMemory,
    op: &Operand,
    fpu: &F,
    bad: &str,
) -> (r: Result<u32, String>)
    requires
        memory.wf(),
        fpu_ok(*fpu),
    ensures
        match compare_value(machine(*cpu, *memory), op@, *fpu, bad@) {
            Ok(v) => r == Ok::<u32, String>(v),
            Err(e) => r matches Err(msg) && msg@ == e,
        },
{
    match op {
        Operand::Register(reg) => Ok(cpu.registers.read(*reg)),
        Operand::Immediate(i) => Ok(float_op(fpu, FloatOp::FromInt, *i, 0)),
        Operand::Address(a) => load_word(cpu, memory, *a),
        _ => Err(string_from_str(bad)),
    }
}

/// Compares two values as floats and sets the flags: `CMPW a, b`.
pub fn execute_cmpw<F: Fn(FloatOp, u32, u32) -> u32>(
    cpu: &mut CPU,
    op1: &Operand,
    op2: &Operand,
    memory: &mut WorkMemory,
    fpu: &F,
) -> (r: Result<(), String>)
    requires
        old(memory).wf(),
        fpu_ok(*fpu),
    ensures
        executed(
            *old(cpu),
            *old(memory),
            *final(cpu),
            *final(memory),
            r,
            cmpw_spec(machine(*old(cpu), *old(memory)), op1@, op2@, *fpu),
        ),
{
    let a = match read_compare_value(
        cpu,
        memory,
        op1,
        fpu,
        "CMPW requires register, immediate, or address first operand",
    ) {
        Ok(v) => v,
        Err(e) => {
            return Err(e);
        },
    };
    let b = match read_compare_value(
        cpu,
        memory,
        op2,
        fpu,
        "CMPW requires register, immediate, or address second operand",
    ) {
        Ok(v) => v,
        Err(e) => {
            return Err(e);
        },
    };
    let res = float_op(fpu, FloatOp::Sub, a, b);
    cpu.registers.update_flags_f32(res);
    Ok(())
}

/// The target of a jump or call: a label that reads as a decimal address,
/// an immediate, an address, or a register's value; with the error for any
/// other operand.
pub open spec fn jump_target(m: Machine, op1: OperandView, bad: Seq<char>) -> Result<u32, Seq<char>> {
    match op1 {
        OperandView::Label(l) => match parse_u32(l) {
            Some(v) => Ok(v),
            None => Err("Invalid address: "@ + l),
        },
        OperandView::Immediate(i) => Ok(i),
        OperandView::Address(a) => Ok(a),
        OperandView::Register(r) => Ok(m.regs.value(r)),
        _ => Err(bad),
    }
}

fn read_jump_target(cpu: &CPU, op1: &Operand, bad: &str) -> (r: Result<u32, String>)
    ensures
        match jump_target(machine_regs_only(*cpu), op1@, bad@) {
            Ok(v) => r == Ok::<u32, String>(v),
            Err(e) => r matches Err(msg) && msg@ == e,
        },
{
    match op1 {
        Operand::Label(l) => {
            let cs = chars_of(l.as_str());
            assert(cs@.subrange(0, cs@.len() as int) =~= cs@);
            match parse_u32_range(cs.as_slice(), 0, cs.len(), 10) {
                Some(v) => Ok(v),
                None => {
                    let mut e = string_from_str("Invalid address: ");
                    push_str(&mut e, l.as_str());
                    Err(e)
                },
            }
        },
        Operand::Immediate(i) => Ok(*i),
        Operand::Address(a) => Ok(*a),
        Operand::Register(reg) => Ok(cpu.registers.read(*reg)),
        _ => Err(string_from_str(bad)),
    }
}

/// A machine whose registers are the CPU's; the jump target reads only
/// those.
pub open spec fn machine_regs_only(cpu: CPU) -> Machine {
    Machine { regs: cpu.registers, halted: cpu.halted, mem: seq![], size: 0 }
}

/// `JMP target`: the program counter set to the target.
pub open spec fn jmp_spec(m: Machine, op1: OperandView) -> Result<(Machine, ()), Seq<char>> {
    match jump_target(m, op1, "JMP requires a label, immediate, address, or register operand"@) {
        Ok(a) => done(with_reg(m, Reg::PC, a)),
        Err(e) => failed(e),
    }
}

/// Jumps: `JMP label|imm|[addr]|reg`.
pub fn execute_jmp(cpu: &mut CPU, op1: &Operand, op2: &Operand, memory: &mut WorkMemory) -> (r:
    Result<(), String>)
    requires
        old(memory).wf(),
    ensures
        executed(
            *old(cpu),
            *old(memory),
            *final(cpu),
            *final(memory),
            r,
            jmp_spec(machine(*old(cpu), *old(memory)), op1@),
        ),
{
    match read_jump_target(
        cpu,
        op1,
        "JMP requires a label, immediate, address, or register operand",
    ) {
        Ok(a) => {
            set_register(cpu, Reg::PC, a);
            Ok(())
        },
        Err(e) => Err(e),
    }
}

/// `CALL target`: the return address (the program counter plus 4) pushed
/// four bytes below the stack pointer, then the jump.
pub open spec fn call_spec(m: Machine, op1: OperandView) -> Result<(Machine, ()), Seq<char>> {
    match jump_target(m, op1, "CALL requires a label, immediate, address, or register operand"@) {
        Err(e) => failed(e),
        Ok(a) => {
            let ret = add4(m.regs.pc);
            let sp = sub4(m.regs.sp);
            match write_word(m, sp, ret) {
                Ok(n) => done(with_reg(with_reg(n, Reg::SP, sp), Reg::PC, a)),
                Err(e) => failed(e),
            }
        },
    }
}

/// Calls a subroutine: `CALL label|imm|[addr]|reg`.
pub fn execute_call(cpu: &mut CPU, op1: &Operand, op2: &Operand, memory: &mut WorkMemory) -> (r:
    Result<(), String>)
    requires
        old(memory).wf(),
    ensures
        executed(
            *old(cpu),
            *old(memory),
            *final(cpu),
            *final(memory),
            r,
            call_spec(machine(*old(cpu), *old(memory)), op1@),
        ),
{
    let a = match read_jump_target(
        cpu,
        op1,
        "CALL requires a label, immediate, address, or register operand",
    ) {
        Ok(a) => a,
        Err(e) => {
            return Err(e);
        },
    };
    let ret = wrapping_add4(cpu.registers.read(Reg::PC));
    let sp = wrapping_sub4(cpu.registers.read(Reg::SP));
    match store_word(cpu, memory, sp, ret) {
        Ok(()) => {},
        Err(e) => {
            return Err(e);
        },
    }
    set_register(cpu, Reg::SP, sp);
    set_register(cpu, Reg::PC, a);
    Ok(())
}

/// `RET`: the program counter loaded from the word at the stack pointer,
/// which then moves up by four bytes.
pub open spec fn ret_spec(m: Machine) -> Result<(Machine, ()), Seq<char>> {
    let sp = m.regs.sp;
    match read_word(m, sp) {
        Ok(v) => done(with_reg(with_reg(m, Reg::SP, add4(sp)), Reg::PC, v)),
        Err(e) => failed(e),
    }
}

/// Returns from a subroutine: `RET`.
pub fn execute_ret(cpu: &mut CPU, op1: &Operand, op2: &Operand, memory: &mut WorkMemory) -> (r:
    Result<(), String>)
    requires
        old(memory).wf(),
    ensures
        executed(
            *old(cpu),
            *old(memory),
            *final(cpu),
            *final(memory),
            r,
            ret_spec(machine(*old(cpu), *old(memory))),
        ),
{
    let sp = cpu.registers.read(Reg::SP);
    let v = match load_word(cpu, memory, sp) {
        Ok(v) => v,
        Err(e) => {
            return Err(e);
        },
    };
    set_register(cpu, Reg::SP, wrapping_add4(sp));
    set_register(cpu, Reg::PC, v);
    Ok(())
}

/// A jump taken when `taken` holds, nothing done otherwise.
pub open spec fn jump_if(m: Machine, op1: OperandView, taken: bool) -> Result<(Machine, ()), Seq<char>> {
    if taken {
        jmp_spec(m, op1)
    } else {
        done(m)
    }
}

/// Whether the zero flag is set.
pub open spec fn zero(m: Machine) -> bool {
    m.regs.flag(ZERO_BIT)
}

/// Whether the sign flag is set.
pub open spec fn sign(m: Machine) -> bool {
    m.regs.flag(SIGN_BIT)
}

/// Jumps if equal (zero set): `JE target`.
pub fn execute_je(cpu: &mut CPU, op1: &Operand, op2: &Operand, memory: &mut WorkMemory) -> (r:
    Result<(), String>)
    requires
        old(memory).wf(),
    ensures
        executed(
            *old(cpu),
            *old(memory),
            *final(cpu),
            *final(memory),
            r,
            jump_if(machine(*old(cpu), *old(memory)), op1@, zero(machine(*old(cpu), *old(memory)))),
        ),
{
    if cpu.registers.flag_bit_set(ZERO_BIT) {
        execute_jmp(cpu, op1, &Operand::Empty, memory)
    } else {
        Ok(())
    }
}

/// Jumps if not equal (zero clear): `JNE target`.
pub fn execute_jne(cpu: &mut CPU, op1: &Operand, op2: &Operand, memory: &mut WorkMemory) -> (r:
    Result<(), String>)
    requires
        old(memory).wf(),
    ensures
        executed(
            *old(cpu),
            *old(memory),
            *final(cpu),
            *final(memory),
            r,
            jump_if(machine(*old(cpu), *old(memory)), op1@, !zero(machine(*old(cpu), *old(memory)))),
        ),
{
    if !cpu.registers.flag_bit_set(ZERO_BIT) {
        execute_jmp(cpu, op1, &Operand::Empty, memory)
    } else {
        Ok(())
    }
}

/// Jumps if greater (zero and sign clear): `JGT target`.
pub fn execute_jgt(cpu: &mut CPU, op1: &Operand, op2: &Operand, memory: &mut WorkMemory) -> (r:
    Result<(), String>)
    requires
        old(memory).wf(),
    ensures
        executed(
            *old(cpu),
            *old(memory),
            *final(cpu),
            *final(memory),
            r,
            jump_if(
                machine(*old(cpu), *old(memory)),
                op1@,
                !zero(machine(*old(cpu), *old(memory))) && !sign(machine(*old(cpu), *old(memory))),
            ),
        ),
{
    let z = cpu.registers.flag_bit_set(ZERO_BIT);
    let s = cpu.registers.flag_bit_set(SIGN_BIT);
    if !z && !s {
        execute_jmp(cpu, op1, &Operand::Empty, memory)
    } else {
        Ok(())
    }
}

/// Jumps if greater or equal (sign clear): `JGE target`.
pub fn execute_jge(cpu: &mut CPU, op1: &Operand, op2: &Operand, memory: &mut WorkMemory) -> (r:
    Result<(), String>)
    requires
        old(memory).wf(),
    ensures
        executed(
            *old(cpu),
            *old(memory),
            *final(cpu),
            *final(memory),
            r,
            jump_if(machine(*old(cpu), *old(memory)), op1@, !sign(machine(*old(cpu), *old(memory)))),
        ),
{
    if !cpu.registers.flag_bit_set(SIGN_BIT) {
        execute_jmp(cpu, op1, &Operand::Empty, memory)
    } else {
        Ok(())
    }
}

/// Jumps if less (zero clear, sign set): `JLT target`.
pub fn execute_jlt(cpu: &mut CPU, op1: &Operand, op2: &Operand, memory: &mut WorkMemory) -> (r:
    Result<(), String>)
    requires
        old(memory).wf(),
    ensures
        executed(
            *old(cpu),
            *old(memory),
            *final(cpu),
            *final(memory),
            r,
            jump_if(
                machine(*old(cpu), *old(memory)),
                op1@,
                !zero(machine(*old(cpu), *old(memory))) && sign(machine(*old(cpu), *old(memory))),
            ),
        ),
{
    let z = cpu.registers.flag_bit_set(ZERO_BIT);
    let s = cpu.registers.flag_bit_set(SIGN_BIT);
    if !z && s {
        execute_jmp(cpu, op1, &Operand::Empty, memory)
    } else {
        Ok(())
    }
}

/// Jumps if less or equal (zero or sign set): `JLE target`.
pub fn execute_jle(cpu: &mut CPU, op1: &Operand, op2: &Operand, memory: &mut WorkMemory) -> (r:
    Result<(), String>)
    requires
        old(memory).wf(),
    ensures
        executed(
            *old(cpu),
            *old(memory),
            *final(cpu),
            *final(memory),
            r,
            jump_if(
                machine(*old(cpu), *old(memory)),
                op1@,
                zero(machine(*old(cpu), *old(memory))) || sign(machine(*old(cpu), *old(memory))),
            ),
        ),
{
    let z = cpu.registers.flag_bit_set(ZERO_BIT);
    let s = cpu.registers.flag_bit_set(SIGN_BIT);
    if z || s {
        execute_jmp(cpu, op1, &Operand::Empty, memory)
    } else {
        Ok(())
    }
}

/// Jumps if negative (sign set): `JS target`.
pub fn execute_js(cpu: &mut CPU, op1: &Operand, op2: &Operand, memory: &mut WorkMemory) -> (r:
    Result<(), String>)
    requires
        old(memory).wf(),
    ensures
        executed(
            *old(cpu),
            *old(memory),
            *final(cpu),
            *final(memory),
            r,
            jump_if(machine(*old(cpu), *old(memory)), op1@, sign(machine(*old(cpu), *old(memory)))),
        ),
{
    if cpu.registers.flag_bit_set(SIGN_BIT) {
        execute_jmp(cpu, op1, &Operand::Empty, memory)
    } else {
        Ok(())
    }
}

/// Jumps on carry or overflow: `JCO target`.
pub fn execute_jco(cpu: &mut CPU, op1: &Operand, op2: &Operand, memory: &mut WorkMemory) -> (r:
    Result<(), String>)
    requires
        old(memory).wf(),
    ensures
        executed(
            *old(cpu),
            *old(memory),
            *final(cpu),
            *final(memory),
            r,
            jump_if(
                machine(*old(cpu), *old(memory)),
                op1@,
                old(cpu).registers.flag(CARRY_BIT) || old(cpu).registers.flag(OVERFLOW_BIT),
            ),
        ),
{
    let c = cpu.registers.flag_bit_set(CARRY_BIT);
    let o = cpu.registers.flag_bit_set(OVERFLOW_BIT);
    if c || o {
        execute_jmp(cpu, op1, &Operand::Empty, memory)
    } else {
        Ok(())
    }
}

} // verus!
