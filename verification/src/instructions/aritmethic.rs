//! Arithmetic instructions on single-precision floats held as bit patterns
//! in registers: ADDW, SUBW, MUL, INC, DEC and NEG. Each stores its result
//! in the first register and sets the flags from it.

use vstd::prelude::*;
use crate::chips::cpu::CPU;
use crate::instructions::{
    done, executed, failed, float_op, fpu_ok, fpu_value, machine, set_register, with_reg, FloatOp,
    Machine, FLOAT_ONE,
};
use crate::memory::main_memory::WorkMemory;
use crate::memory::registers::flags_after_f32;
use crate::text::string_from_str;
use crate::utils::assembler::operands::{Operand, OperandView};

verus! {

/// `m` with register `r` holding the float result `res`, and the flags set
/// from it (after the store, so that a result in `FLAGS` is overwritten).
pub open spec fn with_float_result(m: Machine, r: crate::memory::registers::Reg, res: u32) -> Machine {
    let n = with_reg(m, r, res);
    Machine { regs: n.regs.with_flags(flags_after_f32(n.regs.flags, res)), ..n }
}

/// A binary float operation into a register, from a second register or an
/// immediate converted to a float; with the errors for a first operand that
/// is no register and a second that is neither.
pub open spec fn float_binary<F: Fn(FloatOp, u32, u32) -> u32>(
    m: Machine,
    op1: OperandView,
    op2: OperandView,
    fpu: F,
    op: FloatOp,
    not_register: Seq<char>,
    bad_second: Seq<char>,
) -> Result<(Machine, ()), Seq<char>> {
    match op1 {
        OperandView::Register(r) => {
            let b = match op2 {
                OperandView::Register(s) => Ok(m.regs.value(s)),
                OperandView::Immediate(i) => Ok(fpu_value(fpu, FloatOp::FromInt, i, 0)),
                _ => Err(bad_second),
            };
            match b {
                Ok(b) => done(with_float_result(m, r, fpu_value(fpu, op, m.regs.value(r), b))),
                Err(e) => failed(e),
            }
        },
        _ => failed(not_register),
    }
}

/// A unary float operation on a register: `op(value, b)`.
pub open spec fn float_unary<F: Fn(FloatOp, u32, u32) -> u32>(
    m: Machine,
    op1: OperandView,
    fpu: F,
    op: FloatOp,
    b: u32,
    not_register: Seq<char>,
) -> Result<(Machine, ()), Seq<char>> {
    match op1 {
        OperandView::Register(r) => done(with_float_result(m, r, fpu_value(fpu, op, m.regs.value(r), b))),
        _ => failed(not_register),
    }
}

/// Runs a binary float operation (see `float_binary`).
fn run_float_binary<F: Fn(FloatOp, u32, u32) -> u32>(
    cpu: &mut CPU,
    op1: &Operand,
    op2: &Operand,
    memory: &WorkMemory,
    fpu: &F,
    op: FloatOp,
    not_register: &str,
    bad_second: &str,
) -> (r: Result<(), String>)
    requires
        memory.wf(),
        fpu_ok(*fpu),
    ensures
        executed(
            *old(cpu),
            *memory,
            *final(cpu),
            *memory,
            r,
            float_binary(machine(*old(cpu), *memory), op1@, op2@, *fpu, op, not_register@, bad_second@),
        ),
{
    match op1 {
        Operand::Register(reg) => {
            let a = cpu.registers.read(*reg);
            let b = match op2 {
                Operand::Register(s) => cpu.registers.read(*s),
                Operand::Immediate(i) => float_op(fpu, FloatOp::FromInt, *i, 0),
                _ => {
                    return Err(string_from_str(bad_second));
                },
            };
            let res = float_op(fpu, op, a, b);
            set_register(cpu, *reg, res);
            cpu.registers.update_flags_f32(res);
            Ok(())
        },
        _ => Err(string_from_str(not_register)),
    }
}

/// Runs a unary float operation (see `float_unary`).
fn run_float_unary<F: Fn(FloatOp, u32, u32) -> u32>(
    cpu: &mut CPU,
    op1: &Operand,
    memory: &WorkMemory,
    fpu: &F,
    op: FloatOp,
    b: u32,
    not_register: &str,
) -> (r: Result<(), String>)
    requires
        memory.wf(),
        fpu_ok(*fpu),
    ensures
        executed(
            *old(cpu),
            *memory,
            *final(cpu),
            *memory,
            r,
            float_unary(machine(*old(cpu), *memory), op1@, *fpu, op, b, not_register@),
        ),
{
    match op1 {
        Operand::Register(reg) => {
            let a = cpu.registers.read(*reg);
            let res = float_op(fpu, op, a, b);
            set_register(cpu, *reg, res);
            cpu.registers.update_flags_f32(res);
            Ok(())
        },
        _ => Err(string_from_str(not_register)),
    }
}

/// `ADDW reg, reg|imm`.
pub open spec fn addw_spec<F: Fn(FloatOp, u32, u32) -> u32>(m: Machine, op1: OperandView, op2: OperandView, fpu: F) -> Result<
    (Machine, ()),
    Seq<char>,
> {
    float_binary(
        m,
        op1,
        op2,
        fpu,
        FloatOp::Add,
        "ADDW requires register first operand"@,
        "ADDW requires register or immediate second operand"@,
    )
}

/// Adds as floats: `ADDW reg, reg|imm`.
pub fn execute_addw_instruction<F: Fn(FloatOp, u32, u32) -> u32>(
    cpu: &mut CPU,
    op1: &Operand,
    op2: &Operand,
    memory: &mut WorkMemory,
    fpu: &F,
) -> (r: Result<(), String>)
    requires
        old(memory).wf(),
        fpu_ok(*fpu),
    ensures
        executed(
            *old(cpu),
            *old(memory),
            *final(cpu),
            *final(memory),
            r,
            addw_spec(machine(*old(cpu), *old(memory)), op1@, op2@, *fpu),
        ),
{
    run_float_binary(
        cpu,
        op1,
        op2,
        memory,
        fpu,
        FloatOp::Add,
        "ADDW requires register first operand",
        "ADDW requires register or immediate second operand",
    )
}

/// `SUBW reg, reg|imm`.
pub open spec fn subw_spec<F: Fn(FloatOp, u32, u32) -> u32>(m: Machine, op1: OperandView, op2: OperandView, fpu: F) -> Result<
    (Machine, ()),
    Seq<char>,
> {
    float_binary(
        m,
        op1,
        op2,
        fpu,
        FloatOp::Sub,
        "SUBW requires register first operand"@,
        "SUBW requires register or immediate second operand"@,
    )
}

/// Subtracts as floats: `SUBW reg, reg|imm`.
pub fn execute_subw_instruction<F: Fn(FloatOp, u32, u32) -> u32>(
    cpu: &mut CPU,
    op1: &Operand,
    op2: &Operand,
    memory: &mut WorkMemory,
    fpu: &F,
) -> (r: Result<(), String>)
    requires
        old(memory).wf(),
        fpu_ok(*fpu),
    ensures
        executed(
            *old(cpu),
            *old(memory),
            *final(cpu),
            *final(memory),
            r,
            subw_spec(machine(*old(cpu), *old(memory)), op1@, op2@, *fpu),
        ),
{
    run_float_binary(
        cpu,
        op1,
        op2,
        memory,
        fpu,
        FloatOp::Sub,
        "SUBW requires register first operand",
        "SUBW requires register or immediate second operand",
    )
}

/// `MUL reg, reg|imm`.
pub open spec fn mul_spec<F: Fn(FloatOp, u32, u32) -> u32>(m: Machine, op1: OperandView, op2: OperandView, fpu: F) -> Result<
    (Machine, ()),
    Seq<char>,
> {
    float_binary(
        m,
        op1,
        op2,
        fpu,
        FloatOp::Mul,
        "MUL requires register first operand"@,
        "MUL requires register or immediate second operand"@,
    )
}

/// Multiplies as floats: `MUL reg, reg|imm`.
pub fn execute_mul_instruction<F: Fn(FloatOp, u32, u32) -> u32>(
    cpu: &mut CPU,
    op1: &Operand,
    op2: &Operand,
    memory: &mut WorkMemory,
    fpu: &F,
) -> (r: Result<(), String>)
    requires
        old(memory).wf(),
        fpu_ok(*fpu),
    ensures
        executed(
            *old(cpu),
            *old(memory),
            *final(cpu),
            *final(memory),
            r,
            mul_spec(machine(*old(cpu), *old(memory)), op1@, op2@, *fpu),
        ),
{
    run_float_binary(
        cpu,
        op1,
        op2,
        memory,
        fpu,
        FloatOp::Mul,
        "MUL requires register first operand",
        "MUL requires register or immediate second operand",
    )
}

/// `INC reg`: the register plus 1.0.
pub open spec fn inc_spec<F: Fn(FloatOp, u32, u32) -> u32>(m: Machine, op1: OperandView, fpu: F) -> Result<(Machine, ()), Seq<char>> {
    float_unary(m, op1, fpu, FloatOp::Add, FLOAT_ONE, "INC requires register operand"@)
}

/// Increments as a float: `INC reg`.
pub fn execute_inc_instruction<F: Fn(FloatOp, u32, u32) -> u32>(
    cpu: &mut CPU,
    op1: &Operand,
    op2: &Operand,
    memory: &mut WorkMemory,
    fpu: &F,
) -> (r: Result<(), String>)
    requires
        old(memory).wf(),
        fpu_ok(*fpu),
    ensures
        executed(
            *old(cpu),
            *old(memory),
            *final(cpu),
            *final(memory),
            r,
            inc_spec(machine(*old(cpu), *old(memory)), op1@, *fpu),
        ),
{
    run_float_unary(cpu, op1, memory, fpu, FloatOp::Add, FLOAT_ONE, "INC requires register operand")
}

/// `DEC reg`: the register minus 1.0.
pub open spec fn dec_spec<F: Fn(FloatOp, u32, u32) -> u32>(m: Machine, op1: OperandView, fpu: F) -> Result<(Machine, ()), Seq<char>> {
    float_unary(m, op1, fpu, FloatOp::Sub, FLOAT_ONE, "DEC requires register operand"@)
}

/// Decrements as a float: `DEC reg`.
pub fn execute_dec_instruction<F: Fn(FloatOp, u32, u32) -> u32>(
    cpu: &mut CPU,
    op1: &Operand,
    op2: &Operand,
    memory: &mut WorkMemory,
    fpu: &F,
) -> (r: Result<(), String>)
    requires
        old(memory).wf(),
        fpu_ok(*fpu),
    ensures
        executed(
            *old(cpu),
            *old(memory),
            *final(cpu),
            *final(memory),
            r,
            dec_spec(machine(*old(cpu), *old(memory)), op1@, *fpu),
        ),
{
    run_float_unary(cpu, op1, memory, fpu, FloatOp::Sub, FLOAT_ONE, "DEC requires register operand")
}

/// `NEG reg`: the register negated.
pub open spec fn neg_spec<F: Fn(FloatOp, u32, u32) -> u32>(m: Machine, op1: OperandView, fpu: F) -> Result<(Machine, ()), Seq<char>> {
    float_unary(m, op1, fpu, FloatOp::Neg, 0, "NEG requires register operand"@)
}

/// Negates as a float: `NEG reg`.
pub fn execute_neg_instruction<F: Fn(FloatOp, u32, u32) -> u32>(
    cpu: &mut CPU,
    op1: &Operand,
    op2: &Operand,
    memory: &mut WorkMemory,
    fpu: &F,
) -> (r: Result<(), String>)
    requires
        old(memory).wf(),
        fpu_ok(*fpu),
    ensures
        executed(
            *old(cpu),
            *old(memory),
            *final(cpu),
            *final(memory),
            r,
            neg_spec(machine(*old(cpu), *old(memory)), op1@, *fpu),
        ),
{
    run_float_unary(cpu, op1, memory, fpu, FloatOp::Neg, 0, "NEG requires register operand")
}

} // verus!
