//! Data movement: immediates and words into registers, words into memory,
//! the stack, and register exchange.

use vstd::prelude::*;
use crate::chips::cpu::CPU;
use crate::instructions::{
    add4, done, executed, sub4, wrapping_add4, wrapping_sub4, failed, load_word, machine, read_word, set_register, store_word, with_reg,
    write_word, Machine,
};
use crate::memory::main_memory::WorkMemory;
use crate::memory::registers::{Reg, STACK_DIR_BIT};
use crate::text::string_from_str;
use crate::utils::assembler::operands::{Operand, OperandView};

verus! {

/// An immediate loaded into a register (`MOVI`, `LODI`), with the errors
/// for a first operand that is no register and a second that is no
/// immediate.
pub open spec fn load_immediate(
    m: Machine,
    op1: OperandView,
    op2: OperandView,
    not_register: Seq<char>,
    not_immediate: Seq<char>,
) -> Result<(Machine, ()), Seq<char>> {
    match op1 {
        OperandView::Register(r) => match op2 {
            OperandView::Immediate(i) => done(with_reg(m, r, i)),
            _ => failed(not_immediate),
        },
        _ => failed(not_register),
    }
}

/// Moves an immediate into a register: `MOVI reg, imm`.
pub fn execute_movi(cpu: &mut CPU, op1: &Operand, op2: &Operand, memory: &mut WorkMemory) -> (r:
    Result<(), String>)
    requires
        old(memory).wf(),
    ensures
        executed(
            *old(cpu),
            *old(memory),
            *final(cpu),
            *final(memory),
            r,
            load_immediate(
                machine(*old(cpu), *old(memory)),
                op1@,
                op2@,
                "MOVI requires register first operand"@,
                "MOVI requires immediate second operand"@,
            ),
        ),
{
    match op1 {
        Operand::Register(reg) => match op2 {
            Operand::Immediate(imm) => {
                set_register(cpu, *reg, *imm);
                Ok(())
            },
            _ => Err(string_from_str("MOVI requires immediate second operand")),
        },
        _ => Err(string_from_str("MOVI requires register first operand")),
    }
}

/// Loads an immediate into a register: `LODI reg, imm`.
pub fn execute_lodi(cpu: &mut CPU, op1: &Operand, op2: &Operand, memory: &mut WorkMemory) -> (r:
    Result<(), String>)
    requires
        old(memory).wf(),
    ensures
        executed(
            *old(cpu),
            *old(memory),
            *final(cpu),
            *final(memory),
            r,
            load_immediate(
                machine(*old(cpu), *old(memory)),
                op1@,
                op2@,
                "LODI requires register first operand"@,
                "LODI requires immediate second operand"@,
            ),
        ),
{
    match op1 {
        Operand::Register(reg) => match op2 {
            Operand::Immediate(imm) => {
                set_register(cpu, *reg, *imm);
                Ok(())
            },
            _ => Err(string_from_str("LODI requires immediate second operand")),
        },
        _ => Err(string_from_str("LODI requires register first operand")),
    }
}

/// `MOVW reg, src`: a register, an immediate or a word in memory into a
/// register.
pub open spec fn movw_spec(m: Machine, op1: OperandView, op2: OperandView) -> Result<
    (Machine, ()),
    Seq<char>,
> {
    match op1 {
        OperandView::Register(d) => {
            let v = match op2 {
                OperandView::Register(s) => Ok(m.regs.value(s)),
                OperandView::Immediate(i) => Ok(i),
                OperandView::Address(a) => read_word(m, a),
                _ => Err("Invalid second operand for MOVW"@),
            };
            match v {
                Ok(v) => done(with_reg(m, d, v)),
                Err(e) => failed(e),
            }
        },
        _ => failed("MOVW requires register first operand"@),
    }
}

/// Moves a word into a register: `MOVW reg, reg|imm|[addr]`.
pub fn execute_movw(cpu: &mut CPU, op1: &Operand, op2: &Operand, memory: &mut WorkMemory) -> (r:
    Result<(), String>)
    requires
        old(memory).wf(),
    ensures
        executed(
            *old(cpu),
            *old(memory),
            *final(cpu),
            *final(memory),
            r,
            movw_spec(machine(*old(cpu), *old(memory)), op1@, op2@),
        ),
{
    match op1 {
        Operand::Register(dest) => {
            let value = match op2 {
                Operand::Register(src) => cpu.registers.read(*src),
                Operand::Immediate(imm) => *imm,
                Operand::Address(addr) => match load_word(cpu, memory, *addr) {
                    Ok(v) => v,
                    Err(e) => {
                        return Err(e);
                    },
                },
                _ => {
                    return Err(string_from_str("Invalid second operand for MOVW"));
                },
            };
            set_register(cpu, *dest, value);
            Ok(())
        },
        _ => Err(string_from_str("MOVW requires register first operand")),
    }
}

/// `LODW reg, src`: the word at an address, or at the address a register
/// holds, into a register.
pub open spec fn lodw_spec(m: Machine, op1: OperandView, op2: OperandView) -> Result<
    (Machine, ()),
    Seq<char>,
> {
    match op1 {
        OperandView::Register(d) => {
            let a = match op2 {
                OperandView::Address(a) => Ok(a),
                OperandView::Register(ar) => Ok(m.regs.value(ar)),
                _ => Err("LODW requires address or register second operand"@),
            };
            match a {
                Ok(a) => match read_word(m, a) {
                    Ok(v) => done(with_reg(m, d, v)),
                    Err(e) => failed(e),
                },
                Err(e) => failed(e),
            }
        },
        _ => failed("LODW requires register first operand"@),
    }
}

/// Loads a word from memory into a register: `LODW reg, [addr]|reg`.
pub fn execute_lodw(cpu: &mut CPU, op1: &Operand, op2: &Operand, memory: &mut WorkMemory) -> (r:
    Result<(), String>)
    requires
        old(memory).wf(),
    ensures
        executed(
            *old(cpu),
            *old(memory),
            *final(cpu),
            *final(memory),
            r,
            lodw_spec(machine(*old(cpu), *old(memory)), op1@, op2@),
        ),
{
    match op1 {
        Operand::Register(dest) => {
            let addr = match op2 {
                Operand::Address(a) => *a,
                Operand::Register(ar) => cpu.registers.read(*ar),
                _ => {
                    return Err(string_from_str("LODW requires address or register second operand"));
                },
            };
            let value = match load_word(cpu, memory, addr) {
                Ok(v) => v,
                Err(e) => {
                    return Err(e);
                },
            };
            set_register(cpu, *dest, value);
            Ok(())
        },
        _ => Err(string_from_str("LODW requires register first operand")),
    }
}

/// The address of a store: an address, or the value of a register.
pub open spec fn store_address(m: Machine, op1: OperandView, not_address: Seq<char>) -> Result<
    u32,
    Seq<char>,
> {
    match op1 {
        OperandView::Address(a) => Ok(a),
        OperandView::Register(r) => Ok(m.regs.value(r)),
        _ => Err(not_address),
    }
}

/// `STRI dst, imm`: an immediate stored as a word.
pub open spec fn stri_spec(m: Machine, op1: OperandView, op2: OperandView) -> Result<
    (Machine, ()),
    Seq<char>,
> {
    match store_address(m, op1, "STRI requires address or register first operand"@) {
        Err(e) => failed(e),
        Ok(a) => match op2 {
            OperandView::Immediate(i) => match write_word(m, a, i) {
                Ok(n) => done(n),
                Err(e) => failed(e),
            },
            _ => failed("STRI requires immediate second operand"@),
        },
    }
}

/// Stores an immediate into memory: `STRI [addr]|reg, imm`.
pub fn execute_stri(cpu: &mut CPU, op1: &Operand, op2: &Operand, memory: &mut WorkMemory) -> (r:
    Result<(), String>)
    requires
        old(memory).wf(),
    ensures
        executed(
            *old(cpu),
            *old(memory),
            *final(cpu),
            *final(memory),
            r,
            stri_spec(machine(*old(cpu), *old(memory)), op1@, op2@),
        ),
{
    let addr = match op1 {
        Operand::Address(a) => *a,
        Operand::Register(ar) => cpu.registers.read(*ar),
        _ => {
            return Err(string_from_str("STRI requires address or register first operand"));
        },
    };
    let value = match op2 {
        Operand::Immediate(i) => *i,
        _ => {
            return Err(string_from_str("STRI requires immediate second operand"));
        },
    };
    store_word(cpu, memory, addr, value)
}

/// `STRW dst, src`: a register's value or an immediate stored as a word.
pub open spec fn strw_spec(m: Machine, op1: OperandView, op2: OperandView) -> Result<
    (Machine, ()),
    Seq<char>,
> {
    match store_address(m, op1, "STRW requires address or register first operand"@) {
        Err(e) => failed(e),
        Ok(a) => {
            let v = match op2 {
                OperandView::Register(r) => Ok(m.regs.value(r)),
                OperandView::Immediate(i) => Ok(i),
                _ => Err("STRW requires register or immediate second operand"@),
            };
            match v {
                Ok(v) => match write_word(m, a, v) {
                    Ok(n) => done(n),
                    Err(e) => failed(e),
                },
                Err(e) => failed(e),
            }
        },
    }
}

/// Stores a word into memory: `STRW [addr]|reg, reg|imm`.
pub fn execute_strw(cpu: &mut CPU, op1: &Operand, op2: &Operand, memory: &mut WorkMemory) -> (r:
    Result<(), String>)
    requires
        old(memory).wf(),
    ensures
        executed(
            *old(cpu),
            *old(memory),
            *final(cpu),
            *final(memory),
            r,
            strw_spec(machine(*old(cpu), *old(memory)), op1@, op2@),
        ),
{
    let addr = match op1 {
        Operand::Address(a) => *a,
        Operand::Register(ar) => cpu.registers.read(*ar),
        _ => {
            return Err(string_from_str("STRW requires address or register first operand"));
        },
    };
    let value = match op2 {
        Operand::Register(vr) => cpu.registers.read(*vr),
        Operand::Immediate(i) => *i,
        _ => {
            return Err(string_from_str("STRW requires register or immediate second operand"));
        },
    };
    store_word(cpu, memory, addr, value)
}

/// Whether the stack grows upward: the stack-direction flag is set.
pub open spec fn stack_grows_up(m: Machine) -> bool {
    m.regs.flag(STACK_DIR_BIT)
}

/// `PUSH src`: the value stored at the stack pointer, which then moves by
/// four bytes; upward (store, then increase) when the stack-direction flag
/// is set, downward (decrease, then store) otherwise. The pointer wraps.
pub open spec fn push_spec(m: Machine, op1: OperandView) -> Result<(Machine, ()), Seq<char>> {
    let v = match op1 {
        OperandView::Register(r) => Ok(m.regs.value(r)),
        OperandView::Immediate(i) => Ok(i),
        _ => Err("PUSH requires register or immediate operand"@),
    };
    match v {
        Err(e) => failed(e),
        Ok(v) => {
            let sp = m.regs.sp;
            if stack_grows_up(m) {
                match write_word(m, sp, v) {
                    Ok(n) => done(with_reg(n, Reg::SP, add4(sp))),
                    Err(e) => failed(e),
                }
            } else {
                let new_sp = sub4(sp);
                match write_word(m, new_sp, v) {
                    Ok(n) => done(with_reg(n, Reg::SP, new_sp)),
                    Err(e) => failed(e),
                }
            }
        },
    }
}

/// Pushes a register's value or an immediate onto the stack: `PUSH reg|imm`.
pub fn execute_push(cpu: &mut CPU, op1: &Operand, op2: &Operand, memory: &mut WorkMemory) -> (r:
    Result<(), String>)
    requires
        old(memory).wf(),
    ensures
        executed(
            *old(cpu),
            *old(memory),
            *final(cpu),
            *final(memory),
            r,
            push_spec(machine(*old(cpu), *old(memory)), op1@),
        ),
{
    let value = match op1 {
        Operand::Register(reg) => cpu.registers.read(*reg),
        Operand::Immediate(i) => *i,
        _ => {
            return Err(string_from_str("PUSH requires register or immediate operand"));
        },
    };
    let sp = cpu.registers.read(Reg::SP);
    let up = cpu.registers.flag_bit_set(STACK_DIR_BIT);
    if up {
        match store_word(cpu, memory, sp, value) {
            Ok(()) => {},
            Err(e) => {
                return Err(e);
            },
        }
        set_register(cpu, Reg::SP, wrapping_add4(sp));
        Ok(())
    } else {
        let new_sp = wrapping_sub4(sp);
        match store_word(cpu, memory, new_sp, value) {
            Ok(()) => {},
            Err(e) => {
                return Err(e);
            },
        }
        set_register(cpu, Reg::SP, new_sp);
        Ok(())
    }
}

/// `POP reg`: the word at the top of the stack into a register, the stack
/// pointer moving back by four bytes (the pointer is set last, so `POP SP`
/// leaves the moved pointer).
pub open spec fn pop_spec(m: Machine, op1: OperandView) -> Result<(Machine, ()), Seq<char>> {
    match op1 {
        OperandView::Register(r) => {
            let sp = m.regs.sp;
            if stack_grows_up(m) {
                let new_sp = sub4(sp);
                match read_word(m, new_sp) {
                    Ok(v) => done(with_reg(with_reg(m, r, v), Reg::SP, new_sp)),
                    Err(e) => failed(e),
                }
            } else {
                match read_word(m, sp) {
                    Ok(v) => done(with_reg(with_reg(m, r, v), Reg::SP, add4(sp))),
                    Err(e) => failed(e),
                }
            }
        },
        _ => failed("POP requires register operand"@),
    }
}

/// Pops the top of the stack into a register: `POP reg`.
pub fn execute_pop(cpu: &mut CPU, op1: &Operand, op2: &Operand, memory: &mut WorkMemory) -> (r:
    Result<(), String>)
    requires
        old(memory).wf(),
    ensures
        executed(
            *old(cpu),
            *old(memory),
            *final(cpu),
            *final(memory),
            r,
            pop_spec(machine(*old(cpu), *old(memory)), op1@),
        ),
{
    match op1 {
        Operand::Register(reg) => {
            let sp = cpu.registers.read(Reg::SP);
            let up = cpu.registers.flag_bit_set(STACK_DIR_BIT);
            let (addr, new_sp) = if up {
                (wrapping_sub4(sp), wrapping_sub4(sp))
            } else {
                (sp, wrapping_add4(sp))
            };
            let value = match load_word(cpu, memory, addr) {
                Ok(v) => v,
                Err(e) => {
                    return Err(e);
                },
            };
            set_register(cpu, *reg, value);
            set_register(cpu, Reg::SP, new_sp);
            Ok(())
        },
        _ => Err(string_from_str("POP requires register operand")),
    }
}

/// `XCGH a, b`: two registers exchange their values (the second register is
/// written last).
pub open spec fn xcgh_spec(m: Machine, op1: OperandView, op2: OperandView) -> Result<
    (Machine, ()),
    Seq<char>,
> {
    match (op1, op2) {
        (OperandView::Register(a), OperandView::Register(b)) => done(
            with_reg(with_reg(m, a, m.regs.value(b)), b, m.regs.value(a)),
        ),
        _ => failed("XCGH requires two register operands"@),
    }
}

/// Exchanges two registers: `XCGH reg, reg`.
pub fn execute_xcgh(cpu: &mut CPU, op1: &Operand, op2: &Operand, memory: &mut WorkMemory) -> (r:
    Result<(), String>)
    requires
        old(memory).wf(),
    ensures
        executed(
            *old(cpu),
            *old(memory),
            *final(cpu),
            *final(memory),
            r,
            xcgh_spec(machine(*old(cpu), *old(memory)), op1@, op2@),
        ),
{
    match (op1, op2) {
        (Operand::Register(a), Operand::Register(b)) => {
            let v1 = cpu.registers.read(*a);
            let v2 = cpu.registers.read(*b);
            set_register(cpu, *a, v2);
            set_register(cpu, *b, v1);
            Ok(())
        },
        _ => Err(string_from_str("XCGH requires two register operands")),
    }
}

} // verus!
