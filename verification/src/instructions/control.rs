//! Control instructions: setting and clearing CPU flags.

use vstd::prelude::*;
use crate::chips::cpu::CPU;
use crate::instructions::{done, executed, failed, machine, Machine};
use crate::memory::main_memory::WorkMemory;
use crate::memory::registers::{
    with_bit, CARRY_BIT, INTERRUPT_BIT, MACRO_BIT, OVERFLOW_BIT, SIGN_BIT, STACK_DIR_BIT,
    STRING_BIT, ZERO_BIT,
};
use crate::text::{dec_text, push_dec, string_from_str};
use crate::utils::assembler::operands::{Operand, OperandView};

verus! {

/// The bit in `FLAGS` of a flag id, as the assembler numbers flags: carry,
/// zero, sign, interrupt, string, overflow, macro, stack direction.
pub open spec fn flag_id_bit(id: u8) -> Option<u32> {
    if id == 0 {
        Some(CARRY_BIT)
    } else if id == 1 {
        Some(ZERO_BIT)
    } else if id == 2 {
        Some(SIGN_BIT)
    } else if id == 3 {
        Some(INTERRUPT_BIT)
    } else if id == 4 {
        Some(STRING_BIT)
    } else if id == 5 {
        Some(OVERFLOW_BIT)
    } else if id == 6 {
        Some(MACRO_BIT)
    } else if id == 7 {
        Some(STACK_DIR_BIT)
    } else {
        None
    }
}

/// The bit of a flag id, or the error for an unknown id.
fn flag_id_to_bit(id: u8) -> (r: Result<u32, String>)
    ensures
        match flag_id_bit(id) {
            Some(b) => r == Ok::<u32, String>(b) && b < 32,
            None => r matches Err(e) && e@ == "Unknown flag id: "@ + dec_text(id as nat),
        },
{
    if id == 0 {
        Ok(CARRY_BIT)
    } else if id == 1 {
        Ok(ZERO_BIT)
    } else if id == 2 {
        Ok(SIGN_BIT)
    } else if id == 3 {
        Ok(INTERRUPT_BIT)
    } else if id == 4 {
        Ok(STRING_BIT)
    } else if id == 5 {
        Ok(OVERFLOW_BIT)
    } else if id == 6 {
        Ok(MACRO_BIT)
    } else if id == 7 {
        Ok(STACK_DIR_BIT)
    } else {
        let mut e = string_from_str("Unknown flag id: ");
        push_dec(&mut e, id as u64);
        Err(e)
    }
}

/// A flag set to `value` (`SETF`, `CLRF`), with the error for an operand
/// that is no flag.
pub open spec fn flag_spec(m: Machine, op1: OperandView, value: bool, not_flag: Seq<char>) -> Result<
    (Machine, ()),
    Seq<char>,
> {
    match op1 {
        OperandView::Flag(id) => match flag_id_bit(id) {
            Some(b) => done(
                Machine { regs: m.regs.with_flags(with_bit(m.regs.flags, b, value)), ..m },
            ),
            None => failed("Unknown flag id: "@ + dec_text(id as nat)),
        },
        _ => failed(not_flag),
    }
}

/// Sets a flag: `SETF flag`.
pub fn execute_setf(cpu: &mut CPU, op1: &Operand, op2: &Operand, memory: &mut WorkMemory) -> (r:
    Result<(), String>)
    requires
        old(memory).wf(),
    ensures
        executed(
            *old(cpu),
            *old(memory),
            *final(cpu),
            *final(memory),
            r,
            flag_spec(
                machine(*old(cpu), *old(memory)),
                op1@,
                true,
                "SETF requires a flag name as operand"@,
            ),
        ),
{
    match op1 {
        Operand::Flag(id) => match flag_id_to_bit(*id) {
            Ok(b) => {
                cpu.registers.set_flag_bit(b, true);
                Ok(())
            },
            Err(e) => Err(e),
        },
        _ => Err(string_from_str("SETF requires a flag name as operand")),
    }
}

/// Clears a flag: `CLRF flag`.
pub fn execute_clrf(cpu: &mut CPU, op1: &Operand, op2: &Operand, memory: &mut WorkMemory) -> (r:
    Result<(), String>)
    requires
        old(memory).wf(),
    ensures
        executed(
            *old(cpu),
            *old(memory),
            *final(cpu),
            *final(memory),
            r,
            flag_spec(
                machine(*old(cpu), *old(memory)),
                op1@,
                false,
                "CLRF requires a flag name as operand"@,
            ),
        ),
{
    match op1 {
        Operand::Flag(id) => match flag_id_to_bit(*id) {
            Ok(b) => {
                cpu.registers.set_flag_bit(b, false);
                Ok(())
            },
            Err(e) => Err(e),
        },
        _ => Err(string_from_str("CLRF requires a flag name as operand")),
    }
}

} // verus!
