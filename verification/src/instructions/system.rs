//! System instructions: halting the CPU.

use vstd::prelude::*;
use crate::chips::cpu::CPU;
use crate::instructions::{done, executed, machine, Machine};
use crate::memory::main_memory::WorkMemory;
use crate::utils::assembler::operands::Operand;

verus! {

/// `HALT`: the CPU stops.
pub open spec fn halt_spec(m: Machine) -> Result<(Machine, ()), Seq<char>> {
    done(Machine { halted: true, ..m })
}

/// Halts the CPU: `HALT`.
pub fn execute_halt(cpu: &mut CPU, op1: &Operand, op2: &Operand, memory: &mut WorkMemory) -> (r:
    Result<(), String>)
    requires
        old(memory).wf(),
    ensures
        executed(
            *old(cpu),
            *old(memory),
            *final(cpu),
            *final(memory),
            r,
            halt_spec(machine(*old(cpu), *old(memory))),
        ),
{
    cpu.halted = true;
    Ok(())
}

} // verus!
