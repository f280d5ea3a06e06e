//! The instruction set of the ARC CPU. Each instruction is a function of the
//! CPU, its two operands and the memory; its effect is stated over a
//! `Machine`, the registers, halt state and memory bytes taken together.
//!
//! Arithmetic works on the IEEE single-precision values that registers hold
//! as bit patterns. The arithmetic itself is done by a floating-point unit
//! that the caller hands in: a function from an operation and two bit
//! patterns to the bit pattern of the result.

use vstd::prelude::*;
use crate::chips::cpu::CPU;
use crate::memory::main_memory::{out_of_bounds_text, read32, u32_bytes, write_bytes, WorkMemory};
use crate::memory::registers::{Reg, Registers};

pub mod aritmethic;
pub mod bitwise;
pub mod compare;
pub mod control;
pub mod io;
pub mod moves;
pub mod system;

verus! {

/// The state that instructions act on.
pub struct Machine {
    pub regs: Registers,
    pub halted: bool,
    pub mem: Seq<u8>,
    pub size: usize,
}

/// The machine state of a CPU and its memory.
pub open spec fn machine(cpu: CPU, memory: WorkMemory) -> Machine {
    Machine { regs: cpu.registers, halted: cpu.halted, mem: memory.memory@, size: memory.size }
}

/// Whether an instruction that went from `(c0, m0)` to `(c1, m1)` with the
/// result `r` did what `expected` says: on success the new state, on error
/// that text with nothing changed. The memory keeps its size and stack
/// pointer either way.
pub open spec fn executed<T>(
    c0: CPU,
    m0: WorkMemory,
    c1: CPU,
    m1: WorkMemory,
    r: Result<T, String>,
    expected: Result<(Machine, T), Seq<char>>,
) -> bool {
    &&& m1.wf()
    &&& m1.size == m0.size
    &&& m1.stack_pointer == m0.stack_pointer
    &&& match expected {
        Ok((m, v)) => r == Ok::<T, String>(v) && machine(c1, m1) == m,
        Err(e) => r matches Err(msg) && msg@ == e && machine(c1, m1) == machine(c0, m0),
    }
}

/// A successful step to `m` with no value.
pub open spec fn done(m: Machine) -> Result<(Machine, ()), Seq<char>> {
    Ok((m, ()))
}

/// A failed step.
pub open spec fn failed<T>(e: Seq<char>) -> Result<(Machine, T), Seq<char>> {
    Err(e)
}

/// `m` with register `r` holding `v`.
pub open spec fn with_reg(m: Machine, r: Reg, v: u32) -> Machine {
    Machine { regs: m.regs.with_value(r, v), ..m }
}

/// The word at address `a`, or the error for an address out of bounds.
pub open spec fn read_word(m: Machine, a: u32) -> Result<u32, Seq<char>> {
    if a + 3 < m.size {
        Ok(read32(m.mem, a as int))
    } else {
        Err(out_of_bounds_text("read"@, a))
    }
}

/// `m` with `v` written at address `a`, or the error for an address out of
/// bounds.
pub open spec fn write_word(m: Machine, a: u32, v: u32) -> Result<Machine, Seq<char>> {
    if a + 3 < m.size {
        Ok(Machine { mem: write_bytes(m.mem, a as int, u32_bytes(v)), ..m })
    } else {
        Err(out_of_bounds_text("write"@, a))
    }
}

/// The byte at address `a`, or the error for an address out of bounds.
pub open spec fn read_byte(m: Machine, a: u32) -> Result<u8, Seq<char>> {
    if a < m.size {
        Ok(m.mem[a as int])
    } else {
        Err(out_of_bounds_text("read"@, a))
    }
}

/// `x + 4`, wrapping around at 2^32.
pub open spec fn add4(x: u32) -> u32 {
    if x <= 0xFFFF_FFFB {
        (x + 4) as u32
    } else {
        (x - 0xFFFF_FFFC) as u32
    }
}

/// `x - 4`, wrapping around at 0.
pub open spec fn sub4(x: u32) -> u32 {
    if x >= 4 {
        (x - 4) as u32
    } else {
        (x + 0xFFFF_FFFC) as u32
    }
}

/// `x + 4`, wrapping around at 2^32 (`u32::wrapping_add`).
pub fn wrapping_add4(x: u32) -> (r: u32)
    ensures
        r == add4(x),
{
    if x <= 0xFFFF_FFFB {
        x + 4
    } else {
        x - 0xFFFF_FFFC
    }
}

/// `x - 4`, wrapping around at 0 (`u32::wrapping_sub`).
pub fn wrapping_sub4(x: u32) -> (r: u32)
    ensures
        r == sub4(x),
{
    if x >= 4 {
        x - 4
    } else {
        x + 0xFFFF_FFFC
    }
}

/// Stores `v` in register `r`.
pub fn set_register(cpu: &mut CPU, r: Reg, v: u32)
    ensures
        final(cpu).registers == old(cpu).registers.with_value(r, v),
        final(cpu).halted == old(cpu).halted,
{
    cpu.registers.write(r, v);
}

/// Reads a word from memory, stating the result over the machine.
pub fn load_word(cpu: &CPU, memory: &WorkMemory, a: u32) -> (r: Result<u32, String>)
    requires
        memory.wf(),
    ensures
        match read_word(machine(*cpu, *memory), a) {
            Ok(v) => r == Ok::<u32, String>(v),
            Err(e) => r matches Err(msg) && msg@ == e,
        },
{
    memory.read_u32(a)
}

/// Writes a word to memory, stating the result over the machine.
pub fn store_word(cpu: &CPU, memory: &mut WorkMemory, a: u32, v: u32) -> (r: Result<(), String>)
    requires
        old(memory).wf(),
    ensures
        final(memory).wf(),
        final(memory).size == old(memory).size,
        final(memory).stack_pointer == old(memory).stack_pointer,
        match write_word(machine(*cpu, *old(memory)), a, v) {
            Ok(m) => r == Ok::<(), String>(()) && machine(*cpu, *final(memory)) == m,
            Err(e) => r matches Err(msg) && msg@ == e && final(memory).memory@ == old(
                memory,
            ).memory@,
        },
{
    match memory.write_u32(a, v) {
        Ok(()) => Ok(()),
        Err(e) => Err(e),
    }
}

// ---------------------------------------------------------------------------
// The floating-point unit
// ---------------------------------------------------------------------------

/// The operations of the floating-point unit on single-precision bit
/// patterns.
#[derive(Debug, Clone, Copy, PartialEq, Eq, Structural)]
pub enum FloatOp {
    /// The bits of the integer in the first operand, converted to a float.
    FromInt,
    /// The sum of the two operands.
    Add,
    /// The first operand minus the second.
    Sub,
    /// The product of the two operands.
    Mul,
    /// The first operand negated.
    Neg,
}

/// The bit pattern of the single-precision value 1.0.
pub const FLOAT_ONE: u32 = 0x3F80_0000;

/// Whether a floating-point unit accepts every input and gives one answer
/// for each.
pub open spec fn fpu_ok<F: Fn(FloatOp, u32, u32) -> u32>(f: F) -> bool {
    &&& forall|op: FloatOp, a: u32, b: u32| #[trigger] f.requires((op, a, b))
    &&& forall|op: FloatOp, a: u32, b: u32, x: u32, y: u32|
        #[trigger] f.ensures((op, a, b), x) && #[trigger] f.ensures((op, a, b), y) ==> x == y
}

/// The answer of a floating-point unit.
pub open spec fn fpu_value<F: Fn(FloatOp, u32, u32) -> u32>(f: F, op: FloatOp, a: u32, b: u32) -> u32 {
    choose|v: u32| #[trigger] f.ensures((op, a, b), v)
}

/// Calls the floating-point unit.
pub fn float_op<F: Fn(FloatOp, u32, u32) -> u32>(fpu: &F, op: FloatOp, a: u32, b: u32) -> (r: u32)
    requires
        fpu_ok(*fpu),
    ensures
        r == fpu_value(*fpu, op, a, b),
{
    let r = fpu(op, a, b);
    assert(fpu.ensures((op, a, b), fpu_value(*fpu, op, a, b)));
    r
}

} // verus!
