//! Input and output instructions. Input is read from the I/O segment of
//! memory (from `IO_START` on, at most `IO_SIZE` bytes, up to a zero byte);
//! output is handed back to the caller to show.

use vstd::prelude::*;
use crate::chips::cpu::CPU;
use crate::instructions::{
    done, executed, failed, load_word, machine, read_byte, read_word, store_word, write_word,
    Machine,
};
use crate::memory::main_memory::{write_bytes, WorkMemory};
use crate::text::string_from_str;
use crate::utils::assembler::operands::{Operand, OperandView};

verus! {

/// The first address of the I/O segment.
pub const IO_START: u32 = 0xE000;

/// The size of the I/O segment.
pub const IO_SIZE: u32 = 0x1000;

/// The word that `INSI` stores.
pub const INSI_VALUE: u32 = 0xDEADBEEF;

/// The word that `INSW` stores.
pub const INSW_VALUE: u32 = 0xCAFEBABE;

/// The address an I/O instruction uses: an address, or the value of a
/// register; with the error for any other operand.
pub open spec fn io_address(m: Machine, op1: OperandView, bad: Seq<char>) -> Result<u32, Seq<char>> {
    match op1 {
        OperandView::Address(a) => Ok(a),
        OperandView::AddressRegister(r) => Ok(m.regs.value(r)),
        _ => Err(bad),
    }
}

fn read_io_address(cpu: &CPU, op1: &Operand, bad: &str) -> (r: Result<u32, String>)
    ensures
        match io_address(
            Machine { regs: cpu.registers, halted: cpu.halted, mem: seq![], size: 0 },
            op1@,
            bad@,
        ) {
            Ok(v) => r == Ok::<u32, String>(v),
            Err(e) => r matches Err(msg) && msg@ == e,
        },
{
    match op1 {
        Operand::Address(a) => Ok(*a),
        Operand::AddressRegister(reg) => Ok(cpu.registers.read(*reg)),
        _ => Err(string_from_str(bad)),
    }
}

/// The input waiting in the I/O segment from offset `i` on: the bytes up
/// to the first zero or the segment's end, or the error for a byte past the
/// end of memory.
pub open spec fn io_input_from(m: Machine, i: nat) -> Result<Seq<u8>, Seq<char>>
    decreases IO_SIZE - i,
{
    if i >= IO_SIZE {
        Ok(seq![])
    } else {
        match read_byte(m, (IO_START + i) as u32) {
            Err(e) => Err(e),
            Ok(b) => if b == 0 {
                Ok(seq![])
            } else {
                match io_input_from(m, i + 1) {
                    Ok(rest) => Ok(seq![b] + rest),
                    Err(e) => Err(e),
                }
            },
        }
    }
}

/// The input waiting in the I/O segment.
pub open spec fn io_input(m: Machine) -> Result<Seq<u8>, Seq<char>> {
    io_input_from(m, 0)
}

/// `IN dst`: the waiting input copied to the destination, or the error of
/// a copy that does not fit in memory.
pub open spec fn in_spec(m: Machine, op1: OperandView) -> Result<(Machine, ()), Seq<char>> {
    match io_address(m, op1, "IN requires an address or address register operand"@) {
        Err(e) => failed(e),
        Ok(a) => match io_input(m) {
            Err(e) => failed(e),
            Ok(buf) => if a + buf.len() <= m.size {
                done(Machine { mem: write_bytes(m.mem, a as int, buf), ..m })
            } else {
                failed("Data too large for memory"@)
            },
        },
    }
}

/// Whether `IN` would copy past address `u32::MAX`, which stops the program.
pub open spec fn in_stops(m: Machine, op1: OperandView) -> bool {
    match io_address(m, op1, seq![]) {
        Err(_) => false,
        Ok(a) => match io_input(m) {
            Err(_) => false,
            Ok(buf) => a + buf.len() <= m.size && a + buf.len() > 0x1_0000_0000,
        },
    }
}

/// Reads the waiting input from the I/O segment.
fn read_io_input(memory: &WorkMemory, Ghost(m): Ghost<Machine>) -> (r: Result<Vec<u8>, String>)
    requires
        memory.wf(),
        m.mem == memory.memory@,
        m.size == memory.size,
    ensures
        match io_input(m) {
            Ok(b) => r matches Ok(v) && v@ == b,
            Err(e) => r matches Err(msg) && msg@ == e,
        },
{
    let mut buffer: Vec<u8> = Vec::new();
    let mut i: u32 = 0;
    while i < IO_SIZE
        invariant
            i <= IO_SIZE,
            memory.wf(),
            m.mem == memory.memory@,
            m.size == memory.size,
            io_input(m) == match io_input_from(m, i as nat) {
                Ok(rest) => Ok(buffer@ + rest),
                Err(e) => Err(e),
            },
        decreases IO_SIZE - i,
    {
        let b = match memory.read_u8(IO_START + i) {
            Ok(b) => b,
            Err(e) => {
                return Err(e);
            },
        };
        if b == 0 {
            assert(buffer@ + seq![] =~= buffer@);
            return Ok(buffer);
        }
        proof {
            match io_input_from(m, (i + 1) as nat) {
                Ok(rest) => {
                    assert(buffer@ + (seq![b] + rest) =~= buffer@.push(b) + rest);
                },
                Err(_) => {},
            }
        }
        buffer.push(b);
        i = i + 1;
    }
    assert(buffer@ + seq![] =~= buffer@);
    Ok(buffer)
}

/// Copies the waiting input to memory: `IN [addr]|[reg]`.
pub fn execute_in(cpu: &mut CPU, op1: &Operand, op2: &Operand, memory: &mut WorkMemory) -> (r:
    Result<(), String>)
    requires
        old(memory).wf(),
        !in_stops(machine(*old(cpu), *old(memory)), op1@),
    ensures
        executed(
            *old(cpu),
            *old(memory),
            *final(cpu),
            *final(memory),
            r,
            in_spec(machine(*old(cpu), *old(memory)), op1@),
        ),
{
    let ghost m = machine(*cpu, *memory);
    let a = match read_io_address(cpu, op1, "IN requires an address or address register operand") {
        Ok(a) => a,
        Err(e) => {
            return Err(e);
        },
    };
    let buffer = match read_io_input(memory, Ghost(m)) {
        Ok(b) => b,
        Err(e) => {
            return Err(e);
        },
    };
    assert(io_address(m, op1@, seq![]) == Ok::<u32, Seq<char>>(a));
    match memory.load_data(a, buffer.as_slice()) {
        Ok(()) => Ok(()),
        Err(e) => Err(e),
    }
}

/// `INSI dst` and `INSW dst`: a fixed word stored at the destination.
pub open spec fn store_input_spec(m: Machine, op1: OperandView, v: u32, bad: Seq<char>) -> Result<
    (Machine, ()),
    Seq<char>,
> {
    match io_address(m, op1, bad) {
        Err(e) => failed(e),
        Ok(a) => match write_word(m, a, v) {
            Ok(n) => done(n),
            Err(e) => failed(e),
        },
    }
}

/// Stores the input immediate: `INSI [addr]|[reg]`.
pub fn execute_insi(cpu: &mut CPU, op1: &Operand, op2: &Operand, memory: &mut WorkMemory) -> (r:
    Result<(), String>)
    requires
        old(memory).wf(),
    ensures
        executed(
            *old(cpu),
            *old(memory),
            *final(cpu),
            *final(memory),
            r,
            store_input_spec(
                machine(*old(cpu), *old(memory)),
                op1@,
                INSI_VALUE,
                "INSI requires an address or address register operand"@,
            ),
        ),
{
    let a = match read_io_address(cpu, op1, "INSI requires an address or address register operand") {
        Ok(a) => a,
        Err(e) => {
            return Err(e);
        },
    };
    store_word(cpu, memory, a, INSI_VALUE)
}

/// Stores the input word: `INSW [addr]|[reg]`.
pub fn execute_insw(cpu: &mut CPU, op1: &Operand, op2: &Operand, memory: &mut WorkMemory) -> (r:
    Result<(), String>)
    requires
        old(memory).wf(),
    ensures
        executed(
            *old(cpu),
            *old(memory),
            *final(cpu),
            *final(memory),
            r,
            store_input_spec(
                machine(*old(cpu), *old(memory)),
                op1@,
                INSW_VALUE,
                "INSW requires an address or address register operand"@,
            ),
        ),
{
    let a = match read_io_address(cpu, op1, "INSW requires an address or address register operand") {
        Ok(a) => a,
        Err(e) => {
            return Err(e);
        },
    };
    store_word(cpu, memory, a, INSW_VALUE)
}

/// `OUTI imm`: the immediate to output.
pub open spec fn outi_spec(m: Machine, op1: OperandView) -> Result<(Machine, u32), Seq<char>> {
    match op1 {
        OperandView::Immediate(i) => Ok((m, i)),
        _ => Err("OUTI requires an immediate operand"@),
    }
}

/// Gives the immediate to output: `OUTI imm`.
pub fn execute_outi(cpu: &mut CPU, op1: &Operand, op2: &Operand, memory: &mut WorkMemory) -> (r:
    Result<u32, String>)
    requires
        old(memory).wf(),
    ensures
        executed(
            *old(cpu),
            *old(memory),
            *final(cpu),
            *final(memory),
            r,
            outi_spec(machine(*old(cpu), *old(memory)), op1@),
        ),
{
    match op1 {
        Operand::Immediate(i) => Ok(*i),
        _ => Err(string_from_str("OUTI requires an immediate operand")),
    }
}

/// `OUTW src`: the word at the source to output.
pub open spec fn outw_spec(m: Machine, op1: OperandView) -> Result<(Machine, u32), Seq<char>> {
    match io_address(m, op1, "OUTW requires an address or address register operand"@) {
        Err(e) => Err(e),
        Ok(a) => match read_word(m, a) {
            Ok(w) => Ok((m, w)),
            Err(e) => Err(e),
        },
    }
}

/// Gives the word to output: `OUTW [addr]|[reg]`.
pub fn execute_outw(cpu: &mut CPU, op1: &Operand, op2: &Operand, memory: &mut WorkMemory) -> (r:
    Result<u32, String>)
    requires
        old(memory).wf(),
    ensures
        executed(
            *old(cpu),
            *old(memory),
            *final(cpu),
            *final(memory),
            r,
            outw_spec(machine(*old(cpu), *old(memory)), op1@),
        ),
{
    let a = match read_io_address(cpu, op1, "OUTW requires an address or address register operand") {
        Ok(a) => a,
        Err(e) => {
            return Err(e);
        },
    };
    load_word(cpu, memory, a)
}

/// The text at address `a` up to its zero byte, or the error for a byte
/// past the end of memory; `None` when the text runs past `u32::MAX`, which
/// stops the program.
pub open spec fn text_at(m: Machine, a: int) -> Option<Result<Seq<u8>, Seq<char>>>
    decreases 0x1_0000_0000 - a,
{
    if a < 0 || a > u32::MAX {
        None
    } else {
        match read_byte(m, a as u32) {
            Err(e) => Some(Err(e)),
            Ok(b) => if b == 0 {
                Some(Ok(seq![]))
            } else if a == u32::MAX {
                None
            } else {
                match text_at(m, a + 1) {
                    Some(Ok(rest)) => Some(Ok(seq![b] + rest)),
                    other => other,
                }
            },
        }
    }
}

/// `OUT src`: the zero-terminated text at the source to output.
pub open spec fn out_spec(m: Machine, op1: OperandView) -> Result<(Machine, Seq<u8>), Seq<char>> {
    match io_address(m, op1, "OUT requires an address or address register operand"@) {
        Err(e) => Err(e),
        Ok(a) => match text_at(m, a as int) {
            Some(Ok(t)) => Ok((m, t)),
            Some(Err(e)) => Err(e),
            None => Err(seq![]),
        },
    }
}

/// Whether `OUT` would read past address `u32::MAX`, which stops the
/// program.
pub open spec fn out_stops(m: Machine, op1: OperandView) -> bool {
    match io_address(m, op1, seq![]) {
        Err(_) => false,
        Ok(a) => text_at(m, a as int) is None,
    }
}

/// In a memory below 4 GiB every text ends, at its zero byte or at the
/// end of memory, before address `u32::MAX`.
pub proof fn lemma_text_ends(m: Machine, a: int)
    requires
        m.size <= u32::MAX,
        0 <= a <= u32::MAX,
    ensures
        text_at(m, a) is Some,
    decreases 0x1_0000_0000 - a,
{
    if a < m.size && m.mem[a] != 0 {
        lemma_text_ends(m, a + 1);
    }
}

/// In a memory below 4 GiB neither `IN` nor `OUT` stops the program.
pub proof fn lemma_io_never_stops(m: Machine, op1: OperandView)
    requires
        m.size <= u32::MAX,
    ensures
        !in_stops(m, op1),
        !out_stops(m, op1),
{
    if let Ok(a) = io_address(m, op1, seq![]) {
        lemma_text_ends(m, a as int);
    }
}

/// Gives the zero-terminated text to output: `OUT [addr]|[reg]`.
pub fn execute_out(cpu: &mut CPU, op1: &Operand, op2: &Operand, memory: &mut WorkMemory) -> (r:
    Result<Vec<u8>, String>)
    requires
        old(memory).wf(),
        !out_stops(machine(*old(cpu), *old(memory)), op1@),
    ensures
        final(memory).wf(),
        final(memory).size == old(memory).size,
        final(memory).stack_pointer == old(memory).stack_pointer,
        machine(*final(cpu), *final(memory)) == machine(*old(cpu), *old(memory)),
        match out_spec(machine(*old(cpu), *old(memory)), op1@) {
            Ok((_, t)) => r matches Ok(v) && v@ == t,
            Err(e) => r matches Err(msg) && msg@ == e,
        },
{
    let ghost m = machine(*cpu, *memory);
    let a = match read_io_address(cpu, op1, "OUT requires an address or address register operand") {
        Ok(a) => a,
        Err(e) => {
            return Err(e);
        },
    };
    assert(io_address(m, op1@, seq![]) == Ok::<u32, Seq<char>>(a));
    let mut out: Vec<u8> = Vec::new();
    let mut cur: u32 = a;
    loop
        invariant
            memory.wf(),
            m == machine(*cpu, *memory),
            m == machine(*old(cpu), *old(memory)),
            io_address(m, op1@, "OUT requires an address or address register operand"@) == Ok::<
                u32,
                Seq<char>,
            >(a),
            text_at(m, a as int) == match text_at(m, cur as int) {
                Some(Ok(rest)) => Some(Ok(out@ + rest)),
                other => other,
            },
            text_at(m, a as int) is Some,
        decreases u32::MAX - cur,
    {
        let b = match memory.read_u8(cur) {
            Ok(b) => b,
            Err(e) => {
                return Err(e);
            },
        };
        if b == 0 {
            assert(out@ + seq![] =~= out@);
            return Ok(out);
        }
        proof {
            match text_at(m, cur + 1) {
                Some(Ok(rest)) => {
                    assert(out@ + (seq![b] + rest) =~= out@.push(b) + rest);
                },
                _ => {},
            }
        }
        out.push(b);
        cur = cur + 1;
    }
}

} // verus!
