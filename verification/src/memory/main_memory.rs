//! The main memory of the ARC CPU: a byte array with little-endian 16- and
//! 32-bit access, program and data loading, and a stack pointer.

use vstd::prelude::*;
use crate::text::{err_is, hex_text, push_hex, push_str, string_from_str};

verus! {

/// Default memory size if not specified (64KB).
pub const DEFAULT_MEMORY_SIZE: usize = 0x10000;

/// The simulated main memory of the ARC CPU.
#[derive(Debug, Clone)]
pub struct WorkMemory {
    /// The bytes of the memory.
    pub memory: Vec<u8>,
    /// The total size of the memory in bytes.
    pub size: usize,
    /// The current value of the stack pointer.
    pub stack_pointer: u32,
}

/// The value of two bytes read little-endian.
pub open spec fn le16(b0: u8, b1: u8) -> u16 {
    (b0 + b1 * 256) as u16
}

/// The value of four bytes read little-endian.
pub open spec fn le32(b0: u8, b1: u8, b2: u8, b3: u8) -> u32 {
    (b0 + b1 * 0x100 + b2 * 0x1_0000 + b3 * 0x100_0000) as u32
}

/// Byte `k` (0 = least significant) of a 32-bit value.
pub open spec fn byte_of(v: u32, k: u32) -> u8 {
    ((v >> (8 * k)) & 0xff) as u8
}

/// The little-endian bytes of a 16-bit value.
pub open spec fn u16_bytes(v: u16) -> Seq<u8> {
    seq![(v & 0xff) as u8, (v >> 8) as u8]
}

/// The little-endian bytes of a 32-bit value.
pub open spec fn u32_bytes(v: u32) -> Seq<u8> {
    seq![byte_of(v, 0), byte_of(v, 1), byte_of(v, 2), byte_of(v, 3)]
}

/// `m` with `bytes` written from address `a` on.
pub open spec fn write_bytes(m: Seq<u8>, a: int, bytes: Seq<u8>) -> Seq<u8> {
    Seq::new(m.len(), |i: int| if a <= i < a + bytes.len() { bytes[i - a] } else { m[i] })
}

/// The 16-bit value stored little-endian at `a`.
pub open spec fn read16(m: Seq<u8>, a: int) -> u16 {
    le16(m[a], m[a + 1])
}

/// The 32-bit value stored little-endian at `a`.
pub open spec fn read32(m: Seq<u8>, a: int) -> u32 {
    le32(m[a], m[a + 1], m[a + 2], m[a + 3])
}

/// `m` with the words of `program` stored from `start` on, four bytes each.
pub open spec fn load_words(m: Seq<u8>, start: int, program: Seq<u32>) -> Seq<u8>
    decreases program.len(),
{
    if program.len() == 0 {
        m
    } else {
        write_bytes(
            load_words(m, start, program.drop_last()),
            start + (program.len() - 1) * 4,
            u32_bytes(program.last()),
        )
    }
}

/// The error text for an address out of bounds.
pub open spec fn out_of_bounds_text(kind: Seq<char>, address: u32) -> Seq<char> {
    "Memory "@ + kind + " error: Address 0x"@ + hex_text(address as nat, 8, false)
        + " out of bounds"@
}

/// The words of a display block: each address `start + 4 * i` for `i` below
/// `count` whose four bytes lie in memory, with the word stored there.
pub open spec fn memory_block(m: Seq<u8>, size: int, start: int, count: nat) -> Seq<(u32, u32)>
    decreases count,
{
    if count == 0 {
        seq![]
    } else {
        let prev = memory_block(m, size, start, (count - 1) as nat);
        let addr = start + (count - 1) * 4;
        if addr + 3 < size {
            prev.push((addr as u32, read32(m, addr)))
        } else {
            prev
        }
    }
}

/// The number of pages of `page_size` bytes that cover `size` bytes.
pub open spec fn pages_for(size: nat, page_size: nat) -> nat {
    if page_size == 0 {
        0
    } else {
        size / page_size + if size % page_size != 0 {
            1nat
        } else {
            0nat
        }
    }
}

/// The bytes of `v`, little-endian, read back give `v`.
pub proof fn lemma_le32_bytes(v: u32)
    ensures
        le32(byte_of(v, 0), byte_of(v, 1), byte_of(v, 2), byte_of(v, 3)) == v,
{
    assert(le32(byte_of(v, 0), byte_of(v, 1), byte_of(v, 2), byte_of(v, 3)) == v) by (bit_vector);
}

/// The bytes of `v`, little-endian, read back give `v`.
pub proof fn lemma_le16_bytes(v: u16)
    ensures
        le16((v & 0xff) as u8, (v >> 8) as u8) == v,
{
    assert(le16((v & 0xff) as u8, (v >> 8) as u8) == v) by (bit_vector);
}

impl WorkMemory {
    /// Whether the byte vector has the recorded size.
    pub open spec fn wf(&self) -> bool {
        self.memory@.len() == self.size
    }

    /// Creates a memory of `size` bytes, all 0, with the stack pointer at the
    /// last byte.
    pub fn new(size: usize) -> (m: Self)
        requires
            size > 0,
        ensures
            m.wf(),
            m.size == size,
            m.memory@ == Seq::new(size as nat, |i: int| 0u8),
            m.stack_pointer == (size - 1) as u32,
    {
        let memory = vec![0u8; size];
        WorkMemory { memory, size, stack_pointer: (size - 1) as u32 }
    }

    /// Builds the out-of-bounds error text.
    fn out_of_bounds(kind: &str, address: u32) -> (e: String)
        ensures
            e@ == out_of_bounds_text(kind@, address),
    {
        let mut e = string_from_str("Memory ");
        push_str(&mut e, kind);
        push_str(&mut e, " error: Address 0x");
        push_hex(&mut e, address as u64, 8, false);
        push_str(&mut e, " out of bounds");
        assert(e@ =~= out_of_bounds_text(kind@, address));
        e
    }

    /// Reads the byte at `address`.
    pub fn read_u8(&self, address: u32) -> (r: Result<u8, String>)
        requires
            self.wf(),
        ensures
            address < self.size ==> r == Ok::<u8, String>(self.memory@[address as int]),
            address >= self.size ==> err_is(r, out_of_bounds_text("read"@, address)),
    {
        if address as usize >= self.size {
            return Err(Self::out_of_bounds("read", address));
        }
        Ok(self.memory[address as usize])
    }

    /// Writes the byte `value` at `address`.
    pub fn write_u8(&mut self, address: u32, value: u8) -> (r: Result<(), String>)
        requires
            old(self).wf(),
        ensures
            final(self).wf(),
            final(self).size == old(self).size,
            final(self).stack_pointer == old(self).stack_pointer,
            address < old(self).size ==> r is Ok && final(self).memory@ == old(self).memory@.update(
                address as int,
                value,
            ),
            address >= old(self).size ==> err_is(r, out_of_bounds_text("write"@, address)) && final(self).memory@ == old(self).memory@,
    {
        if address as usize >= self.size {
            return Err(Self::out_of_bounds("write", address));
        }
        self.memory.set(address as usize, value);
        Ok(())
    }

    /// Reads the 16-bit value stored little-endian at `address`.
    pub fn read_u16(&self, address: u32) -> (r: Result<u16, String>)
        requires
            self.wf(),
        ensures
            address + 1 < self.size ==> r == Ok::<u16, String>(
                read16(self.memory@, address as int),
            ),
            address + 1 >= self.size ==> err_is(r, out_of_bounds_text("read"@, address)),
    {
        if address as u64 + 1 >= self.size as u64 {
            return Err(Self::out_of_bounds("read", address));
        }
        let a = address as usize;
        let b0 = self.memory[a];
        let b1 = self.memory[a + 1];
        Ok(b0 as u16 + (b1 as u16) * 256)
    }

    /// Writes `value` little-endian at `address`.
    pub fn write_u16(&mut self, address: u32, value: u16) -> (r: Result<(), String>)
        requires
            old(self).wf(),
        ensures
            final(self).wf(),
            final(self).size == old(self).size,
            final(self).stack_pointer == old(self).stack_pointer,
            address + 1 < old(self).size ==> r is Ok && final(self).memory@ == write_bytes(
                old(self).memory@,
                address as int,
                u16_bytes(value),
            ),
            address + 1 >= old(self).size ==> err_is(r, out_of_bounds_text("write"@, address)) && final(self).memory@ == old(self).memory@,
    {
        if address as u64 + 1 >= self.size as u64 {
            return Err(Self::out_of_bounds("write", address));
        }
        let a = address as usize;
        self.memory.set(a, (value & 0xff) as u8);
        self.memory.set(a + 1, (value >> 8) as u8);
        assert(self.memory@ =~= write_bytes(old(self).memory@, address as int, u16_bytes(value)));
        Ok(())
    }

    /// Reads the 32-bit value stored little-endian at `address`.
    pub fn read_u32(&self, address: u32) -> (r: Result<u32, String>)
        requires
            self.wf(),
        ensures
            address + 3 < self.size ==> r == Ok::<u32, String>(
                read32(self.memory@, address as int),
            ),
            address + 3 >= self.size ==> err_is(r, out_of_bounds_text("read"@, address)),
    {
        if address as u64 + 3 >= self.size as u64 {
            return Err(Self::out_of_bounds("read", address));
        }
        let a = address as usize;
        let b0 = self.memory[a];
        let b1 = self.memory[a + 1];
        let b2 = self.memory[a + 2];
        let b3 = self.memory[a + 3];
        Ok(b0 as u32 + (b1 as u32) * 0x100 + (b2 as u32) * 0x1_0000 + (b3 as u32) * 0x100_0000)
    }

    /// Writes `value` little-endian at `address`.
    pub fn write_u32(&mut self, address: u32, value: u32) -> (r: Result<(), String>)
        requires
            old(self).wf(),
        ensures
            final(self).wf(),
            final(self).size == old(self).size,
            final(self).stack_pointer == old(self).stack_pointer,
            address + 3 < old(self).size ==> r is Ok && final(self).memory@ == write_bytes(
                old(self).memory@,
                address as int,
                u32_bytes(value),
            ),
            address + 3 < old(self).size ==> read32(final(self).memory@, address as int) == value,
            address + 3 < old(self).size ==> forall|b: int|
                0 <= b < old(self).size && (b < address || b > address + 3)
                    ==> #[trigger] final(self).memory@[b] == old(self).memory@[b],
            address + 3 >= old(self).size ==> err_is(r, out_of_bounds_text("write"@, address)) && final(self).memory@ == old(self).memory@,
    {
        if address as u64 + 3 >= self.size as u64 {
            return Err(Self::out_of_bounds("write", address));
        }
        let a = address as usize;
        self.memory.set(a, (value & 0xff) as u8);
        self.memory.set(a + 1, ((value >> 8) & 0xff) as u8);
        self.memory.set(a + 2, ((value >> 16) & 0xff) as u8);
        self.memory.set(a + 3, ((value >> 24) & 0xff) as u8);
        proof {
            assert(byte_of(value, 0) == (value & 0xff) as u8) by (bit_vector);
            assert(byte_of(value, 1) == ((value >> 8) & 0xff) as u8) by (bit_vector);
            assert(byte_of(value, 2) == ((value >> 16) & 0xff) as u8) by (bit_vector);
            assert(byte_of(value, 3) == ((value >> 24) & 0xff) as u8) by (bit_vector);
        }
        assert(self.memory@ =~= write_bytes(old(self).memory@, address as int, u32_bytes(value)));
        proof {
            law_read32_after_write32(old(self).memory@, address as int, value, 0);
        }
        Ok(())
    }

    /// The current value of the stack pointer.
    pub fn get_stack_pointer(&self) -> (r: u32)
        ensures
            r == self.stack_pointer,
    {
        self.stack_pointer
    }

    /// Sets the stack pointer.
    pub fn set_stack_pointer(&mut self, value: u32)
        ensures
            *final(self) == (WorkMemory { stack_pointer: value, ..*old(self) }),
    {
        self.stack_pointer = value;
    }

    /// Loads a program of 32-bit words into memory from `start_address` on.
    pub fn load_program(&mut self, start_address: u32, program: &[u32]) -> (r: Result<(), String>)
        requires
            old(self).wf(),
            start_address + program@.len() * 4 <= old(self).size ==> start_address
                + program@.len() * 4 <= 0x1_0000_0000,
        ensures
            final(self).wf(),
            final(self).size == old(self).size,
            final(self).stack_pointer == old(self).stack_pointer,
            start_address + program@.len() * 4 <= old(self).size ==> r is Ok
                && final(self).memory@ == load_words(old(self).memory@, start_address as int, program@),
            start_address + program@.len() * 4 <= old(self).size ==> forall|i: int|
                0 <= i < program@.len() ==> #[trigger] read32(
                    final(self).memory@,
                    start_address + 4 * i,
                ) == program@[i],
            start_address + program@.len() * 4 <= old(self).size ==> forall|b: int|
                0 <= b < old(self).size && (b < start_address || b >= start_address
                    + program@.len() * 4) ==> #[trigger] final(self).memory@[b]
                    == old(self).memory@[b],
            start_address + program@.len() * 4 > old(self).size ==> err_is(r, "Program too large for memory"@) && final(self).memory@ == old(self).memory@,
    {
        if start_address as u128 + program.len() as u128 * 4 > self.size as u128 {
            return Err(string_from_str("Program too large for memory"));
        }
        let ghost m0 = self.memory@;
        let mut i: usize = 0;
        while i < program.len()
            invariant
                i <= program@.len(),
                start_address + program@.len() * 4 <= self.size,
                start_address + program@.len() * 4 <= 0x1_0000_0000,
                self.wf(),
                self.size == old(self).size,
                self.stack_pointer == old(self).stack_pointer,
                self.memory@ == load_words(m0, start_address as int, program@.take(i as int)),
            decreases program.len() - i,
        {
            let addr: u32 = start_address + (i as u32) * 4;
            let r = self.write_u32(addr, program[i]);
            assert(r is Ok);
            proof {
                let p = program@.take(i + 1);
                assert(p.drop_last() =~= program@.take(i as int));
                assert(p.last() == program@[i as int]);
            }
            i = i + 1;
        }
        assert(program@.take(program.len() as int) =~= program@);
        proof {
            assert forall|i: int| 0 <= i < program@.len() implies #[trigger] read32(
                self.memory@,
                start_address + 4 * i,
            ) == program@[i] by {
                law_load_program_reads_back(m0, start_address as int, program@, i);
            }
            assert forall|b: int|
                0 <= b < old(self).size && (b < start_address || b >= start_address
                    + program@.len() * 4) implies #[trigger] self.memory@[b] == m0[b] by {
                lemma_load_words_outside(m0, start_address as int, program@, b);
            }
        }
        Ok(())
    }

    /// Loads bytes into memory from `start_address` on.
    pub fn load_data(&mut self, start_address: u32, data: &[u8]) -> (r: Result<(), String>)
        requires
            old(self).wf(),
            start_address + data@.len() <= old(self).size ==> start_address + data@.len()
                <= 0x1_0000_0000,
        ensures
            final(self).wf(),
            final(self).size == old(self).size,
            final(self).stack_pointer == old(self).stack_pointer,
            start_address + data@.len() <= old(self).size ==> r is Ok && final(self).memory@
                == write_bytes(old(self).memory@, start_address as int, data@),
            start_address + data@.len() > old(self).size ==> err_is(r, "Data too large for memory"@) && final(self).memory@ == old(self).memory@,
    {
        if start_address as u128 + data.len() as u128 > self.size as u128 {
            return Err(string_from_str("Data too large for memory"));
        }
        let ghost m0 = self.memory@;
        let mut i: usize = 0;
        while i < data.len()
            invariant
                i <= data@.len(),
                start_address + data@.len() <= self.size,
                start_address + data@.len() <= 0x1_0000_0000,
                self.wf(),
                self.size == old(self).size,
                self.stack_pointer == old(self).stack_pointer,
                self.memory@ == write_bytes(m0, start_address as int, data@.take(i as int)),
            decreases data.len() - i,
        {
            let addr: u32 = start_address + i as u32;
            let r = self.write_u8(addr, data[i]);
            assert(r is Ok);
            assert(self.memory@ =~= write_bytes(m0, start_address as int, data@.take(i + 1)));
            i = i + 1;
        }
        assert(data@.take(data.len() as int) =~= data@);
        Ok(())
    }

    /// Reads the 32-bit instruction at `address`.
    pub fn read_instruction(&self, address: u32) -> (r: Result<u32, String>)
        requires
            self.wf(),
        ensures
            address + 3 < self.size ==> r == Ok::<u32, String>(
                read32(self.memory@, address as int),
            ),
            address + 3 >= self.size ==> err_is(r, out_of_bounds_text("read"@, address)),
    {
        self.read_u32(address)
    }

    /// The number of pages of `page_size` bytes needed to show the whole
    /// memory; 0 when `page_size` is 0.
    pub fn get_num_pages(&self, page_size: usize) -> (r: usize)
        ensures
            r == pages_for(self.size as nat, page_size as nat),
    {
        if page_size == 0 {
            return 0;
        }
        let q = self.size / page_size;
        if self.size % page_size != 0 {
            assert(q < self.size) by (nonlinear_arith)
                requires
                    page_size > 0,
                    q == self.size / page_size,
                    self.size % page_size != 0,
            ;
            q + 1
        } else {
            q
        }
    }

    /// Reads `count` words from `start_address` on for display: each address
    /// whose word lies in memory, with the word stored there.
    pub fn read_memory_block(&self, start_address: u32, count: usize) -> (r: Vec<(u32, u32)>)
        requires
            self.wf(),
            count == 0 || start_address + (count - 1) * 4 <= u32::MAX,
        ensures
            r@ == memory_block(self.memory@, self.size as int, start_address as int, count as nat),
    {
        let mut result: Vec<(u32, u32)> = Vec::new();
        let mut i: usize = 0;
        while i < count
            invariant
                i <= count,
                self.wf(),
                count == 0 || start_address + (count - 1) * 4 <= u32::MAX,
                result@ == memory_block(self.memory@, self.size as int, start_address as int, i as nat),
            decreases count - i,
        {
            let addr: u32 = start_address + (i as u32) * 4;
            if (addr as u64) + 3 < self.size as u64 {
                let v = self.read_u32(addr);
                match v {
                    Ok(value) => result.push((addr, value)),
                    Err(_) => {},
                }
            }
            i = i + 1;
        }
        result
    }
}

/// A 32-bit word written at an address reads back unchanged, and a write
/// leaves every byte outside its four bytes as it was.
pub proof fn law_read32_after_write32(m: Seq<u8>, a: int, v: u32, b: int)
    requires
        0 <= a,
        a + 3 < m.len(),
        0 <= b < m.len(),
    ensures
        read32(write_bytes(m, a, u32_bytes(v)), a) == v,
        (b < a || b > a + 3) ==> write_bytes(m, a, u32_bytes(v))[b] == m[b],
{
    lemma_le32_bytes(v);
}

/// A 16-bit word written at an address reads back unchanged.
pub proof fn law_read16_after_write16(m: Seq<u8>, a: int, v: u16)
    requires
        0 <= a,
        a + 1 < m.len(),
    ensures
        read16(write_bytes(m, a, u16_bytes(v)), a) == v,
{
    lemma_le16_bytes(v);
}

/// Two 32-bit words written at addresses four or more bytes apart do not
/// disturb each other.
pub proof fn law_write32_disjoint(m: Seq<u8>, a: int, v: u32, b: int)
    requires
        0 <= a,
        0 <= b,
        a + 3 < m.len(),
        b + 3 < m.len(),
        b + 3 < a || a + 3 < b,
    ensures
        read32(write_bytes(m, a, u32_bytes(v)), b) == read32(m, b),
{
}

/// After loading a program, the word at `start + 4 * i` is instruction `i`.
pub proof fn law_load_program_reads_back(m: Seq<u8>, start: int, program: Seq<u32>, i: int)
    requires
        0 <= start,
        start + program.len() * 4 <= m.len(),
        0 <= i < program.len(),
    ensures
        read32(load_words(m, start, program), start + 4 * i) == program[i],
        load_words(m, start, program).len() == m.len(),
    decreases program.len(),
{
    lemma_load_words_len(m, start, program);
    let p = program.drop_last();
    let last = program.len() - 1;
    lemma_load_words_len(m, start, p);
    if i == last {
        law_read32_after_write32(load_words(m, start, p), start + last * 4, program.last(), 0);
    } else {
        law_load_program_reads_back(m, start, p, i);
        law_write32_disjoint(load_words(m, start, p), start + last * 4, program.last(), start + 4 * i);
    }
}

/// Loading a program leaves every byte outside it as it was.
pub proof fn lemma_load_words_outside(m: Seq<u8>, start: int, program: Seq<u32>, b: int)
    requires
        0 <= b < m.len(),
        b < start || b >= start + program.len() * 4,
    ensures
        load_words(m, start, program)[b] == m[b],
    decreases program.len(),
{
    if program.len() > 0 {
        lemma_load_words_outside(m, start, program.drop_last(), b);
        lemma_load_words_len(m, start, program.drop_last());
    }
}

/// Loading a program keeps the memory's length.
pub proof fn lemma_load_words_len(m: Seq<u8>, start: int, program: Seq<u32>)
    ensures
        load_words(m, start, program).len() == m.len(),
    decreases program.len(),
{
    if program.len() > 0 {
        lemma_load_words_len(m, start, program.drop_last());
    }
}

// ---------------------------------------------------------------------------
// The real-mode memory
// ---------------------------------------------------------------------------

/// The number of 16-bit cells of the real-mode memory.
pub const MEMORY_MAX_SIZE: usize = 0x1_0000;

/// The real-mode memory: 64 Ki cells of 16 bits, addressed physically.
pub struct MainMemory {
    pub cells: Vec<u16>,
}

impl MainMemory {
    /// A memory with every cell at 0.
    pub fn new() -> (m: Self)
        ensures
            m.cells@ == Seq::new(MEMORY_MAX_SIZE as nat, |i: int| 0u16),
    {
        MainMemory { cells: vec![0u16; MEMORY_MAX_SIZE] }
    }

    /// Writes a cell.
    pub fn write(&mut self, adress: usize, data: u16)
        requires
            adress < old(self).cells@.len(),
        ensures
            final(self).cells@ == old(self).cells@.update(adress as int, data),
    {
        self.cells.set(adress, data);
    }

    /// Reads a cell.
    pub fn read(&mut self, adress: usize) -> (r: u16)
        requires
            adress < old(self).cells@.len(),
        ensures
            r == old(self).cells@[adress as int],
            final(self).cells@ == old(self).cells@,
    {
        self.cells[adress]
    }
}

} // verus!
