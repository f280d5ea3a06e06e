//! The control ROM of the protected-mode design: two slot caches, the MMU,
//! the current privilege level, and the descriptor tables.

use vstd::prelude::*;
use crate::chips::mmu::MMU;

verus! {

/// The number of slots in each cache level.
pub const CACHE_SLOTS: usize = 1024;

/// The number of entries in a descriptor table.
pub const MAX_TABLE_SIZE: usize = 0x2000;

/// The first-level cache: 1024 word slots.
pub struct L1 {
    pub slots: Vec<u32>,
}

impl L1 {
    /// A cache with every slot at 0.
    pub fn new() -> (c: Self)
        ensures
            c.slots@ == Seq::new(CACHE_SLOTS as nat, |i: int| 0u32),
    {
        L1 { slots: vec![0u32; CACHE_SLOTS] }
    }

    /// Stores a word in a slot.
    pub fn set_slot(&mut self, adress: usize, value: u32)
        requires
            adress < old(self).slots@.len(),
        ensures
            final(self).slots@ == old(self).slots@.update(adress as int, value),
    {
        self.slots.set(adress, value);
    }

    /// The word in a slot.
    pub fn get_slot(&mut self, adress: usize) -> (r: u32)
        requires
            adress < old(self).slots@.len(),
        ensures
            r == old(self).slots@[adress as int],
            final(self).slots@ == old(self).slots@,
    {
        self.slots[adress]
    }
}

/// The second-level cache: 1024 word slots.
pub struct L2 {
    pub slots: Vec<u32>,
}

impl L2 {
    /// A cache with every slot at 0.
    pub fn new() -> (c: Self)
        ensures
            c.slots@ == Seq::new(CACHE_SLOTS as nat, |i: int| 0u32),
    {
        L2 { slots: vec![0u32; CACHE_SLOTS] }
    }

    /// Stores a word in a slot.
    pub fn set_slot(&mut self, adress: usize, value: u32)
        requires
            adress < old(self).slots@.len(),
        ensures
            final(self).slots@ == old(self).slots@.update(adress as int, value),
    {
        self.slots.set(adress, value);
    }

    /// The word in a slot.
    pub fn get_slot(&mut self, adress: usize) -> (r: u32)
        requires
            adress < old(self).slots@.len(),
        ensures
            r == old(self).slots@[adress as int],
            final(self).slots@ == old(self).slots@,
    {
        self.slots[adress]
    }
}

/// The privilege levels, from the most to the least privileged.
#[derive(Clone, Copy, Debug, PartialEq, Eq, Structural)]
pub enum AcessLevel {
    KERNEL,
    SYSTEMCALL,
    SHELL,
    USER,
}

/// The control ROM: the MMU, the caches, the current privilege level and
/// whether a general protection fault was raised.
pub struct CROM {
    pub mmu: MMU,
    pub l1: L1,
    pub l2: L2,
    pub current_level_of_execution: AcessLevel,
    pub gpf: bool,
}

impl CROM {
    /// A control ROM at kernel level, with empty caches and no fault.
    pub fn new() -> (c: Self)
        ensures
            c.mmu.data() == 0 && c.mmu.address() == 0,
            c.l1.slots@ == Seq::new(CACHE_SLOTS as nat, |i: int| 0u32),
            c.l2.slots@ == Seq::new(CACHE_SLOTS as nat, |i: int| 0u32),
            c.current_level_of_execution == AcessLevel::KERNEL,
            !c.gpf,
    {
        CROM {
            mmu: MMU::new(),
            l1: L1::new(),
            l2: L2::new(),
            current_level_of_execution: AcessLevel::KERNEL,
            gpf: false,
        }
    }
}

/// An entry of a descriptor table: a segment's selector, base, limit and
/// privilege level.
#[derive(Clone, Copy, Debug)]
pub struct DTEntry {
    pub selector: &'static str,
    pub base: u32,
    pub limit: u32,
    pub acess_level: AcessLevel,
}

/// A descriptor table.
pub struct DTable {
    pub name: &'static str,
    pub content: Vec<DTEntry>,
    pub capacity: u16,
}

/// Whether an entry is the null descriptor: selector `NULL`, base and
/// limit 0, user level.
pub open spec fn null_entry(e: DTEntry) -> bool {
    e.selector@ == "NULL"@ && e.base == 0 && e.limit == 0 && e.acess_level == AcessLevel::USER
}

impl DTable {
    /// A table of 0x2000 null descriptors.
    pub fn new(table_name: &'static str) -> (t: DTable)
        ensures
            t.name == table_name,
            t.content@.len() == MAX_TABLE_SIZE,
            forall|i: int| 0 <= i < MAX_TABLE_SIZE ==> null_entry(#[trigger] t.content@[i]),
            t.capacity == 0,
    {
        let null = DTEntry { selector: "NULL", base: 0, limit: 0, acess_level: AcessLevel::USER };
        DTable { name: table_name, content: vec![null; MAX_TABLE_SIZE], capacity: 0 }
    }
}

/// The global descriptor table: a kernel code segment `CS` covering the
/// first 64 KiB, then null descriptors.
pub fn generate_gdt() -> (t: DTable)
    ensures
        t.name@ == "GLOBAL_D_TABLE"@,
        t.content@.len() == MAX_TABLE_SIZE,
        t.content@[0].selector@ == "CS"@,
        t.content@[0].base == 0,
        t.content@[0].limit == 0xFFFF,
        t.content@[0].acess_level == AcessLevel::KERNEL,
        forall|i: int| 1 <= i < MAX_TABLE_SIZE ==> null_entry(#[trigger] t.content@[i]),
        t.capacity == 0,
{
    let mut gd_table = DTable::new("GLOBAL_D_TABLE");
    gd_table.content.set(
        0,
        DTEntry { selector: "CS", base: 0, limit: 0xFFFF, acess_level: AcessLevel::KERNEL },
    );
    gd_table
}

/// The interrupt descriptor table: null descriptors.
pub fn generate_idt() -> (t: DTable)
    ensures
        t.name@ == "INTERRUPT_D_TABLE"@,
        t.content@.len() == MAX_TABLE_SIZE,
        forall|i: int| 0 <= i < MAX_TABLE_SIZE ==> null_entry(#[trigger] t.content@[i]),
        t.capacity == 0,
{
    DTable::new("INTERRUPT_D_TABLE")
}

/// The local descriptor table: null descriptors.
pub fn generate_ldt() -> (t: DTable)
    ensures
        t.name@ == "LOCAL_D_TABLE"@,
        t.content@.len() == MAX_TABLE_SIZE,
        forall|i: int| 0 <= i < MAX_TABLE_SIZE ==> null_entry(#[trigger] t.content@[i]),
        t.capacity == 0,
{
    DTable::new("LOCAL_D_TABLE")
}

} // verus!
