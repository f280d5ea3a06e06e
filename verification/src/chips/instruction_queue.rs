//! A queue of decoded instructions with a cursor.

use vstd::prelude::*;
use crate::utils::assembler::operands::Operand;

verus! {

/// An instruction with its operands and its address.
#[derive(Debug)]
pub struct Instruction {
    /// The mnemonic.
    pub opcode: String,
    /// The first operand, if any.
    pub operand1: Option<Operand>,
    /// The second operand, if any.
    pub operand2: Option<Operand>,
    /// The address of the instruction.
    pub address: u32,
}

/// A list of instructions and the index of the next one to hand out.
#[derive(Debug)]
pub struct InstructionQueue {
    /// The instructions in order.
    pub queue: Vec<Instruction>,
    /// The index of the next instruction `get_next` gives.
    pub current_index: usize,
}

impl InstructionQueue {
    /// An empty queue.
    pub fn new() -> (q: Self)
        ensures
            q.queue@ == Seq::<Instruction>::empty(),
            q.current_index == 0,
    {
        Self { queue: Vec::new(), current_index: 0 }
    }

    /// Empties the queue and rewinds it.
    pub fn clear(&mut self)
        ensures
            final(self).queue@ == Seq::<Instruction>::empty(),
            final(self).current_index == 0,
    {
        self.queue.clear();
        self.current_index = 0;
    }

    /// The number of instructions.
    pub fn len(&self) -> (r: usize)
        ensures
            r == self.queue@.len(),
    {
        self.queue.len()
    }

    /// Whether the queue holds no instruction.
    pub fn is_empty(&self) -> (r: bool)
        ensures
            r == (self.queue@.len() == 0),
    {
        self.queue.is_empty()
    }

    /// Appends an instruction.
    pub fn push(&mut self, instruction: Instruction)
        ensures
            final(self).queue@ == old(self).queue@.push(instruction),
            final(self).current_index == old(self).current_index,
    {
        self.queue.push(instruction);
    }

    /// The instruction at `index`, if there is one.
    pub fn get(&self, index: usize) -> (r: Option<&Instruction>)
        ensures
            index < self.queue@.len() ==> r == Some(&self.queue@[index as int]),
            index >= self.queue@.len() ==> r is None,
    {
        if index < self.queue.len() {
            Some(&self.queue[index])
        } else {
            None
        }
    }

    /// The instruction at the cursor, moving the cursor past it; `None` at
    /// the end.
    pub fn get_next(&mut self) -> (r: Option<&Instruction>)
        ensures
            final(self).queue@ == old(self).queue@,
            old(self).current_index < old(self).queue@.len() ==> r == Some(
                &old(self).queue@[old(self).current_index as int],
            ) && final(self).current_index == old(self).current_index + 1,
            old(self).current_index >= old(self).queue@.len() ==> r is None
                && final(self).current_index == old(self).current_index,
    {
        if self.current_index < self.queue.len() {
            let i = self.current_index;
            self.current_index = i + 1;
            Some(&self.queue[i])
        } else {
            None
        }
    }

    /// Rewinds the cursor to the first instruction.
    pub fn reset(&mut self)
        ensures
            final(self).queue@ == old(self).queue@,
            final(self).current_index == 0,
    {
        self.current_index = 0;
    }
}

} // verus!
