//! A bounded stack of return addresses.

use vstd::prelude::*;
use crate::text::string_from_str;

verus! {

/// The depth a call stack has when none is given.
pub const DEFAULT_CALL_DEPTH: usize = 256;

/// A stack of return addresses that holds at most `max_size` of them.
#[derive(Debug)]
pub struct CallStack {
    /// The addresses, the most recent last.
    pub stack: Vec<u32>,
    max_size: usize,
}

impl CallStack {
    /// The addresses on the stack, the most recent last.
    pub closed spec fn addresses(&self) -> Seq<u32> {
        self.stack@
    }

    /// The most addresses the stack holds.
    pub closed spec fn limit(&self) -> nat {
        self.max_size as nat
    }

    /// An empty stack that holds up to 256 addresses.
    pub fn new() -> (s: Self)
        ensures
            s.addresses() == Seq::<u32>::empty(),
            s.limit() == DEFAULT_CALL_DEPTH,
    {
        Self { stack: Vec::new(), max_size: DEFAULT_CALL_DEPTH }
    }

    /// An empty stack that holds up to `max_size` addresses.
    pub fn with_capacity(max_size: usize) -> (s: Self)
        ensures
            s.addresses() == Seq::<u32>::empty(),
            s.limit() == max_size,
    {
        Self { stack: Vec::with_capacity(max_size), max_size }
    }

    /// Pushes an address; an error when the stack is full.
    pub fn push(&mut self, address: u32) -> (r: Result<(), String>)
        ensures
            final(self).limit() == old(self).limit(),
            old(self).addresses().len() >= old(self).limit() ==> (r matches Err(e) && e@
                == "Call stack overflow"@) && final(self).addresses() == old(self).addresses(),
            old(self).addresses().len() < old(self).limit() ==> r is Ok && final(self).addresses() == old(
                self,
            ).addresses().push(address),
    {
        if self.stack.len() >= self.max_size {
            return Err(string_from_str("Call stack overflow"));
        }
        self.stack.push(address);
        Ok(())
    }

    /// Pops the most recent address; an error when the stack is empty.
    pub fn pop(&mut self) -> (r: Result<u32, String>)
        ensures
            final(self).limit() == old(self).limit(),
            old(self).addresses().len() == 0 ==> (r matches Err(e) && e@ == "Call stack underflow"@)
                && final(self).addresses() == old(self).addresses(),
            old(self).addresses().len() > 0 ==> r == Ok::<u32, String>(old(self).addresses().last())
                && final(self).addresses() == old(self).addresses().drop_last(),
    {
        match self.stack.pop() {
            Some(a) => Ok(a),
            None => Err(string_from_str("Call stack underflow")),
        }
    }

    /// The most recent address; an error when the stack is empty.
    pub fn peek(&self) -> (r: Result<u32, String>)
        ensures
            self.addresses().len() == 0 ==> (r matches Err(e) && e@ == "Call stack empty"@),
            self.addresses().len() > 0 ==> r == Ok::<u32, String>(self.addresses().last()),
    {
        let n = self.stack.len();
        if n == 0 {
            Err(string_from_str("Call stack empty"))
        } else {
            Ok(self.stack[n - 1])
        }
    }

    /// Empties the stack.
    pub fn clear(&mut self)
        ensures
            final(self).addresses() == Seq::<u32>::empty(),
            final(self).limit() == old(self).limit(),
    {
        self.stack.clear();
    }

    /// The number of addresses on the stack.
    pub fn depth(&self) -> (r: usize)
        ensures
            r == self.addresses().len(),
    {
        self.stack.len()
    }

    /// Whether the stack is empty.
    pub fn is_empty(&self) -> (r: bool)
        ensures
            r == (self.addresses().len() == 0),
    {
        self.stack.is_empty()
    }
}

/// The address pushed last is the one popped first, and popping it leaves
/// the stack as it was before the push.
pub proof fn law_call_stack_lifo(stack: Seq<u32>, address: u32)
    ensures
        stack.push(address).last() == address,
        stack.push(address).drop_last() == stack,
        stack.push(address).len() == stack.len() + 1,
{
    assert(stack.push(address).drop_last() =~= stack);
}

} // verus!
