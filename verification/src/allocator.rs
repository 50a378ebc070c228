//! Identifier allocation.

use vstd::prelude::*;

verus! {

/// Hands out identifiers `0, 1, 2, ...`, each once.
pub struct IdAllocator {
    next: u64,
}

impl View for IdAllocator {
    type V = u64;

    /// The identifier that will be handed out next.
    closed spec fn view(&self) -> u64 {
        self.next
    }
}

impl IdAllocator {
    /// An allocator that has handed out nothing yet.
    pub fn new() -> (allocator: IdAllocator)
        ensures
            allocator@ == 0,
    {
        IdAllocator { next: 0 }
    }

    /// An allocator that continues at `next`, for a ledger that already
    /// holds the identifiers below it.
    pub fn resume(next: u64) -> (allocator: IdAllocator)
        ensures
            allocator@ == next,
    {
        IdAllocator { next }
    }

    /// The identifier that `next` would return.
    pub fn peek(&self) -> (id: u64)
        ensures
            id == self@,
    {
        self.next
    }

    /// Returns the current identifier and moves on to the one after it.
    pub fn next(&mut self) -> (id: u64)
        requires
            old(self)@ < u64::MAX,
        ensures
            id == old(self)@,
            final(self)@ == old(self)@ + 1,
    {
        let id = self.next;
        self.next = id + 1;
        id
    }

    /// Returns the current identifier and moves on, or `None` where every
    /// identifier has been handed out.
    pub fn try_next(&mut self) -> (id: Option<u64>)
        ensures
            id is Some <==> old(self)@ < u64::MAX,
            id is Some ==> id->0 == old(self)@ && final(self)@ == old(self)@ + 1,
            id is None ==> final(self)@ == old(self)@,
    {
        if self.next == u64::MAX {
            None
        } else {
            Some(self.next())
        }
    }
}

} // verus!
