use vstd::prelude::*;

verus! {

/// Identifier of a backend object (a transaction, a result, an error).
pub type BackendId = usize;

/// Hands out backend identifiers in increasing order, so that no two of
/// them are ever equal.
pub struct IdGenerator {
    next: usize,
}

impl View for IdGenerator {
    type V = nat;

    /// The identifier the generator hands out next.
    closed spec fn view(&self) -> nat {
        self.next as nat
    }
}

impl IdGenerator {
    /// A generator that starts at identifier 0.
    pub fn new() -> (g: IdGenerator)
        ensures
            g@ == 0,
    {
        IdGenerator { next: 0 }
    }

    /// The identifier that `next_id` hands out next.
    pub fn peek(&self) -> (id: usize)
        ensures
            id == self@,
    {
        self.next
    }

    /// Hands out a fresh identifier: every identifier handed out before is
    /// smaller than it, every identifier handed out later greater.
    pub fn next_id(&mut self) -> (id: BackendId)
        requires
            old(self)@ < usize::MAX,
        ensures
            id == old(self)@,
            final(self)@ == old(self)@ + 1,
    {
        let id = self.next;
        self.next = self.next + 1;
        id
    }
}

} // verus!
