//! Unique vehicle identifiers.
use vstd::prelude::*;

verus! {

/// Hands out identifiers 0, 1, 2, ... in order.
pub struct IdProvider {
    last_id: u64,
}

impl View for IdProvider {
    type V = u64;

    /// The identifier that the next call of `next` returns.
    closed spec fn view(&self) -> u64 {
        self.last_id
    }
}

impl IdProvider {
    pub fn new() -> (r: IdProvider)
        ensures
            r@ == 0,
    {
        IdProvider { last_id: 0 }
    }

    /// A fresh identifier: each call returns one more than the call before.
    pub fn next(&mut self) -> (r: u64)
        requires
            old(self)@ < u64::MAX,
        ensures
            r == old(self)@,
            final(self)@ == old(self)@ + 1,
    {
        let next_id = self.last_id;
        self.last_id = self.last_id + 1;
        next_id
    }
}

} // verus!
