//! The identifier allocator: one counter that hands out task identifiers in
//! increasing order and never one of them twice. The counter goes back to 0
//! only when it is reset; once it has reached the largest `u32` it hands out
//! nothing more until then.

use vstd::prelude::*;

verus! {

/// Whether an allocator whose counter stands at `counter` has no identifier
/// left to hand out: the counter cannot move on from the largest `u32`.
pub open spec fn exhausted(counter: u32) -> bool {
    counter == u32::MAX
}

/// The source of task identifiers. Its view is the counter: the identifier
/// that the next allocation returns, above every identifier handed out since
/// the last reset.
#[derive(Debug)]
pub struct IdAllocator {
    counter: u32,
}

impl View for IdAllocator {
    type V = u32;

    closed spec fn view(&self) -> u32 {
        self.counter
    }
}

impl IdAllocator {
    /// An allocator whose first identifier is 0.
    pub fn new() -> (r: IdAllocator)
        ensures
            r@ == 0,
    {
        IdAllocator { counter: 0 }
    }

    /// Whether no identifier is left to hand out.
    pub fn is_exhausted(&self) -> (r: bool)
        ensures
            r == exhausted(self@),
    {
        self.counter == u32::MAX
    }

    /// Returns the current counter value, then moves the counter on by one.
    /// An exhausted allocator cannot be asked: the counter never wraps, so
    /// that no identifier comes a second time.
    pub fn next(&mut self) -> (id: u32)
        requires
            !exhausted(old(self)@),
        ensures
            id == old(self)@,
            final(self)@ == old(self)@ + 1,
    {
        let id = self.counter;
        self.counter = id + 1;
        id
    }

    /// The identifier that the next allocation will return.
    pub fn peek(&self) -> (id: u32)
        ensures
            id == self@,
    {
        self.counter
    }

    /// Sets the counter back to 0.
    pub fn reset(&mut self)
        ensures
            final(self)@ == 0,
    {
        self.counter = 0;
    }
}

} // verus!
