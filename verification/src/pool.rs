//! The bounded blocking lane.
//!
//! Handlers that declare blocking work run on a fixed-size pool of execution
//! slots, sized from configuration at startup and never resized. Admission
//! is a counter against that bound: work is submitted only after a slot is
//! acquired, and the slot is released when the work completes, so the number
//! of concurrently blocked threads never exceeds the pool's capacity.

use vstd::prelude::*;

verus! {

/// Admission state of the blocking lane: how many units of work hold a slot,
/// against a fixed capacity.
pub struct WorkerPool {
    capacity: usize,
    pending: usize,
}

impl WorkerPool {
    /// The fixed number of slots.
    pub closed spec fn spec_capacity(&self) -> usize {
        self.capacity
    }

    /// How many units of work currently hold a slot.
    pub closed spec fn spec_pending(&self) -> usize {
        self.pending
    }

    /// The pool never admits more work than it has slots.
    pub open spec fn wf(&self) -> bool {
        self.spec_pending() <= self.spec_capacity()
    }

    /// A pool of `capacity` slots, all free.
    pub fn new(capacity: usize) -> (r: WorkerPool)
        requires
            capacity >= 1,
        ensures
            r.wf(),
            r.spec_capacity() == capacity,
            r.spec_pending() == 0,
    {
        WorkerPool { capacity, pending: 0 }
    }

    /// The fixed number of slots.
    pub fn capacity(&self) -> (r: usize)
        ensures
            r == self.spec_capacity(),
    {
        self.capacity
    }

    /// How many units of work currently hold a slot.
    pub fn pending(&self) -> (r: usize)
        ensures
            r == self.spec_pending(),
    {
        self.pending
    }

    /// Tries to take a slot for one unit of work. Succeeds exactly when a
    /// slot is free; a full pool is left unchanged, and the caller must wait
    /// and retry.
    pub fn try_acquire(&mut self) -> (acquired: bool)
        requires
            old(self).wf(),
        ensures
            final(self).wf(),
            final(self).spec_capacity() == old(self).spec_capacity(),
            acquired == (old(self).spec_pending() < old(self).spec_capacity()),
            acquired ==> final(self).spec_pending() == old(self).spec_pending() + 1,
            !acquired ==> final(self).spec_pending() == old(self).spec_pending(),
    {
        if self.pending < self.capacity {
            self.pending = self.pending + 1;
            true
        } else {
            false
        }
    }

    /// Gives a slot back once its unit of work has completed.
    pub fn release(&mut self)
        requires
            old(self).wf(),
            old(self).spec_pending() >= 1,
        ensures
            final(self).wf(),
            final(self).spec_capacity() == old(self).spec_capacity(),
            final(self).spec_pending() == old(self).spec_pending() - 1,
    {
        self.pending = self.pending - 1;
    }
}

} // verus!
