//! Bounded-concurrency admission control.
//!
//! An [`AdmissionController`] holds a fixed number of permits, one per
//! allowed concurrently open connection. Acquisition is non-blocking: when no
//! permit is free the caller is told so at once and sheds the load — there is
//! no queue and no retry. A permit is an owned token; it is transferred to
//! exactly one worker and must come back exactly once, on every exit path of
//! that worker.

use vstd::prelude::*;

verus! {

/// An ownership token for one of the pool's concurrency slots.
///
/// Permits are only minted by [`AdmissionController::try_acquire`] and are
/// consumed when returned through [`AdmissionController::release`].
pub struct Permit {
    no_forge: (),
}

/// A fixed-size pool of concurrency permits with non-blocking acquisition.
pub struct AdmissionController {
    pub free: usize,
    pub capacity: usize,
}

impl AdmissionController {
    /// The pool never frees more permits than it was created with, and it is
    /// never created empty.
    pub open spec fn inv(self) -> bool {
        &&& self.free <= self.capacity
        &&& self.capacity > 0
    }

    /// The number of permits currently held by workers.
    pub open spec fn outstanding(self) -> int {
        self.capacity - self.free
    }

    /// Create a pool of `capacity` permits, all free.
    pub fn new(capacity: usize) -> (c: Self)
        requires
            capacity > 0,
        ensures
            c.free == capacity,
            c.capacity == capacity,
            c.inv(),
    {
        AdmissionController { free: capacity, capacity }
    }

    /// How many permits are free right now.
    pub fn free_permits(&self) -> (n: usize)
        ensures
            n == self.free,
    {
        self.free
    }

    /// The fixed number of permits the pool was created with.
    pub fn max_permits(&self) -> (n: usize)
        ensures
            n == self.capacity,
    {
        self.capacity
    }

    /// Grab a permit without waiting: a permit comes back exactly when one
    /// was free, and a rejection changes nothing.
    pub fn try_acquire(&mut self) -> (p: Option<Permit>)
        ensures
            final(self).capacity == old(self).capacity,
            p is Some <==> old(self).free > 0,
            old(self).free > 0 ==> final(self).free == old(self).free - 1,
            old(self).free == 0 ==> *final(self) == *old(self),
            old(self).inv() ==> final(self).inv(),
    {
        if self.free > 0 {
            self.free = self.free - 1;
            Some(Permit { no_forge: () })
        } else {
            None
        }
    }

    /// Return a permit to the pool. Each acquired permit is released exactly
    /// once, so the pool can never hold more free permits than its capacity.
    pub fn release(&mut self, permit: Permit)
        requires
            old(self).free < old(self).capacity,
        ensures
            final(self).free == old(self).free + 1,
            final(self).capacity == old(self).capacity,
            old(self).inv() ==> final(self).inv(),
    {
        let Permit { no_forge: () } = permit;
        self.free = self.free + 1;
    }
}

} // verus!
