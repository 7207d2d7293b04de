//! The concurrency limiter that bounds simultaneous in-flight HTTP calls:
//! a fixed pool of permits, one held per call, released unconditionally on
//! every exit path. This is the verified accounting model; the runtime's
//! suspension on an exhausted pool is the embedding loop's concern.

use vstd::prelude::*;

verus! {

/// A fixed-size pool of concurrency permits.
pub struct Limiter {
    capacity: usize,
    available: usize,
}

impl Limiter {
    /// Well-formedness: no more permits outstanding than the pool holds.
    pub closed spec fn wf(&self) -> bool {
        self.available <= self.capacity
    }

    /// The size of the pool.
    pub closed spec fn spec_capacity(&self) -> int {
        self.capacity as int
    }

    /// How many permits are currently held: calls in flight.
    pub closed spec fn in_flight(&self) -> int {
        self.capacity - self.available
    }

    /// A fresh pool with every permit free.
    pub fn new(capacity: usize) -> (r: Limiter)
        ensures
            r.wf(),
            r.spec_capacity() == capacity,
            r.in_flight() == 0,
    {
        Limiter { capacity, available: capacity }
    }

    /// The size of the pool.
    pub fn capacity(&self) -> (r: usize)
        ensures
            r == self.spec_capacity(),
    {
        self.capacity
    }

    /// Takes a permit when one is free. A full pool never hands out a
    /// permit, so the in-flight count can never pass the capacity.
    pub fn try_acquire(&mut self) -> (r: bool)
        requires
            old(self).wf(),
        ensures
            final(self).wf(),
            final(self).spec_capacity() == old(self).spec_capacity(),
            r <==> old(self).in_flight() < old(self).spec_capacity(),
            r ==> final(self).in_flight() == old(self).in_flight() + 1,
            !r ==> *final(self) == *old(self),
            final(self).in_flight() <= final(self).spec_capacity(),
    {
        if self.available > 0 {
            self.available = self.available - 1;
            true
        } else {
            false
        }
    }

    /// Returns a permit to the pool; called on every exit path of a
    /// dispatched call, success or error.
    pub fn release(&mut self)
        requires
            old(self).wf(),
            old(self).in_flight() > 0,
        ensures
            final(self).wf(),
            final(self).spec_capacity() == old(self).spec_capacity(),
            final(self).in_flight() == old(self).in_flight() - 1,
    {
        self.available = self.available + 1;
    }
}

/// The accounting stays in bounds: a well-formed pool never reports a
/// negative in-flight count, nor one above its capacity.
pub proof fn lemma_limiter_bounds(l: Limiter)
    requires
        l.wf(),
    ensures
        0 <= l.in_flight() <= l.spec_capacity(),
{
}

/// Permit accounting balances: an acquired permit, once released, leaves
/// the pool exactly as it was, whatever happened to the call in between.
pub proof fn lemma_permit_balance(l0: Limiter, l1: Limiter, l2: Limiter)
    requires
        l0.wf(),
        l1.spec_capacity() == l0.spec_capacity(),
        l1.in_flight() == l0.in_flight() + 1,
        l2.spec_capacity() == l1.spec_capacity(),
        l2.in_flight() == l1.in_flight() - 1,
    ensures
        l2.in_flight() == l0.in_flight(),
        l2.spec_capacity() == l0.spec_capacity(),
{
}

} // verus!
