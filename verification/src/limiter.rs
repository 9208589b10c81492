//! The concurrency limiter: an admission counter that lets at most a
//! fixed number of RPC calls be in flight at once.  A caller that
//! arrives while every slot is taken waits for one; nothing is ever
//! rejected.  This module holds the counter and its rules; the waiting
//! itself is the transport's suspension, outside this crate.

use vstd::prelude::*;

verus! {

/// The fixed ceiling on simultaneously in-flight RPC calls.
pub const RPC_CONCURRENCY_LIMIT: usize = 64;

/// The limiter's state: how many slots exist and how many are taken.
/// Never are more taken than exist.
pub struct Limiter {
    capacity: usize,
    in_flight: usize,
}

impl Limiter {
    /// The limiter never over-admits: taken slots never exceed capacity.
    pub closed spec fn wf(self) -> bool {
        self.in_flight <= self.capacity
    }

    /// How many calls may be in flight at once.
    pub closed spec fn spec_capacity(self) -> int {
        self.capacity as int
    }

    /// How many calls are in flight now.
    pub closed spec fn spec_in_flight(self) -> int {
        self.in_flight as int
    }

    /// Whether a newly arriving call is admitted at once (a free slot
    /// exists) rather than having to wait.
    pub open spec fn can_admit(self) -> bool {
        self.spec_in_flight() < self.spec_capacity()
    }

    /// The limiter after one admission.
    pub closed spec fn after_acquire(self) -> Limiter
        recommends
            self.can_admit(),
    {
        Limiter { in_flight: (self.spec_in_flight() + 1) as usize, ..self }
    }

    /// The limiter after one in-flight call completes and frees its slot.
    pub closed spec fn after_release(self) -> Limiter
        recommends
            self.spec_in_flight() > 0,
    {
        Limiter { in_flight: (self.spec_in_flight() - 1) as usize, ..self }
    }

    /// A fresh limiter: all slots free.
    pub fn new(capacity: usize) -> (lim: Limiter)
        ensures
            lim.wf(),
            lim.spec_capacity() == capacity,
            lim.spec_in_flight() == 0,
    {
        Limiter { capacity, in_flight: 0 }
    }

    /// Tries to admit one call.  It is admitted if and only if a slot
    /// is free; a refusal leaves the limiter unchanged, and the caller
    /// waits and tries again once a slot frees.
    pub fn try_acquire(&mut self) -> (admitted: bool)
        requires
            old(self).wf(),
        ensures
            final(self).wf(),
            admitted == old(self).can_admit(),
            final(self).spec_capacity() == old(self).spec_capacity(),
            admitted ==> *final(self) == old(self).after_acquire(),
            admitted ==> final(self).spec_in_flight() == old(self).spec_in_flight() + 1,
            !admitted ==> *final(self) == *old(self),
    {
        if self.in_flight < self.capacity {
            self.in_flight = self.in_flight + 1;
            true
        } else {
            false
        }
    }

    /// Frees the slot of a completed call, success or failure alike.
    pub fn release(&mut self)
        requires
            old(self).wf(),
            old(self).spec_in_flight() > 0,
        ensures
            final(self).wf(),
            *final(self) == old(self).after_release(),
            final(self).spec_capacity() == old(self).spec_capacity(),
            final(self).spec_in_flight() == old(self).spec_in_flight() - 1,
            final(self).can_admit(),
    {
        self.in_flight = self.in_flight - 1;
    }
}

/// The admission law.  With every slot taken, a further call is not
/// admitted; as soon as any one in-flight call completes and frees its
/// slot, the waiting call is admitted; and once that call completes in
/// turn, as many calls are in flight as before it was admitted.
pub proof fn lemma_full_limiter_waits_then_admits(lim: Limiter)
    requires
        lim.wf(),
        lim.spec_capacity() > 0,
        lim.spec_in_flight() == lim.spec_capacity(),
    ensures
        !lim.can_admit(),
        lim.after_release().can_admit(),
        lim.after_release().after_acquire().after_release().spec_in_flight()
            == lim.after_release().spec_in_flight(),
{
}

} // verus!
