//! Admission control for the acceptor: a counting permit budget that caps
//! how many connection tasks are in flight at once.

use vstd::prelude::*;

verus! {

/// The acceptor's permit budget. Its invariant is the admission bound: the
/// permits out never exceed the capacity, so the number of in-flight
/// connection tasks never exceeds it either.
pub struct Admission {
    capacity: usize,
    active: usize,
}

impl Admission {
    /// How many permits exist.
    pub closed spec fn capacity(&self) -> int {
        self.capacity as int
    }

    /// How many permits are out: one per in-flight connection task.
    pub closed spec fn active(&self) -> int {
        self.active as int
    }

    /// The admission bound.
    pub open spec fn wf(&self) -> bool {
        self.active() <= self.capacity()
    }

    /// A budget with every permit free.
    pub fn new(capacity: usize) -> (r: Self)
        ensures
            r.wf(),
            r.capacity() == capacity,
            r.active() == 0,
    {
        Admission { capacity, active: 0 }
    }

    /// Takes one permit if one is free; refuses at capacity, so the bound
    /// holds in every reachable state.
    pub fn try_acquire(&mut self) -> (r: bool)
        requires
            old(self).wf(),
        ensures
            final(self).wf(),
            final(self).capacity() == old(self).capacity(),
            r <==> old(self).active() < old(self).capacity(),
            r ==> final(self).active() == old(self).active() + 1,
            !r ==> *final(self) == *old(self),
    {
        if self.active < self.capacity {
            self.active = self.active + 1;
            true
        } else {
            false
        }
    }

    /// Gives one permit back when its connection task ends; a stray release
    /// with no permit out changes nothing.
    pub fn release(&mut self)
        requires
            old(self).wf(),
        ensures
            final(self).wf(),
            final(self).capacity() == old(self).capacity(),
            old(self).active() > 0 ==> final(self).active() == old(self).active() - 1,
            old(self).active() == 0 ==> *final(self) == *old(self),
    {
        if self.active > 0 {
            self.active = self.active - 1;
        }
    }

    /// Whether a permit is free right now.
    pub fn has_free_permit(&self) -> (r: bool)
        ensures
            r == (self.active() < self.capacity()),
    {
        self.active < self.capacity
    }
}

/// Law: the permit count never exceeds the capacity. `new` establishes the
/// bound and `try_acquire` and `release` keep it, so it holds of every
/// reachable admission state.
pub proof fn lemma_admission_bound(a: Admission)
    requires
        a.wf(),
    ensures
        a.active() <= a.capacity(),
{
}

} // verus!
