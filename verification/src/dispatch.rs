//! Bounded-concurrency accounting for CPU-heavy blocking work.
//!
//! Password hashing and verification are deliberately expensive and must not
//! run inline on the execution context that services I/O. The pool below is
//! the verified core of that policy: a fixed number of fungible permits, one
//! held for the whole duration of one blocking task, released unconditionally
//! when the task ends. The host wires these transitions to its real
//! suspend-on-acquire primitive; the accounting here guarantees that at most
//! `capacity` tasks are ever running at once.

use vstd::prelude::*;

verus! {

/// A fixed-size pool of permits guarding CPU-bound work.
///
/// Invariant: the number of permits in use never exceeds the capacity the
/// pool was created with, so at most `capacity` blocking tasks run
/// concurrently.
pub struct PermitPool {
    capacity: usize,
    in_use: usize,
}

impl PermitPool {
    /// Size the pool was created with; never changes afterwards.
    pub closed spec fn spec_capacity(&self) -> nat {
        self.capacity as nat
    }

    /// Number of permits currently held by running tasks.
    pub closed spec fn spec_in_use(&self) -> nat {
        self.in_use as nat
    }

    /// The bounded-concurrency invariant.
    pub open spec fn wf(&self) -> bool {
        self.spec_in_use() <= self.spec_capacity()
    }

    /// A fresh pool with every permit free.
    pub fn new(capacity: usize) -> (pool: PermitPool)
        ensures
            pool.wf(),
            pool.spec_capacity() == capacity,
            pool.spec_in_use() == 0,
    {
        PermitPool { capacity, in_use: 0 }
    }

    /// Number of permits still free.
    pub fn available(&self) -> (free: usize)
        requires
            self.wf(),
        ensures
            free == self.spec_capacity() - self.spec_in_use(),
    {
        self.capacity - self.in_use
    }

    /// Claim one permit if any is free. A `true` result means the caller may
    /// start one blocking task; `false` means the pool is saturated and the
    /// caller must wait for a release.
    pub fn try_acquire(&mut self) -> (granted: bool)
        requires
            old(self).wf(),
        ensures
            final(self).wf(),
            final(self).spec_capacity() == old(self).spec_capacity(),
            granted <==> old(self).spec_in_use() < old(self).spec_capacity(),
            granted ==> final(self).spec_in_use() == old(self).spec_in_use() + 1,
            !granted ==> final(self).spec_in_use() == old(self).spec_in_use(),
    {
        if self.in_use < self.capacity {
            self.in_use = self.in_use + 1;
            true
        } else {
            false
        }
    }

    /// Give one permit back. Called on every exit path of a blocking task —
    /// success, failure, or abnormal termination alike — so a failing task
    /// never leaks a held permit.
    pub fn release(&mut self)
        requires
            old(self).wf(),
            old(self).spec_in_use() > 0,
        ensures
            final(self).wf(),
            final(self).spec_capacity() == old(self).spec_capacity(),
            final(self).spec_in_use() == old(self).spec_in_use() - 1,
    {
        self.in_use = self.in_use - 1;
    }
}

} // verus!
