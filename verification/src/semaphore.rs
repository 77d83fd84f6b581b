use vstd::prelude::*;

verus! {

/// Permit accounting for a counting semaphore whose capacity can shrink
/// even while permits are checked out.
///
/// `capacity` is the number of permits that may be outstanding at once,
/// at steady state. `available` permits are free for the taking and
/// `outstanding` permits are held by callers. `debt` counts permits whose
/// removal was decided by `forget_permits` while they were checked out:
/// removal cannot be forced on the holders, so it is deferred, and each
/// permit coming back (through `release` or freed under a waiting
/// acquirer) is destroyed against the debt instead of being handed out,
/// until the debt is paid.
///
/// This type is the accounting alone; suspension until a permit is free
/// belongs to the embedding runtime, which calls `try_acquire` whenever a
/// permit may have become obtainable.
pub struct ShrinkableSemaphore {
    pub capacity: usize,
    pub available: usize,
    pub debt: usize,
    pub outstanding: usize,
}

impl ShrinkableSemaphore {
    /// Permits are conserved: the free ones and the held ones account for
    /// the capacity plus the deferred removals, and every unit of debt has
    /// a checked-out permit that will eventually pay it.
    pub open spec fn wf(self) -> bool {
        &&& self.available + self.outstanding == self.capacity + self.debt
        &&& self.debt <= self.outstanding
    }

    /// A fresh pool: every permit available, none held, no debt.
    pub open spec fn spec_new(capacity: usize) -> ShrinkableSemaphore {
        ShrinkableSemaphore { capacity, available: capacity, debt: 0, outstanding: 0 }
    }

    /// Destroy available permits against the debt, one for one, until one
    /// side runs out.
    pub open spec fn spec_pay_debt(self) -> ShrinkableSemaphore {
        let paid = if self.debt <= self.available {
            self.debt as int
        } else {
            self.available as int
        };
        ShrinkableSemaphore {
            capacity: self.capacity,
            available: (self.available - paid) as usize,
            debt: (self.debt - paid) as usize,
            outstanding: self.outstanding,
        }
    }

    /// Hand one available permit to a caller.
    pub open spec fn spec_take(self) -> ShrinkableSemaphore {
        ShrinkableSemaphore {
            capacity: self.capacity,
            available: (self.available - 1) as usize,
            debt: self.debt,
            outstanding: (self.outstanding + 1) as usize,
        }
    }

    /// A held permit comes back: it pays one unit of debt if any is
    /// outstanding, and is returned to the pool otherwise.
    pub open spec fn spec_release(self) -> ShrinkableSemaphore {
        if self.debt > 0 {
            ShrinkableSemaphore {
                capacity: self.capacity,
                available: self.available,
                debt: (self.debt - 1) as usize,
                outstanding: (self.outstanding - 1) as usize,
            }
        } else {
            ShrinkableSemaphore {
                capacity: self.capacity,
                available: (self.available + 1) as usize,
                debt: self.debt,
                outstanding: (self.outstanding - 1) as usize,
            }
        }
    }

    /// Remove `n` permits from the capacity: available ones are consumed
    /// at once, and the rest becomes debt.
    pub open spec fn spec_forget(self, n: usize) -> ShrinkableSemaphore {
        let consumed = if n <= self.available {
            n as int
        } else {
            self.available as int
        };
        ShrinkableSemaphore {
            capacity: (self.capacity - n) as usize,
            available: (self.available - consumed) as usize,
            debt: (self.debt + n - consumed) as usize,
            outstanding: self.outstanding,
        }
    }

    /// Grow the capacity by `n`, making the new permits available at once.
    pub open spec fn spec_add(self, n: usize) -> ShrinkableSemaphore {
        ShrinkableSemaphore {
            capacity: (self.capacity + n) as usize,
            available: (self.available + n) as usize,
            debt: self.debt,
            outstanding: self.outstanding,
        }
    }

    pub fn new(capacity: usize) -> (r: ShrinkableSemaphore)
        ensures
            r == ShrinkableSemaphore::spec_new(capacity),
            r.wf(),
    {
        ShrinkableSemaphore { capacity, available: capacity, debt: 0, outstanding: 0 }
    }

    /// Claim a permit if one is obtainable without waiting.
    ///
    /// Permits freed while debt is outstanding are destroyed against the
    /// debt rather than handed out, so the call succeeds exactly when more
    /// permits are available than owed. The embedding runtime calls this
    /// again whenever a permit may have been freed; a `false` result means
    /// the caller must wait.
    pub fn try_acquire(&mut self) -> (r: bool)
        requires
            old(self).wf(),
        ensures
            final(self).wf(),
            r == (old(self).available > old(self).debt),
            r ==> *final(self) == old(self).spec_pay_debt().spec_take(),
            !r ==> *final(self) == old(self).spec_pay_debt(),
    {
        while self.debt > 0 && self.available > 0
            invariant
                self.wf(),
                self.capacity == old(self).capacity,
                self.outstanding == old(self).outstanding,
                self.debt <= old(self).debt,
                old(self).available - self.available == old(self).debt - self.debt,
            decreases self.debt,
        {
            self.debt = self.debt - 1;
            self.available = self.available - 1;
        }
        if self.available > 0 {
            self.available = self.available - 1;
            self.outstanding = self.outstanding + 1;
            true
        } else {
            false
        }
    }

    /// Return a held permit: it pays one unit of debt if any is
    /// outstanding, and rejoins the pool otherwise.
    pub fn release(&mut self)
        requires
            old(self).wf(),
            old(self).outstanding > 0,
        ensures
            final(self).wf(),
            *final(self) == old(self).spec_release(),
    {
        if self.debt > 0 {
            self.debt = self.debt - 1;
        } else {
            self.available = self.available + 1;
        }
        self.outstanding = self.outstanding - 1;
    }

    /// Permanently remove `n` permits. Never waits and never fails, even
    /// when the permits to remove are all checked out: whatever cannot be
    /// consumed from the available pool is recorded as debt and destroyed
    /// later, as the holders return their permits.
    pub fn forget_permits(&mut self, n: usize)
        requires
            old(self).wf(),
            n <= old(self).capacity,
        ensures
            final(self).wf(),
            *final(self) == old(self).spec_forget(n),
    {
        if n <= self.available {
            self.available = self.available - n;
        } else {
            let remainder: usize = n - self.available;
            self.available = 0;
            self.debt = self.debt + remainder;
        }
        self.capacity = self.capacity - n;
    }

    /// Add `n` fresh permits to the pool.
    pub fn add_permits(&mut self, n: usize)
        requires
            old(self).wf(),
            old(self).capacity + n <= usize::MAX,
        ensures
            final(self).wf(),
            *final(self) == old(self).spec_add(n),
    {
        self.capacity = self.capacity + n;
        self.available = self.available + n;
    }

    /// `n` successive releases, as a single spec-level transition.
    pub open spec fn spec_release_n(self, n: nat) -> ShrinkableSemaphore
        decreases n,
    {
        if n == 0 {
            self
        } else {
            self.spec_release().spec_release_n((n - 1) as nat)
        }
    }

    /// Releasing `n` held permits pays the outstanding debt first, one
    /// permit per unit of debt, and credits the remainder back to the
    /// available pool; the capacity never moves.
    pub proof fn lemma_release_n(self, n: nat)
        requires
            self.wf(),
            n <= self.outstanding,
        ensures
            ({
                let t = self.spec_release_n(n);
                &&& t.wf()
                &&& t.capacity == self.capacity
                &&& t.outstanding == self.outstanding - n
                &&& t.debt == if n <= self.debt {
                    self.debt - n
                } else {
                    0
                }
                &&& t.available == if n <= self.debt {
                    self.available as int
                } else {
                    self.available + n - self.debt
                }
            }),
        decreases n,
    {
        if n > 0 {
            let s1 = self.spec_release();
            assert(s1.wf());
            s1.lemma_release_n((n - 1) as nat);
        }
    }

    /// Debt correctness: with every one of `k` permits checked out,
    /// forgetting `m <= k` of them disturbs no holder; once all `k` held
    /// permits are released, the pool has settled at capacity `k - m`,
    /// with exactly `k - m` permits available and no debt left.
    pub proof fn lemma_forget_resolves_as_debt(self, k: usize, m: usize)
        requires
            self.wf(),
            self.capacity == k,
            self.outstanding == k,
            self.available == 0,
            self.debt == 0,
            m <= k,
        ensures
            ({
                let t = self.spec_forget(m).spec_release_n(k as nat);
                &&& t.capacity == k - m
                &&& t.available == k - m
                &&& t.debt == 0
                &&& t.outstanding == 0
            }),
    {
        let f = self.spec_forget(m);
        assert(f.wf());
        f.lemma_release_n(k as nat);
    }
}

} // verus!
