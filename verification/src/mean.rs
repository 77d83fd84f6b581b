use vstd::prelude::*;

verus! {

/// Arithmetic mean of the latency samples observed since the last decision
/// point, in nanoseconds. The sum is kept wide so that no realistic run of
/// samples can overflow it; well-formedness bounds the sum by the count of
/// samples times the largest possible sample.
pub struct Mean {
    pub sum: u128,
    pub count: usize,
}

impl Mean {
    /// Every sample is a `u64`, so the sum never exceeds the count of
    /// samples times `u64::MAX`.
    pub open spec fn wf(self) -> bool {
        self.sum as int <= self.count as int * 0xffff_ffff_ffff_ffff
    }

    pub fn new() -> (r: Mean)
        ensures
            r.sum == 0,
            r.count == 0,
            r.wf(),
    {
        Mean { sum: 0, count: 0 }
    }

    /// Fold one sample in and return the mean of all samples so far.
    pub fn update(&mut self, point: u64) -> (r: u64)
        requires
            old(self).wf(),
            old(self).count < usize::MAX,
        ensures
            final(self).wf(),
            final(self).sum == old(self).sum + point,
            final(self).count == old(self).count + 1,
            r == final(self).sum as int / final(self).count as int,
    {
        proof {
            let s = old(self).sum as int;
            let c = old(self).count as int;
            let p = point as int;
            assert(s + p <= (c + 1) * 0xffff_ffff_ffff_ffff) by (nonlinear_arith)
                requires
                    s <= c * 0xffff_ffff_ffff_ffff,
                    p <= 0xffff_ffff_ffff_ffff,
            ;
        }
        self.sum = self.sum + point as u128;
        self.count = self.count + 1;
        let q: u128 = self.sum / self.count as u128;
        proof {
            let s = self.sum as int;
            let c = self.count as int;
            assert(s / c <= 0xffff_ffff_ffff_ffff) by (nonlinear_arith)
                requires
                    s <= c * 0xffff_ffff_ffff_ffff,
                    0 < c,
            ;
        }
        q as u64
    }

    /// Empty the accumulator, beginning a new window.
    pub fn reset(&mut self)
        ensures
            final(self).sum == 0,
            final(self).count == 0,
            final(self).wf(),
    {
        self.sum = 0;
        self.count = 0;
    }
}

} // verus!
