use vstd::prelude::*;

verus! {

/// Exponentially weighted moving average of latency samples, in nanoseconds.
///
/// An average of zero means the accumulator is unseeded. The first sample
/// seeds the average directly (avoiding a slow ramp-up from zero); each
/// later sample is blended with the history at equal weight (alpha = 1/2,
/// in integer arithmetic with floor division).
pub struct Ewma {
    pub average: u64,
}

/// The smoothed average after folding `point` into `avg`: the first sample
/// seeds the accumulator, later ones are averaged in with weight one half.
pub open spec fn ewma_next(avg: int, point: int) -> int {
    if avg == 0 {
        point
    } else {
        (point + avg) / 2
    }
}

impl Ewma {
    pub fn new() -> (r: Ewma)
        ensures
            r.average == 0,
    {
        Ewma { average: 0 }
    }

    /// The current smoothed average, without mutation.
    pub fn average(&self) -> (r: u64)
        ensures
            r == self.average,
    {
        self.average
    }

    /// Fold one sample into the average and return the new average.
    pub fn update(&mut self, point: u64) -> (r: u64)
        ensures
            final(self).average == ewma_next(old(self).average as int, point as int),
            r == final(self).average,
    {
        if self.average == 0 {
            self.average = point;
        } else {
            let blended: u128 = (point as u128 + self.average as u128) / 2;
            self.average = blended as u64;
        }
        self.average
    }
}

} // verus!
