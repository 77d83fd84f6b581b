use crate::ewma::Ewma;
use crate::ewma::ewma_next;
use crate::mean::Mean;
use crate::semaphore::ShrinkableSemaphore;
use vstd::prelude::*;

verus! {

/// The classification of one completed unit of work.
#[derive(Clone, Copy, Debug, PartialEq, Eq, Structural)]
pub enum ResponseType {
    /// The work succeeded.
    Normal,
    /// The downstream explicitly reported itself overloaded.
    BackPressure,
    /// The work failed for a reason that says nothing about load.
    Other,
}

/// The one capability the controller needs of a downstream error: whether
/// it reports the downstream as overloaded. Richer error types are the
/// embedding system's business.
pub trait IsBackPressure {
    spec fn spec_is_back_pressure(&self) -> bool;

    fn is_back_pressure(&self) -> (r: bool)
        ensures
            r == self.spec_is_back_pressure(),
    ;
}

/// A minimal error that carries nothing but the backpressure signal.
#[derive(Clone, Copy, Debug, PartialEq, Eq, Structural)]
pub struct FlaggedError {
    pub back_pressure: bool,
}

impl IsBackPressure for FlaggedError {
    open spec fn spec_is_back_pressure(&self) -> bool {
        self.back_pressure
    }

    fn is_back_pressure(&self) -> (r: bool) {
        self.back_pressure
    }
}

/// How `adjust_to_response` reads an outcome: success is normal, an error
/// is backpressure exactly when it says so of itself.
pub open spec fn classify<T, E: IsBackPressure>(response: &Result<T, E>) -> ResponseType {
    match response {
        Ok(_) => ResponseType::Normal,
        Err(e) => if e.spec_is_back_pressure() {
            ResponseType::BackPressure
        } else {
            ResponseType::Other
        },
    }
}

/// Elapsed time of one unit of work in nanoseconds, saturating at zero
/// against clock artifacts.
pub open spec fn rtt_sample(now: u64, start: u64) -> int {
    if now >= start {
        now - start
    } else {
        0
    }
}

/// The window mean once the present sample is folded in: the mean of all
/// samples seen since the last decision point, this one included.
pub open spec fn window_mean_after(c: Controller, now: u64, start: u64) -> int {
    (c.current_rtt.sum + rtt_sample(now, start)) / (c.current_rtt.count + 1)
}

/// Addition of nanosecond timestamps, saturating at the largest
/// representable instant.
pub open spec fn sat_add_u64(a: int, b: int) -> int {
    if a + b <= u64::MAX {
        a + b
    } else {
        u64::MAX as int
    }
}

/// The multiplicative-decrease guard: the target can shrink, and this
/// window saw explicit backpressure or a mean latency at least one
/// hundredth above the baseline — the comparison is the exact rational
/// `mean >= baseline * 101/100`, so the hysteresis band that keeps
/// jitter near the baseline from triggering a decrease is never empty
/// while the baseline is seeded.
pub open spec fn wants_decrease(current: int, had_bp: bool, window_rtt: int, baseline: int) -> bool {
    current > 1 && (had_bp || 100 * window_rtt >= 101 * baseline)
}

/// The additive-increase guard: the target can grow, the window saw no
/// backpressure, and the mean latency is at or below the baseline.
pub open spec fn wants_increase(
    current: int,
    max: int,
    had_bp: bool,
    window_rtt: int,
    baseline: int,
) -> bool {
    current < max && !had_bp && window_rtt <= baseline
}

/// The concurrency target after one decision: halved (floor) on a
/// qualifying decrease, one more on a qualifying increase, unchanged in
/// the inconclusive band between them or while the baseline is unseeded.
pub open spec fn next_current(
    current: int,
    max: int,
    had_bp: bool,
    window_rtt: int,
    baseline: int,
) -> int {
    if baseline <= 0 {
        current
    } else if wants_decrease(current, had_bp, window_rtt, baseline) {
        current / 2
    } else if wants_increase(current, max, had_bp, window_rtt, baseline) {
        current + 1
    } else {
        current
    }
}

/// Bounds how many requests may be in flight at once and retunes that
/// bound from observed latency and backpressure, in
/// additive-increase/multiplicative-decrease style.
///
/// All durations and timestamps are nanosecond counts on one monotonic
/// clock chosen by the embedding system; `next_update == 0` (as after
/// construction) makes the first sample a decision point.
pub struct Controller {
    /// The permit pool; its capacity always equals `current`.
    pub semaphore: ShrinkableSemaphore,
    /// Immutable upper bound on concurrency.
    pub max: usize,
    /// The concurrency target, between one and `max`.
    pub current: usize,
    /// Smoothed long-run baseline latency; zero while unseeded.
    pub past_rtt: Ewma,
    /// No decision is evaluated before this instant.
    pub next_update: u64,
    /// Mean latency of the responses seen since the last decision point.
    pub current_rtt: Mean,
    /// Whether any response of the present window reported backpressure;
    /// sticky until the next decision point.
    pub had_back_pressure: bool,
}

/// The controller after folding in one classified response at `now` for
/// work begun at `start`.
///
/// Every response accumulates into the window mean, and backpressure is
/// recorded sticky. At a decision point (`now` at or past `next_update`)
/// the target and the pool move as `next_current` says, the window mean
/// is folded into the baseline — which seeds the baseline on the first
/// decision point — the next decision is scheduled one new baseline
/// ahead, and the window and the sticky flag are reset.
pub open spec fn spec_adjust(c: Controller, now: u64, start: u64, response: ResponseType) -> Controller {
    let rtt = rtt_sample(now, start);
    let bp = c.had_back_pressure || response == ResponseType::BackPressure;
    let wsum = c.current_rtt.sum + rtt;
    let wcount = c.current_rtt.count + 1;
    let window_rtt = window_mean_after(c, now, start);
    let baseline = c.past_rtt.average as int;
    if now >= c.next_update {
        let sem = if baseline > 0 && wants_decrease(c.current as int, bp, window_rtt, baseline) {
            c.semaphore.spec_forget((c.current - c.current / 2) as usize)
        } else if baseline > 0
            && wants_increase(c.current as int, c.max as int, bp, window_rtt, baseline) {
            c.semaphore.spec_add(1)
        } else {
            c.semaphore
        };
        let new_baseline = ewma_next(baseline, window_rtt);
        Controller {
            semaphore: sem,
            max: c.max,
            current: next_current(c.current as int, c.max as int, bp, window_rtt, baseline) as usize,
            past_rtt: Ewma { average: new_baseline as u64 },
            next_update: sat_add_u64(now as int, new_baseline) as u64,
            current_rtt: Mean { sum: 0, count: 0 },
            had_back_pressure: false,
        }
    } else {
        Controller {
            semaphore: c.semaphore,
            max: c.max,
            current: c.current,
            past_rtt: c.past_rtt,
            next_update: c.next_update,
            current_rtt: Mean { sum: wsum as u128, count: wcount as usize },
            had_back_pressure: bp,
        }
    }
}

impl Controller {
    /// The target is within its bounds, the pool's capacity tracks the
    /// target, and both the pool's and the window's own accounting hold.
    pub open spec fn wf(self) -> bool {
        &&& 1 <= self.current <= self.max
        &&& self.semaphore.wf()
        &&& self.semaphore.capacity == self.current
        &&& self.current_rtt.wf()
    }

    pub fn new(max: usize, initial: usize) -> (r: Controller)
        requires
            1 <= initial <= max,
        ensures
            r.wf(),
            r.max == max,
            r.current == initial,
            r.semaphore == ShrinkableSemaphore::spec_new(initial),
            r.past_rtt.average == 0,
            r.next_update == 0,
            r.current_rtt.sum == 0,
            r.current_rtt.count == 0,
            !r.had_back_pressure,
    {
        Controller {
            semaphore: ShrinkableSemaphore::new(initial),
            max,
            current: initial,
            past_rtt: Ewma::new(),
            next_update: 0,
            current_rtt: Mean::new(),
            had_back_pressure: false,
        }
    }

    /// Claim a concurrency slot if one is obtainable without waiting; the
    /// embedding runtime retries (after waiting) on `false`. Never touches
    /// the accumulators or the target.
    pub fn try_acquire(&mut self) -> (r: bool)
        requires
            old(self).wf(),
        ensures
            final(self).wf(),
            r == (old(self).semaphore.available > old(self).semaphore.debt),
            r ==> final(self).semaphore == old(self).semaphore.spec_pay_debt().spec_take(),
            !r ==> final(self).semaphore == old(self).semaphore.spec_pay_debt(),
            final(self).max == old(self).max,
            final(self).current == old(self).current,
            final(self).past_rtt == old(self).past_rtt,
            final(self).next_update == old(self).next_update,
            final(self).current_rtt == old(self).current_rtt,
            final(self).had_back_pressure == old(self).had_back_pressure,
    {
        self.semaphore.try_acquire()
    }

    /// Return one held permit to the pool (or to the debt, if a shrink is
    /// pending).
    pub fn release(&mut self)
        requires
            old(self).wf(),
            old(self).semaphore.outstanding > 0,
        ensures
            final(self).wf(),
            final(self).semaphore == old(self).semaphore.spec_release(),
            final(self).max == old(self).max,
            final(self).current == old(self).current,
            final(self).past_rtt == old(self).past_rtt,
            final(self).next_update == old(self).next_update,
            final(self).current_rtt == old(self).current_rtt,
            final(self).had_back_pressure == old(self).had_back_pressure,
    {
        self.semaphore.release()
    }

    /// Fold one already-classified response into the controller; the
    /// whole effect is `spec_adjust`.
    pub fn adjust_classified(&mut self, now: u64, start: u64, response: ResponseType)
        requires
            old(self).wf(),
            old(self).current_rtt.count < usize::MAX,
        ensures
            final(self).wf(),
            *final(self) == spec_adjust(*old(self), now, start, response),
            1 <= final(self).current <= final(self).max,
            final(self).max == old(self).max,
    {
        let rtt: u64 = if now >= start {
            now - start
        } else {
            0
        };
        if response == ResponseType::BackPressure {
            self.had_back_pressure = true;
        }
        let window_rtt = self.current_rtt.update(rtt);
        if now >= self.next_update {
            let baseline = self.past_rtt.average();
            if baseline > 0 {
                let over_threshold: bool = 100 * (window_rtt as u128) >= 101 * (baseline as u128);
                if self.current > 1 && (self.had_back_pressure || over_threshold) {
                    let new_current: usize = self.current / 2;
                    self.semaphore.forget_permits(self.current - new_current);
                    self.current = new_current;
                } else if self.current < self.max && !self.had_back_pressure
                    && window_rtt <= baseline {
                    self.semaphore.add_permits(1);
                    self.current = self.current + 1;
                }
            }
            let new_baseline = self.past_rtt.update(window_rtt);
            self.next_update = if now <= u64::MAX - new_baseline {
                now + new_baseline
            } else {
                u64::MAX
            };
            self.had_back_pressure = false;
            self.current_rtt.reset();
        }
    }

    /// Fold one completed unit of work into the controller: classify the
    /// outcome through the error's own backpressure capability, then
    /// adjust. Called exactly once per completed unit of work, paired with
    /// a prior acquire.
    pub fn adjust_to_response<T, E: IsBackPressure>(
        &mut self,
        now: u64,
        start: u64,
        response: &Result<T, E>,
    )
        requires
            old(self).wf(),
            old(self).current_rtt.count < usize::MAX,
        ensures
            final(self).wf(),
            *final(self) == spec_adjust(*old(self), now, start, classify(response)),
            1 <= final(self).current <= final(self).max,
            final(self).max == old(self).max,
    {
        let classified = match response {
            Ok(_) => ResponseType::Normal,
            Err(e) => if e.is_back_pressure() {
                ResponseType::BackPressure
            } else {
                ResponseType::Other
            },
        };
        self.adjust_classified(now, start, classified);
    }
}

/// A qualifying decrease halves the concurrency target with floor
/// division: the result never drops below one and always falls strictly
/// below the starting point.
pub proof fn lemma_decrease_is_safe(c: int)
    requires
        c > 1,
    ensures
        1 <= c / 2,
        c / 2 < c,
{
}

/// The target stays within `[1, max]` across any adjustment, and the
/// pool's capacity keeps tracking it: every reachable controller state is
/// well formed, however many windows of whatever character go by.
pub proof fn lemma_adjust_preserves_bounds(c: Controller, now: u64, start: u64, response: ResponseType)
    requires
        c.wf(),
        c.current_rtt.count < usize::MAX,
    ensures
        spec_adjust(c, now, start, response).wf(),
        spec_adjust(c, now, start, response).max == c.max,
{
}

/// Decision cadence: before the scheduled instant `next_update` is
/// reached, a response only accumulates into the window mean and the
/// sticky backpressure flag; the target, the pool, the baseline and the
/// schedule itself do not move.
pub proof fn lemma_no_decision_before_schedule(
    c: Controller,
    now: u64,
    start: u64,
    response: ResponseType,
)
    requires
        now < c.next_update,
    ensures
        spec_adjust(c, now, start, response).current == c.current,
        spec_adjust(c, now, start, response).semaphore == c.semaphore,
        spec_adjust(c, now, start, response).past_rtt == c.past_rtt,
        spec_adjust(c, now, start, response).next_update == c.next_update,
{
}

/// Sticky backpressure forces the multiplicative decrease: at a decision
/// point with a seeded baseline and a target above one, a window that saw
/// explicit backpressure — in an earlier response of the window or in
/// this one — halves the target (floor) and tells the pool to forget the
/// difference, however fast the window's mean latency was.
pub proof fn lemma_backpressure_halves_target(
    c: Controller,
    now: u64,
    start: u64,
    response: ResponseType,
)
    requires
        c.wf(),
        now >= c.next_update,
        c.past_rtt.average > 0,
        c.current > 1,
        c.had_back_pressure || response == ResponseType::BackPressure,
    ensures
        spec_adjust(c, now, start, response).current == c.current as int / 2,
        spec_adjust(c, now, start, response).semaphore == c.semaphore.spec_forget(
            (c.current - c.current / 2) as usize,
        ),
{
}

/// A fast, backpressure-free window raises the target by exactly one: at
/// a decision point with a seeded baseline, no backpressure anywhere in
/// the window and a window mean at or below the baseline, a target below
/// the bound gains one, and the pool one permit; a target at the bound
/// stays put, and the pool untouched.
pub proof fn lemma_fast_window_increases_by_one(
    c: Controller,
    now: u64,
    start: u64,
    response: ResponseType,
)
    requires
        c.wf(),
        now >= c.next_update,
        c.past_rtt.average > 0,
        !c.had_back_pressure,
        response != ResponseType::BackPressure,
        window_mean_after(c, now, start) <= c.past_rtt.average,
    ensures
        c.current < c.max ==> spec_adjust(c, now, start, response).current == c.current + 1,
        c.current < c.max ==> spec_adjust(c, now, start, response).semaphore == c.semaphore.spec_add(
            1,
        ),
        c.current == c.max ==> spec_adjust(c, now, start, response).current == c.current,
        c.current == c.max ==> spec_adjust(c, now, start, response).semaphore == c.semaphore,
{
}

/// The hysteresis band: with no backpressure and a window mean strictly
/// between the baseline and the baseline plus one hundredth, a decision
/// point deliberately changes neither the target nor the pool — marginal
/// latency alone never moves the concurrency — though the baseline still
/// folds the sample in and the next decision is rescheduled.
pub proof fn lemma_marginal_latency_changes_nothing(
    c: Controller,
    now: u64,
    start: u64,
    response: ResponseType,
)
    requires
        c.wf(),
        now >= c.next_update,
        c.past_rtt.average > 0,
        !c.had_back_pressure,
        response != ResponseType::BackPressure,
        c.past_rtt.average < window_mean_after(c, now, start),
        100 * window_mean_after(c, now, start) < 101 * c.past_rtt.average,
    ensures
        spec_adjust(c, now, start, response).current == c.current,
        spec_adjust(c, now, start, response).semaphore == c.semaphore,
{
}

} // verus!
