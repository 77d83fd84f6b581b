//! An adaptive concurrency limiter: it bounds how many requests may be in
//! flight at once and retunes that bound from observed latency and
//! backpressure signals, in the style of additive-increase /
//! multiplicative-decrease congestion control.
//!
//! The crate is a pure in-process control structure over plain integer
//! state: durations are nanosecond counts, permits are counter updates.
//! Suspension (waiting for a permit) is left to the embedding runtime,
//! which drives the state machine defined here.

pub mod controller;
pub mod ewma;
pub mod mean;
pub mod semaphore;
