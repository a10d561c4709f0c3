//! Arrival-delay generation strategies.
//!
//! The scheduler loop is polymorphic over one capability: producing the next
//! inter-arrival delay. Alternative arrival processes (bursty, probabilistic)
//! can be substituted without touching the loop; the one required strategy is
//! a constant interval.

use vstd::prelude::*;

verus! {

/// A source of inter-arrival delays, one per scheduler tick.
pub trait ArrivalGenerator {
    /// Which delays, in nanoseconds, this generator may produce in its
    /// current state.
    spec fn emits(&self, delay_ns: u64) -> bool;

    /// Produce the next inter-arrival delay, in nanoseconds.
    fn next_delay(&mut self) -> (delay_ns: u64)
        ensures
            old(self).emits(delay_ns),
    ;
}

/// The constant-interval arrival process: every delay equals the period.
#[derive(Clone, Copy, Debug, PartialEq, Eq, Structural)]
pub struct FixedInterval {
    pub period_ns: u64,
}

impl FixedInterval {
    /// A generator that spaces arrivals exactly `period_ns` apart.
    pub fn new(period_ns: u64) -> (g: Self)
        ensures
            g.period_ns == period_ns,
    {
        FixedInterval { period_ns }
    }
}

impl ArrivalGenerator for FixedInterval {
    open spec fn emits(&self, delay_ns: u64) -> bool {
        delay_ns == self.period_ns
    }

    fn next_delay(&mut self) -> (delay_ns: u64) {
        self.period_ns
    }
}

} // verus!
