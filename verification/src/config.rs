//! Run configuration values that the engine computes with.
//!
//! [`HoldDurations`] is the sampled-hold-time policy: a closed interval of
//! whole milliseconds. A degenerate interval always yields its single value;
//! otherwise a sample is drawn uniformly from the interval.

use vstd::prelude::*;

use crate::cli::HoldRange;

verus! {

/// Relies on `rand::Rng::gen_range` over a thread-local generator: sampling
/// `min..=max` panics only when the range is empty and otherwise returns a
/// value inside it. Nothing more can be said of a random draw.
#[verifier::external_body]
fn random_in_range(min: u64, max: u64) -> (r: u64)
    requires
        min <= max,
    ensures
        min <= r <= max,
{
    rand::Rng::gen_range(&mut rand::thread_rng(), min..=max)
}

/// An inclusive range of hold times, in whole milliseconds.
pub struct HoldDurations {
    pub min_ms: u64,
    pub max_ms: u64,
}

impl HoldDurations {
    /// A usable range is not inverted. Configuration validation rejects
    /// inverted ranges before a sampler is ever built.
    pub open spec fn wf(self) -> bool {
        self.min_ms <= self.max_ms
    }

    /// Draw one hold duration in milliseconds. Every sample lies in
    /// `[min_ms, max_ms]`; a degenerate range yields its single value
    /// exactly, without consulting the generator.
    pub fn sample_duration(&self) -> (ms: u64)
        requires
            self.wf(),
        ensures
            self.min_ms <= ms <= self.max_ms,
            self.min_ms == self.max_ms ==> ms == self.min_ms,
    {
        if self.min_ms == self.max_ms {
            return self.min_ms;
        }
        random_in_range(self.min_ms, self.max_ms)
    }

    /// The shortest hold this range can yield, in milliseconds.
    pub fn min_duration(&self) -> (ms: u64)
        ensures
            ms == self.min_ms,
    {
        self.min_ms
    }

    /// The longest hold this range can yield, in milliseconds.
    pub fn max_duration(&self) -> (ms: u64)
        ensures
            ms == self.max_ms,
    {
        self.max_ms
    }
}

impl From<HoldRange> for HoldDurations {
    fn from(range: HoldRange) -> (d: Self) {
        HoldDurations { min_ms: range.min_ms, max_ms: range.max_ms }
    }
}

impl vstd::std_specs::convert::FromSpecImpl<HoldRange> for HoldDurations {
    open spec fn obeys_from_spec() -> bool {
        true
    }

    open spec fn from_spec(range: HoldRange) -> Self {
        HoldDurations { min_ms: range.min_ms, max_ms: range.max_ms }
    }
}

} // verus!
