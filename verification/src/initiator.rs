//! The initiator engine: arrival ticks, admission, and the worker lifecycle.
//!
//! The engine is the decision core of the connect side. The surrounding
//! runtime delivers events to it — a scheduler tick, a connect outcome, a
//! worker completion — and performs the timing and network work the engine
//! asks for. On a tick the engine either admits one new connection attempt,
//! handing out a permit and a freshly sampled hold duration, or sheds the
//! tick as throttled when no permit is free; it never queues or retries.
//! Worker events update the aggregate counters and return the permit on
//! every exit path, so the number of admitted-but-not-completed connections
//! can never exceed the configured capacity.

use vstd::prelude::*;

use crate::admission::{AdmissionController, Permit};
use crate::config::HoldDurations;
use crate::metrics::InitiatorMetrics;
use crate::shutdown::ShutdownCoordinator;

verus! {

/// One granted connection attempt: how long the connection, once
/// established, is to be held open, in milliseconds.
#[derive(Clone, Copy, Debug, PartialEq, Eq, Structural)]
pub struct ConnectionAttempt {
    pub hold_ms: u64,
}

/// What the engine decided on one scheduler tick.
pub enum TickOutcome {
    /// A permit was free: start one worker, carrying the permit and the
    /// sampled attempt.
    Admitted(ConnectionAttempt, Permit),
    /// No permit was free: the tick was shed, not queued.
    Throttled,
    /// Shutdown was requested: issue no further ticks.
    Stopped,
}

/// The connect-side decision core: admission pool, counters, hold-duration
/// policy, and the cooperative shutdown signal.
pub struct InitiatorEngine {
    pub pool: AdmissionController,
    pub metrics: InitiatorMetrics,
    pub hold: HoldDurations,
    pub shutdown: ShutdownCoordinator,
}

impl InitiatorEngine {
    /// The engine's global invariant, established at construction and
    /// preserved by every event:
    /// the pool is well formed and the hold range is not inverted; no more
    /// connections succeeded or failed than were attempted; no more
    /// completed than succeeded; the `active` gauge equals the established
    /// connections not yet completed; and the permits held by workers are
    /// exactly the attempts that have released neither by failing nor by
    /// completing.
    pub open spec fn inv(self) -> bool {
        &&& self.pool.inv()
        &&& self.hold.wf()
        &&& self.metrics.succeeded + self.metrics.failed <= self.metrics.attempted
        &&& self.metrics.completed <= self.metrics.succeeded
        &&& self.metrics.active == self.metrics.succeeded - self.metrics.completed
        &&& self.metrics.attempted - self.metrics.failed - self.metrics.completed
            == self.pool.outstanding()
    }

    /// Whether the next tick would admit a worker: the engine is running and
    /// a permit is free.
    pub open spec fn can_admit(self) -> bool {
        &&& !self.shutdown.is_stopped()
        &&& self.pool.free > 0
    }

    /// A worker is between its connect call and that call's outcome.
    pub open spec fn has_connect_pending(self) -> bool {
        self.metrics.attempted > self.metrics.succeeded + self.metrics.failed
    }

    /// A worker holds an established connection it has not yet completed.
    pub open spec fn has_completion_pending(self) -> bool {
        self.metrics.completed < self.metrics.succeeded
    }

    /// Build an engine for at most `max_open` concurrently open connections
    /// and the given hold policy. Everything starts at zero and running.
    pub fn new(max_open: usize, hold: HoldDurations) -> (e: Self)
        requires
            max_open > 0,
            hold.wf(),
        ensures
            e.inv(),
            e.pool.capacity == max_open,
            e.pool.free == max_open,
            e.hold == hold,
            !e.shutdown.is_stopped(),
            e.metrics.attempted == 0,
            e.metrics.succeeded == 0,
            e.metrics.failed == 0,
            e.metrics.throttled == 0,
            e.metrics.active == 0,
            e.metrics.completed == 0,
    {
        InitiatorEngine {
            pool: AdmissionController::new(max_open),
            metrics: InitiatorMetrics::new(),
            hold,
            shutdown: ShutdownCoordinator::new(),
        }
    }

    /// Handle one scheduler tick.
    ///
    /// Once shutdown is requested the tick does nothing. Otherwise the tick
    /// is admitted exactly when a permit is free: admission takes one permit
    /// and counts one attempt; exhaustion counts the tick as throttled and
    /// leaves every other counter — `attempted` above all — and the pool
    /// untouched. An admitted attempt carries a hold duration inside the
    /// configured range, equal to its single value when the range is
    /// degenerate.
    pub fn tick(&mut self) -> (outcome: TickOutcome)
        requires
            old(self).inv(),
            old(self).metrics.attempted < u64::MAX,
            old(self).metrics.throttled < u64::MAX,
        ensures
            final(self).inv(),
            final(self).hold == old(self).hold,
            final(self).shutdown == old(self).shutdown,
            final(self).pool.capacity == old(self).pool.capacity,
            old(self).shutdown.is_stopped() ==> outcome is Stopped && *final(self) == *old(self),
            !old(self).shutdown.is_stopped() ==> ((outcome is Admitted) <==> old(self).can_admit()),
            old(self).can_admit() ==> final(self).metrics.attempted == old(self).metrics.attempted
                + 1,
            old(self).can_admit() ==> final(self).pool.free == old(self).pool.free - 1,
            old(self).can_admit() ==> final(self).metrics.throttled == old(self).metrics.throttled,
            !old(self).shutdown.is_stopped() && old(self).pool.free == 0 ==> outcome is Throttled,
            !old(self).shutdown.is_stopped() && old(self).pool.free == 0 ==> final(self).metrics.throttled == old(self).metrics.throttled + 1,
            !old(self).shutdown.is_stopped() && old(self).pool.free == 0 ==> final(self).metrics.attempted == old(self).metrics.attempted,
            !old(self).shutdown.is_stopped() && old(self).pool.free == 0 ==> final(self).pool
                == old(self).pool,
            final(self).metrics.succeeded == old(self).metrics.succeeded,
            final(self).metrics.failed == old(self).metrics.failed,
            final(self).metrics.active == old(self).metrics.active,
            final(self).metrics.completed == old(self).metrics.completed,
            outcome matches TickOutcome::Admitted(attempt, _) ==> old(self).hold.min_ms
                <= attempt.hold_ms <= old(self).hold.max_ms,
            outcome matches TickOutcome::Admitted(attempt, _) ==> (old(self).hold.min_ms == old(self).hold.max_ms ==> attempt.hold_ms == old(self).hold.min_ms),
    {
        if self.shutdown.should_stop() {
            return TickOutcome::Stopped;
        }
        match self.pool.try_acquire() {
            Some(permit) => {
                self.metrics.record_attempt();
                let hold_ms = self.hold.sample_duration();
                TickOutcome::Admitted(ConnectionAttempt { hold_ms }, permit)
            },
            None => {
                self.metrics.record_throttled();
                TickOutcome::Throttled
            },
        }
    }

    /// An admitted worker's connect call came back established: the
    /// connection becomes active. The worker keeps its permit for the whole
    /// hold.
    pub fn worker_connected(&mut self)
        requires
            old(self).inv(),
            old(self).has_connect_pending(),
        ensures
            final(self).inv(),
            final(self).metrics.succeeded == old(self).metrics.succeeded + 1,
            final(self).metrics.active == old(self).metrics.active + 1,
            final(self).metrics.attempted == old(self).metrics.attempted,
            final(self).metrics.failed == old(self).metrics.failed,
            final(self).metrics.throttled == old(self).metrics.throttled,
            final(self).metrics.completed == old(self).metrics.completed,
            final(self).pool == old(self).pool,
            final(self).hold == old(self).hold,
            final(self).shutdown == old(self).shutdown,
    {
        self.metrics.record_success();
    }

    /// An admitted worker's connect call failed: the attempt is abandoned —
    /// no retry — and the worker's permit goes straight back to the pool.
    pub fn worker_connect_failed(&mut self, permit: Permit)
        requires
            old(self).inv(),
            old(self).has_connect_pending(),
        ensures
            final(self).inv(),
            *final(self) == spec_fail(*old(self)),
            final(self).metrics.failed == old(self).metrics.failed + 1,
            final(self).pool.free == old(self).pool.free + 1,
            final(self).metrics.attempted == old(self).metrics.attempted,
    {
        self.metrics.record_failure();
        self.pool.release(permit);
    }

    /// An active worker ran its full hold and closed: the connection is
    /// complete, no longer active, and its permit goes back to the pool.
    pub fn worker_completed(&mut self, permit: Permit)
        requires
            old(self).inv(),
            old(self).has_completion_pending(),
        ensures
            final(self).inv(),
            *final(self) == spec_complete(*old(self)),
            final(self).metrics.completed == old(self).metrics.completed + 1,
            final(self).metrics.active == old(self).metrics.active - 1,
            final(self).pool.free == old(self).pool.free + 1,
    {
        self.metrics.record_completion();
        self.pool.release(permit);
    }

    /// Ask the engine to stop issuing ticks. Idempotent; already-admitted
    /// workers are not cancelled and still deliver their events.
    pub fn request_shutdown(&mut self)
        ensures
            final(self).shutdown == crate::shutdown::stop_state(old(self).shutdown),
            final(self).pool == old(self).pool,
            final(self).metrics == old(self).metrics,
            final(self).hold == old(self).hold,
            old(self).inv() ==> final(self).inv(),
    {
        self.shutdown.request_stop();
    }
}

/// The engine state after a worker's failure path: one more failure, the
/// permit back in the pool, everything else untouched.
pub open spec fn spec_fail(e: InitiatorEngine) -> InitiatorEngine {
    InitiatorEngine {
        pool: AdmissionController { free: (e.pool.free + 1) as usize, capacity: e.pool.capacity },
        metrics: InitiatorMetrics {
            failed: (e.metrics.failed + 1) as u64,
            attempted: e.metrics.attempted,
            succeeded: e.metrics.succeeded,
            throttled: e.metrics.throttled,
            active: e.metrics.active,
            completed: e.metrics.completed,
        },
        hold: e.hold,
        shutdown: e.shutdown,
    }
}

/// The engine state after a worker's success path ends: one more completion,
/// the gauge down by one, the permit back in the pool.
pub open spec fn spec_complete(e: InitiatorEngine) -> InitiatorEngine {
    InitiatorEngine {
        pool: AdmissionController { free: (e.pool.free + 1) as usize, capacity: e.pool.capacity },
        metrics: InitiatorMetrics {
            completed: (e.metrics.completed + 1) as u64,
            active: if e.metrics.active > 0 {
                (e.metrics.active - 1) as u64
            } else {
                0u64
            },
            attempted: e.metrics.attempted,
            succeeded: e.metrics.succeeded,
            failed: e.metrics.failed,
            throttled: e.metrics.throttled,
        },
        hold: e.hold,
        shutdown: e.shutdown,
    }
}

/// Bounded concurrency: under the invariant, the number of simultaneously
/// active (admitted-but-not-completed) connections never exceeds the
/// configured capacity, whatever the arrival rate or hold distribution did
/// to the other counters.
pub proof fn lemma_active_never_exceeds_capacity(e: InitiatorEngine)
    requires
        e.inv(),
    ensures
        e.metrics.active <= e.pool.capacity,
{
}

/// Gauge consistency: under the invariant the active gauge is never negative
/// and completions never outnumber successes.
pub proof fn lemma_counters_consistent(e: InitiatorEngine)
    requires
        e.inv(),
    ensures
        e.metrics.active >= 0,
        e.metrics.completed <= e.metrics.succeeded,
{
}

/// Permit recycling, success path: once a worker completes, the pool has a
/// free permit again, so the next tick of a running engine is admitted.
pub proof fn lemma_permit_recycled_after_completion(e: InitiatorEngine)
    requires
        e.inv(),
        e.has_completion_pending(),
    ensures
        spec_complete(e).pool.free > 0,
        spec_complete(e).inv(),
        !e.shutdown.is_stopped() ==> spec_complete(e).can_admit(),
{
}

/// Permit recycling, failure path: once a worker's connect fails, the pool
/// has a free permit again, so the next tick of a running engine is admitted.
pub proof fn lemma_permit_recycled_after_failure(e: InitiatorEngine)
    requires
        e.inv(),
        e.has_connect_pending(),
    ensures
        spec_fail(e).pool.free > 0,
        spec_fail(e).inv(),
        !e.shutdown.is_stopped() ==> spec_fail(e).can_admit(),
{
}

} // verus!
