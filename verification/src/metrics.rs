//! Aggregate outcome counters.
//!
//! Each run owns one counter set: [`ReceiverMetrics`] for the accept side and
//! [`InitiatorMetrics`] for the connect side. The monotonic counters only
//! ever grow; the `active` gauge grows on success (or accept) and shrinks,
//! saturating at zero, on completion (or disconnect). A snapshot reads every
//! counter; no cross-field atomicity is promised to concurrent observers, and
//! none is needed, since no documented invariant spans more than one counter.

use vstd::prelude::*;

verus! {

/// Decrease a gauge by one, saturating at zero.
pub fn decrement(value: u64) -> (r: u64)
    ensures
        r == if value > 0 { (value - 1) as u64 } else { 0u64 },
{
    if value > 0 {
        value - 1
    } else {
        0
    }
}

/// Counters kept by the passive accept side.
pub struct ReceiverMetrics {
    pub accepts: u64,
    pub disconnects: u64,
    pub errors: u64,
    pub active: u64,
}

/// A point-in-time copy of every receiver counter.
#[derive(Clone, Copy, Debug, PartialEq, Eq, Structural)]
pub struct ReceiverSnapshot {
    pub accepted: u64,
    pub closed: u64,
    pub errors: u64,
    pub active: u64,
}

impl ReceiverMetrics {
    /// All counters start at zero and live for the whole run.
    pub fn new() -> (m: Self)
        ensures
            m.accepts == 0,
            m.disconnects == 0,
            m.errors == 0,
            m.active == 0,
    {
        ReceiverMetrics { accepts: 0, disconnects: 0, errors: 0, active: 0 }
    }

    /// One inbound connection was accepted: it is now active.
    pub fn record_accept(&mut self)
        requires
            old(self).accepts < u64::MAX,
            old(self).active < u64::MAX,
        ensures
            final(self).accepts == old(self).accepts + 1,
            final(self).active == old(self).active + 1,
            final(self).disconnects == old(self).disconnects,
            final(self).errors == old(self).errors,
    {
        self.accepts = self.accepts + 1;
        self.active = self.active + 1;
    }

    /// One accepted connection reached end-of-stream or failed: it is no
    /// longer active. The gauge saturates at zero.
    pub fn record_disconnect(&mut self)
        requires
            old(self).disconnects < u64::MAX,
        ensures
            final(self).disconnects == old(self).disconnects + 1,
            final(self).active == if old(self).active > 0 {
                (old(self).active - 1) as u64
            } else {
                0u64
            },
            final(self).accepts == old(self).accepts,
            final(self).errors == old(self).errors,
    {
        self.disconnects = self.disconnects + 1;
        self.active = decrement(self.active);
    }

    /// An accept or read failed; the loop carries on.
    pub fn record_error(&mut self)
        requires
            old(self).errors < u64::MAX,
        ensures
            final(self).errors == old(self).errors + 1,
            final(self).accepts == old(self).accepts,
            final(self).disconnects == old(self).disconnects,
            final(self).active == old(self).active,
    {
        self.errors = self.errors + 1;
    }

    /// Read every counter once.
    pub fn snapshot(&self) -> (s: ReceiverSnapshot)
        ensures
            s.accepted == self.accepts,
            s.closed == self.disconnects,
            s.errors == self.errors,
            s.active == self.active,
    {
        ReceiverSnapshot {
            accepted: self.accepts,
            closed: self.disconnects,
            errors: self.errors,
            active: self.active,
        }
    }
}

impl Default for ReceiverMetrics {
    fn default() -> (m: Self)
        ensures
            m.accepts == 0,
            m.disconnects == 0,
            m.errors == 0,
            m.active == 0,
    {
        ReceiverMetrics::new()
    }
}

/// Counters kept by the connect side.
pub struct InitiatorMetrics {
    pub attempted: u64,
    pub succeeded: u64,
    pub failed: u64,
    pub throttled: u64,
    pub active: u64,
    pub completed: u64,
}

/// A point-in-time copy of every initiator counter.
#[derive(Clone, Copy, Debug, PartialEq, Eq, Structural)]
pub struct InitiatorSnapshot {
    pub attempted: u64,
    pub succeeded: u64,
    pub failed: u64,
    pub throttled: u64,
    pub active: u64,
    pub completed: u64,
}

impl InitiatorMetrics {
    /// All counters start at zero and live for the whole run.
    pub fn new() -> (m: Self)
        ensures
            m.attempted == 0,
            m.succeeded == 0,
            m.failed == 0,
            m.throttled == 0,
            m.active == 0,
            m.completed == 0,
    {
        InitiatorMetrics {
            attempted: 0,
            succeeded: 0,
            failed: 0,
            throttled: 0,
            active: 0,
            completed: 0,
        }
    }

    /// A worker began one outbound connection attempt.
    pub fn record_attempt(&mut self)
        requires
            old(self).attempted < u64::MAX,
        ensures
            final(self).attempted == old(self).attempted + 1,
            final(self).succeeded == old(self).succeeded,
            final(self).failed == old(self).failed,
            final(self).throttled == old(self).throttled,
            final(self).active == old(self).active,
            final(self).completed == old(self).completed,
    {
        self.attempted = self.attempted + 1;
    }

    /// A connection was established: it is now active.
    pub fn record_success(&mut self)
        requires
            old(self).succeeded < u64::MAX,
            old(self).active < u64::MAX,
        ensures
            final(self).succeeded == old(self).succeeded + 1,
            final(self).active == old(self).active + 1,
            final(self).attempted == old(self).attempted,
            final(self).failed == old(self).failed,
            final(self).throttled == old(self).throttled,
            final(self).completed == old(self).completed,
    {
        self.succeeded = self.succeeded + 1;
        self.active = self.active + 1;
    }

    /// A connection attempt failed to establish.
    pub fn record_failure(&mut self)
        requires
            old(self).failed < u64::MAX,
        ensures
            final(self).failed == old(self).failed + 1,
            final(self).attempted == old(self).attempted,
            final(self).succeeded == old(self).succeeded,
            final(self).throttled == old(self).throttled,
            final(self).active == old(self).active,
            final(self).completed == old(self).completed,
    {
        self.failed = self.failed + 1;
    }

    /// An established connection ran its full hold and was closed: it is no
    /// longer active. The gauge saturates at zero.
    pub fn record_completion(&mut self)
        requires
            old(self).completed < u64::MAX,
        ensures
            final(self).completed == old(self).completed + 1,
            final(self).active == if old(self).active > 0 {
                (old(self).active - 1) as u64
            } else {
                0u64
            },
            final(self).attempted == old(self).attempted,
            final(self).succeeded == old(self).succeeded,
            final(self).failed == old(self).failed,
            final(self).throttled == old(self).throttled,
    {
        self.completed = self.completed + 1;
        self.active = decrement(self.active);
    }

    /// A tick was shed because the pool had no free permit.
    pub fn record_throttled(&mut self)
        requires
            old(self).throttled < u64::MAX,
        ensures
            final(self).throttled == old(self).throttled + 1,
            final(self).attempted == old(self).attempted,
            final(self).succeeded == old(self).succeeded,
            final(self).failed == old(self).failed,
            final(self).active == old(self).active,
            final(self).completed == old(self).completed,
    {
        self.throttled = self.throttled + 1;
    }

    /// Read every counter once.
    pub fn snapshot(&self) -> (s: InitiatorSnapshot)
        ensures
            s.attempted == self.attempted,
            s.succeeded == self.succeeded,
            s.failed == self.failed,
            s.throttled == self.throttled,
            s.active == self.active,
            s.completed == self.completed,
    {
        InitiatorSnapshot {
            attempted: self.attempted,
            succeeded: self.succeeded,
            failed: self.failed,
            throttled: self.throttled,
            active: self.active,
            completed: self.completed,
        }
    }
}

impl Default for InitiatorMetrics {
    fn default() -> (m: Self)
        ensures
            m.attempted == 0,
            m.succeeded == 0,
            m.failed == 0,
            m.throttled == 0,
            m.active == 0,
            m.completed == 0,
    {
        InitiatorMetrics::new()
    }
}

} // verus!
