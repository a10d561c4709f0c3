//! Cooperative shutdown signalling.
//!
//! A [`ShutdownCoordinator`] transitions from running to stopping at most
//! meaningfully once: redundant stop requests are no-ops. It is observed by
//! polling; it never resets. Already-dispatched workers are deliberately not
//! cancelled by it — only the scheduler and the periodic reporter poll it.

use vstd::prelude::*;

verus! {

/// A once-settable cooperative cancellation signal.
pub struct ShutdownCoordinator {
    pub stopped: bool,
}

/// The state a coordinator is in after a stop request, whatever state it was
/// in before.
pub open spec fn stop_state(s: ShutdownCoordinator) -> ShutdownCoordinator {
    ShutdownCoordinator { stopped: true }
}

impl ShutdownCoordinator {
    /// Whether a stop has been requested.
    pub open spec fn is_stopped(self) -> bool {
        self.stopped
    }

    /// A fresh coordinator is running: no stop has been requested yet.
    pub fn new() -> (s: Self)
        ensures
            !s.is_stopped(),
    {
        ShutdownCoordinator { stopped: false }
    }

    /// Request a stop. Idempotent: the resulting state does not depend on
    /// whether a stop was already requested.
    pub fn request_stop(&mut self)
        ensures
            *final(self) == stop_state(*old(self)),
            final(self).is_stopped(),
    {
        self.stopped = true;
    }

    /// Poll the signal.
    pub fn should_stop(&self) -> (r: bool)
        ensures
            r == self.is_stopped(),
    {
        self.stopped
    }
}

/// Requesting a stop twice leaves the coordinator in exactly the state that a
/// single request leaves it in: the signal is idempotent.
pub proof fn lemma_stop_idempotent(s: ShutdownCoordinator)
    ensures
        stop_state(stop_state(s)) == stop_state(s),
{
}

} // verus!
