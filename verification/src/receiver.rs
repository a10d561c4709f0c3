//! Decision rules for the passive accept side.
//!
//! The accept loop and the per-connection read loop are plain transport
//! plumbing; what they decide — which counter each outcome bumps and when a
//! connection is finished — is captured here, so the loops outside the
//! library only relay outcomes.

use vstd::prelude::*;

use crate::metrics::ReceiverMetrics;

verus! {

/// The outcome of one read on an accepted connection.
#[derive(Clone, Copy, Debug, PartialEq, Eq, Structural)]
pub enum ReadEvent {
    /// End of stream: the peer closed in an orderly way.
    Eof,
    /// Some bytes arrived; their content is discarded.
    Data,
    /// The read failed.
    Failed,
}

/// Count one accept-loop outcome: an accepted connection becomes active, a
/// failed accept counts one error and the loop carries on.
pub fn on_accept_outcome(metrics: &mut ReceiverMetrics, accepted: bool)
    requires
        old(metrics).accepts < u64::MAX,
        old(metrics).active < u64::MAX,
        old(metrics).errors < u64::MAX,
    ensures
        accepted ==> final(metrics).accepts == old(metrics).accepts + 1 && final(metrics).active
            == old(metrics).active + 1 && final(metrics).errors == old(metrics).errors,
        !accepted ==> final(metrics).errors == old(metrics).errors + 1 && final(metrics).accepts
            == old(metrics).accepts && final(metrics).active == old(metrics).active,
        final(metrics).disconnects == old(metrics).disconnects,
    {
    if accepted {
        metrics.record_accept();
    } else {
        metrics.record_error();
    }
}

/// Count one read outcome and say whether the connection is finished.
///
/// Data keeps the connection alive and counts nothing. End of stream ends it
/// as a disconnect. A failed read ends it too, counting both an error and a
/// disconnect, as the peer is gone either way.
pub fn on_read_event(metrics: &mut ReceiverMetrics, event: ReadEvent) -> (done: bool)
    requires
        old(metrics).disconnects < u64::MAX,
        old(metrics).errors < u64::MAX,
    ensures
        done <==> !(event is Data),
        event is Data ==> *final(metrics) == *old(metrics),
        event is Eof ==> final(metrics).disconnects == old(metrics).disconnects + 1 && final(metrics).errors == old(metrics).errors,
        event is Failed ==> final(metrics).disconnects == old(metrics).disconnects + 1 && final(metrics).errors == old(metrics).errors + 1,
        !(event is Data) ==> final(metrics).active == (if old(metrics).active > 0 {
            (old(metrics).active - 1) as u64
        } else {
            0u64
        }),
        final(metrics).accepts == old(metrics).accepts,
    {
    match event {
        ReadEvent::Data => false,
        ReadEvent::Eof => {
            metrics.record_disconnect();
            true
        },
        ReadEvent::Failed => {
            metrics.record_error();
            metrics.record_disconnect();
            true
        },
    }
}

} // verus!
