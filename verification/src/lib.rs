//! A lightweight network stress-testing library.
//!
//! The verified core models the initiator engine: periodic arrival ticks,
//! bounded-concurrency admission with load shedding, the per-connection
//! worker lifecycle, aggregate outcome counters, and a cooperative,
//! idempotent shutdown signal. Network and timer plumbing live outside
//! the library and drive these components through their public methods.

pub mod admission;
pub mod arrival;
pub mod cli;
pub mod config;
pub mod initiator;
pub mod metrics;
pub mod receiver;
pub mod shutdown;
