use rush::admission::AdmissionController;
use rush::arrival::{ArrivalGenerator, FixedInterval};
use rush::config::HoldDurations;
use rush::initiator::{InitiatorEngine, TickOutcome};
use rush::metrics::{InitiatorMetrics, ReceiverMetrics};
use rush::receiver::{on_accept_outcome, on_read_event, ReadEvent};
use rush::shutdown::ShutdownCoordinator;

#[test]
fn fixed_interval_emits_its_period() {
    let mut generator = FixedInterval::new(25_000_000);
    assert_eq!(generator.period_ns, 25_000_000);
    assert_eq!(generator.next_delay(), 25_000_000);
    assert_eq!(generator.next_delay(), 25_000_000);
}

#[test]
fn degenerate_hold_range_samples_exactly() {
    let hold = HoldDurations { min_ms: 1000, max_ms: 1000 };
    for _ in 0..32 {
        assert_eq!(hold.sample_duration(), 1000);
    }
    assert_eq!(hold.min_duration(), 1000);
    assert_eq!(hold.max_duration(), 1000);
}

#[test]
fn hold_samples_stay_in_range() {
    let hold = HoldDurations { min_ms: 10, max_ms: 50 };
    for _ in 0..256 {
        let ms = hold.sample_duration();
        assert!((10..=50).contains(&ms), "sample {ms} outside 10..=50");
    }
}

#[test]
fn hold_sampling_actually_draws() {
    // A sampler that always echoed one bound back would fail this with
    // overwhelming probability.
    let hold = HoldDurations { min_ms: 0, max_ms: 1000 };
    let samples: Vec<u64> = (0..64).map(|_| hold.sample_duration()).collect();
    assert!(samples.iter().any(|&ms| ms != 0), "samples stuck at the minimum");
    assert!(samples.iter().any(|&ms| ms != 1000), "samples stuck at the maximum");
}

#[test]
fn hold_durations_from_hold_range() {
    let range = rush::cli::HoldRange { min_ms: 10, max_ms: 50 };
    let hold = HoldDurations::from(range);
    assert_eq!(hold.min_duration(), 10);
    assert_eq!(hold.max_duration(), 50);
}

#[test]
fn admission_sheds_load_and_recycles_permits() {
    let mut pool = AdmissionController::new(2);
    assert_eq!(pool.max_permits(), 2);
    assert_eq!(pool.free_permits(), 2);

    let first = pool.try_acquire().expect("first permit");
    let second = pool.try_acquire().expect("second permit");
    assert!(pool.try_acquire().is_none(), "exhausted pool must shed");
    assert_eq!(pool.free_permits(), 0);

    pool.release(first);
    assert_eq!(pool.free_permits(), 1);
    let third = pool.try_acquire().expect("released permit is reusable");
    pool.release(third);
    pool.release(second);
    assert_eq!(pool.free_permits(), 2);
}

#[test]
fn shutdown_signal_is_idempotent() {
    let mut signal = ShutdownCoordinator::new();
    assert!(!signal.should_stop());
    signal.request_stop();
    let after_once = signal.should_stop();
    signal.request_stop();
    let after_twice = signal.should_stop();
    assert!(after_once);
    assert_eq!(after_once, after_twice);
}

#[test]
fn initiator_metrics_count_each_event() {
    let mut metrics = InitiatorMetrics::new();
    metrics.record_attempt();
    metrics.record_attempt();
    metrics.record_success();
    metrics.record_failure();
    metrics.record_throttled();
    let snapshot = metrics.snapshot();
    assert_eq!(snapshot.attempted, 2);
    assert_eq!(snapshot.succeeded, 1);
    assert_eq!(snapshot.failed, 1);
    assert_eq!(snapshot.throttled, 1);
    assert_eq!(snapshot.active, 1);
    assert_eq!(snapshot.completed, 0);

    metrics.record_completion();
    let done = metrics.snapshot();
    assert_eq!(done.completed, 1);
    assert_eq!(done.active, 0);
}

#[test]
fn active_gauge_saturates_at_zero() {
    let mut metrics = InitiatorMetrics::new();
    metrics.record_completion();
    assert_eq!(metrics.snapshot().active, 0);
    assert_eq!(metrics.snapshot().completed, 1);

    let mut receiver = ReceiverMetrics::new();
    receiver.record_disconnect();
    let snapshot = receiver.snapshot();
    assert_eq!(snapshot.active, 0);
    assert_eq!(snapshot.closed, 1);
}

#[test]
fn receiver_events_count_correctly() {
    let mut metrics = ReceiverMetrics::new();
    on_accept_outcome(&mut metrics, true);
    on_accept_outcome(&mut metrics, false);
    let snapshot = metrics.snapshot();
    assert_eq!(snapshot.accepted, 1);
    assert_eq!(snapshot.errors, 1);
    assert_eq!(snapshot.active, 1);

    assert!(!on_read_event(&mut metrics, ReadEvent::Data));
    assert!(on_read_event(&mut metrics, ReadEvent::Eof));
    let closed = metrics.snapshot();
    assert_eq!(closed.closed, 1);
    assert_eq!(closed.active, 0);
    assert_eq!(closed.errors, 1);

    on_accept_outcome(&mut metrics, true);
    assert!(on_read_event(&mut metrics, ReadEvent::Failed));
    let failed = metrics.snapshot();
    assert_eq!(failed.closed, 2);
    assert_eq!(failed.errors, 2);
    assert_eq!(failed.active, 0);
}

#[test]
fn engine_never_admits_beyond_capacity() {
    let mut engine = InitiatorEngine::new(2, HoldDurations { min_ms: 5, max_ms: 5 });
    let mut permits = Vec::new();
    let mut admitted: u32 = 0;
    for _ in 0..10 {
        match engine.tick() {
            TickOutcome::Admitted(attempt, permit) => {
                assert_eq!(attempt.hold_ms, 5);
                engine.worker_connected();
                permits.push(permit);
                admitted += 1;
            }
            TickOutcome::Throttled => {}
            TickOutcome::Stopped => unreachable!("engine is running"),
        }
        let snapshot = engine.metrics.snapshot();
        assert!(snapshot.active <= 2, "active {} exceeds capacity", snapshot.active);
    }
    assert_eq!(admitted, 2);
    let snapshot = engine.metrics.snapshot();
    assert_eq!(snapshot.attempted, 2);
    assert_eq!(snapshot.succeeded, 2);
    assert_eq!(snapshot.throttled, 8);
    for permit in permits {
        engine.worker_completed(permit);
    }
    let done = engine.metrics.snapshot();
    assert_eq!(done.completed, 2);
    assert_eq!(done.active, 0);
}

#[test]
fn throttled_tick_does_not_count_an_attempt() {
    let mut engine = InitiatorEngine::new(1, HoldDurations { min_ms: 1, max_ms: 2 });
    let outcome = engine.tick();
    let permit = match outcome {
        TickOutcome::Admitted(attempt, permit) => {
            assert!((1..=2).contains(&attempt.hold_ms));
            permit
        }
        _ => panic!("first tick must be admitted"),
    };
    assert_eq!(engine.metrics.snapshot().attempted, 1);

    assert!(matches!(engine.tick(), TickOutcome::Throttled));
    let snapshot = engine.metrics.snapshot();
    assert_eq!(snapshot.throttled, 1);
    assert_eq!(snapshot.attempted, 1, "a shed tick never counts as attempted");

    engine.worker_connect_failed(permit);
    let after_failure = engine.metrics.snapshot();
    assert_eq!(after_failure.failed, 1);
    assert_eq!(after_failure.active, 0);

    assert!(
        matches!(engine.tick(), TickOutcome::Admitted(_, _)),
        "a released permit readmits the next tick"
    );
}

#[test]
fn stopped_engine_issues_no_work() {
    let mut engine = InitiatorEngine::new(4, HoldDurations { min_ms: 1, max_ms: 1 });
    engine.request_shutdown();
    assert!(matches!(engine.tick(), TickOutcome::Stopped));
    engine.request_shutdown();
    assert!(matches!(engine.tick(), TickOutcome::Stopped));
    let snapshot = engine.metrics.snapshot();
    assert_eq!(snapshot.attempted, 0);
    assert_eq!(snapshot.throttled, 0);
}
