use std::time::Duration;

use getitdone::heartbeat::{
    classify_heartbeat_result, heartbeat_interval, stale_recovery_interval, HeartbeatOutcome,
};
use getitdone::RequestError;

#[test]
fn classify_heartbeat_result_distinguishes_superseded_from_transient_error() {
    assert_eq!(classify_heartbeat_result(Ok(true)), HeartbeatOutcome::Alive);
    assert_eq!(
        classify_heartbeat_result(Ok(false)),
        HeartbeatOutcome::Superseded
    );
    assert_eq!(
        classify_heartbeat_result(Err(RequestError::Database("connection reset".into()))),
        HeartbeatOutcome::TransientError
    );
    assert_eq!(
        classify_heartbeat_result(Err(RequestError::Timeout)),
        HeartbeatOutcome::TransientError
    );
}

#[test]
fn stale_recovery_interval_is_rare_fallback_detector() {
    assert_eq!(stale_recovery_interval(), Duration::from_secs(10 * 60));
}

#[test]
fn heartbeat_interval_is_a_third_of_the_timeout() {
    assert_eq!(
        heartbeat_interval(Duration::from_secs(10)),
        Duration::from_secs(10) / 3
    );
    assert_eq!(heartbeat_interval(Duration::MAX), Duration::MAX / 3);
    assert_eq!(heartbeat_interval(Duration::ZERO), Duration::ZERO);
    assert_eq!(
        heartbeat_interval(Duration::from_nanos(2)),
        Duration::from_nanos(0)
    );
}
