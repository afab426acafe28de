use ocpp_client::keepalive::{
    interval_to_millis, keepalive_step, millis_to_interval, normalize_ping_interval,
    KeepaliveMonitor, KeepaliveState, KeepaliveStep,
};
use ocpp_client::{Duration, KeepaliveBehavior, KeepalivePolicy};

#[test]
fn zero_interval_reads_as_disabled() {
    let behavior = KeepaliveBehavior::Enabled(KeepalivePolicy::every(Duration::zero()));
    assert_eq!(behavior.initial_interval(), None);
}

#[test]
fn disabled_still_carries_a_policy_for_later_enabling() {
    assert_eq!(
        KeepaliveBehavior::Disabled.policy(),
        KeepalivePolicy::default()
    );
    assert_eq!(KeepaliveBehavior::Disabled.initial_interval(), None);
}

#[test]
fn zero_misses_allowed_normalizes_to_one() {
    let policy = KeepalivePolicy {
        max_missed: 0,
        ..KeepalivePolicy::default()
    };
    assert_eq!(policy.misses_allowed(), 1);
}

#[test]
fn default_tolerates_one_miss_before_redialling() {
    assert_eq!(KeepalivePolicy::default().misses_allowed(), 2);
    assert_eq!(KeepalivePolicy::default().interval, Duration::from_secs(60));
}

#[test]
fn enabled_behavior_starts_with_its_interval() {
    let behavior = KeepaliveBehavior::Enabled(KeepalivePolicy::every(Duration::from_secs(30)));
    assert_eq!(behavior.initial_interval(), Some(Duration::from_secs(30)));
    assert_eq!(behavior.policy().interval, Duration::from_secs(30));
    assert_eq!(KeepaliveBehavior::default(), KeepaliveBehavior::Disabled);
}

#[test]
fn ping_timeout_falls_back_to_the_request_timeout() {
    let policy = KeepalivePolicy::default();
    assert_eq!(policy.ping_timeout(Duration::from_secs(5)), Duration::from_secs(5));
    let own = KeepalivePolicy {
        timeout: Some(Duration::from_millis(250)),
        ..KeepalivePolicy::default()
    };
    assert_eq!(own.ping_timeout(Duration::from_secs(5)), Duration::from_millis(250));
}

#[test]
fn interval_millis_round_trip_and_cap() {
    assert_eq!(interval_to_millis(None), 0);
    assert_eq!(interval_to_millis(Some(Duration::from_secs(90))), 90_000);
    assert_eq!(interval_to_millis(Some(Duration::from_nanos(999_999))), 0);
    assert_eq!(interval_to_millis(Some(Duration::from_secs(u64::MAX))), u32::MAX);
    assert_eq!(millis_to_interval(0), None);
    assert_eq!(millis_to_interval(30_000), Some(Duration::from_secs(30)));
}

#[test]
fn set_ping_interval_round_trips_through_the_getter() {
    let mut state = KeepaliveState::new(KeepaliveBehavior::Disabled);
    assert_eq!(state.interval(), None);
    state.set_interval(normalize_ping_interval(Some(Duration::from_secs(30))));
    assert_eq!(state.interval(), Some(Duration::from_secs(30)));
    state.set_interval(normalize_ping_interval(Some(Duration::zero())));
    assert_eq!(state.interval(), None);
    state.set_interval(normalize_ping_interval(None));
    assert_eq!(state.interval(), None);
    assert_eq!(state.policy(), KeepalivePolicy::default());
}

#[test]
fn a_zero_interval_disables_pinging() {
    let state = KeepaliveState::new(KeepaliveBehavior::Enabled(KeepalivePolicy::every(
        Duration::zero(),
    )));
    assert_eq!(state.interval(), None);
}

#[test]
fn missed_pings_force_a_redial_only_at_the_tolerance() {
    let policy = KeepalivePolicy::default();
    let mut monitor = KeepaliveMonitor::new(&policy);
    assert!(!monitor.record_unanswered());
    assert_eq!(monitor.missed(), 1);
    assert!(monitor.record_unanswered());
    assert_eq!(monitor.missed(), 0);
    assert!(!monitor.record_unanswered());
    monitor.record_answered();
    assert_eq!(monitor.missed(), 0);
    assert!(!monitor.record_unanswered());
    monitor.reset();
    assert_eq!(monitor.missed(), 0);
}

#[test]
fn a_zero_tolerance_redials_on_the_first_miss() {
    let policy = KeepalivePolicy {
        max_missed: 0,
        ..KeepalivePolicy::default()
    };
    let mut monitor = KeepaliveMonitor::new(&policy);
    assert!(monitor.record_unanswered());
    assert!(monitor.record_unanswered());
}

#[test]
fn the_keepalive_task_stops_for_good_once_shut_down() {
    let minute = Some(Duration::from_secs(60));
    assert_eq!(keepalive_step(true, minute), KeepaliveStep::Stop);
    assert_eq!(keepalive_step(true, None), KeepaliveStep::Stop);
    assert_eq!(keepalive_step(false, None), KeepaliveStep::Park);
    assert_eq!(
        keepalive_step(false, minute),
        KeepaliveStep::Wait(Duration::from_secs(60))
    );
}

#[test]
fn a_zero_written_interval_reads_as_off() {
    assert_eq!(normalize_ping_interval(Some(Duration::zero())), None);
    assert_eq!(normalize_ping_interval(None), None);
    assert_eq!(
        normalize_ping_interval(Some(Duration::from_millis(1))),
        Some(Duration::from_millis(1))
    );
}
