use ocpp_client::reconnect::{
    after_exit, jitter_delay, on_wake, AfterExit, Backoff, LoopExit, WakeOutcome,
};
use ocpp_client::{Duration, ReconnectBehavior, ReconnectPolicy};

#[test]
fn delay_doubles_and_caps() {
    let policy = ReconnectPolicy {
        initial_delay: Duration::from_secs(1),
        max_delay: Duration::from_secs(10),
        multiplier: 2,
        jitter: false,
    };
    assert_eq!(policy.delay_for(0), Duration::from_secs(1));
    assert_eq!(policy.delay_for(1), Duration::from_secs(2));
    assert_eq!(policy.delay_for(2), Duration::from_secs(4));
    assert_eq!(policy.delay_for(3), Duration::from_secs(8));
    assert_eq!(policy.delay_for(4), Duration::from_secs(10));
    assert_eq!(policy.delay_for(10), Duration::from_secs(10));
}

#[test]
fn jitter_off_is_exact() {
    let policy = ReconnectPolicy {
        initial_delay: Duration::from_secs(4),
        jitter: false,
        ..ReconnectPolicy::default()
    };
    for attempt in 0..6 {
        assert_eq!(
            policy.jittered_delay_for(attempt),
            policy.delay_for(attempt)
        );
    }
}

#[test]
fn jitter_stays_within_half_the_delay_and_the_full_delay() {
    let policy = ReconnectPolicy {
        initial_delay: Duration::from_secs(8),
        max_delay: Duration::from_secs(64),
        multiplier: 2,
        jitter: true,
    };

    for attempt in 0..6 {
        let full = policy.delay_for(attempt);
        let half = full.checked_div(2).unwrap();
        for _ in 0..200 {
            let jittered = policy.jittered_delay_for(attempt);
            assert!(
                jittered >= half && jittered <= full,
                "attempt {attempt}: {jittered:?} outside [{:?}, {full:?}]",
                half
            );
        }
    }
}

#[test]
fn jitter_actually_varies() {
    let policy = ReconnectPolicy::default();
    let first = policy.jittered_delay_for(3);
    let varies = (0..50).any(|_| policy.jittered_delay_for(3) != first);
    assert!(varies, "jittered delays should not all be identical");
}

#[test]
fn a_zero_delay_survives_jittering() {
    let policy = ReconnectPolicy {
        initial_delay: Duration::zero(),
        max_delay: Duration::zero(),
        multiplier: 2,
        jitter: true,
    };
    assert_eq!(policy.jittered_delay_for(0), Duration::zero());
}

#[test]
fn default_policy_values() {
    let policy = ReconnectPolicy::default();
    assert_eq!(policy.initial_delay, Duration::from_secs(1));
    assert_eq!(policy.max_delay, Duration::from_secs(60));
    assert_eq!(policy.multiplier, 2);
    assert!(policy.jitter);
    assert!(matches!(ReconnectBehavior::default(), ReconnectBehavior::Enabled(p) if p == policy));
}

#[test]
fn an_initial_delay_above_the_cap_falls_to_the_cap() {
    let policy = ReconnectPolicy {
        initial_delay: Duration::from_secs(100),
        max_delay: Duration::from_secs(10),
        multiplier: 2,
        jitter: false,
    };
    assert_eq!(policy.delay_for(0), Duration::from_secs(10));
    assert_eq!(policy.delay_for(1), Duration::from_secs(10));
}

#[test]
fn an_overflowing_product_falls_to_the_cap() {
    let policy = ReconnectPolicy {
        initial_delay: Duration::from_secs(u64::MAX / 2),
        max_delay: Duration::from_secs(u64::MAX),
        multiplier: 4,
        jitter: false,
    };
    assert_eq!(policy.delay_for(1), Duration::from_secs(u64::MAX));
}

#[test]
fn jitter_delay_exact_values() {
    let delay = Duration::from_secs(10);
    assert_eq!(jitter_delay(delay, 0), Duration::from_secs(5));
    assert_eq!(jitter_delay(delay, u32::MAX), Duration::from_secs(10));
    assert_eq!(jitter_delay(delay, u32::MAX / 2), Duration::from_nanos(7_499_999_999));
}

#[test]
fn backoff_escalates_and_resets_on_traffic() {
    let policy = ReconnectPolicy {
        initial_delay: Duration::from_secs(1),
        max_delay: Duration::from_secs(30),
        multiplier: 2,
        jitter: false,
    };
    let mut backoff = Backoff::new();
    assert_eq!(backoff.next_delay(&policy), Duration::from_secs(1));
    assert_eq!(backoff.next_delay(&policy), Duration::from_secs(2));
    assert_eq!(backoff.next_delay(&policy), Duration::from_secs(4));
    assert_eq!(backoff.attempt(), 3);
    backoff.on_traffic();
    assert_eq!(backoff.attempt(), 0);
    assert_eq!(backoff.next_delay(&policy), Duration::from_secs(1));
}

#[test]
fn shutdown_outranks_every_recovery() {
    assert_eq!(on_wake(true, true), WakeOutcome::Shutdown);
    assert_eq!(on_wake(false, true), WakeOutcome::Forced);
    assert_eq!(on_wake(false, false), WakeOutcome::KeepReading);
    assert_eq!(after_exit(LoopExit::Eof, true, true), AfterExit::Stop);
    assert_eq!(after_exit(LoopExit::Shutdown, false, true), AfterExit::Stop);
    assert_eq!(after_exit(LoopExit::Eof, false, false), AfterExit::Stop);
    assert_eq!(
        after_exit(LoopExit::Eof, false, true),
        AfterExit::Redial { close_first: false }
    );
    assert_eq!(
        after_exit(LoopExit::Forced, false, true),
        AfterExit::Redial { close_first: true }
    );
}
