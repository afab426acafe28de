use ocpp_client::time::MAX_NANOS;
use ocpp_client::{Cancelled, Duration, Elapsed};

#[test]
fn spans_are_built_from_each_unit() {
    assert_eq!(Duration::from_secs(2).as_nanos(), 2_000_000_000);
    assert_eq!(Duration::from_millis(1500).as_nanos(), 1_500_000_000);
    assert_eq!(Duration::from_nanos(7).as_nanos(), 7);
    assert_eq!(Duration::zero().as_nanos(), 0);
    assert!(Duration::zero().is_zero());
    assert!(!Duration::from_nanos(1).is_zero());
}

#[test]
fn spans_read_back_in_each_unit() {
    let d = Duration::from_millis(61_250);
    assert_eq!(d.as_secs(), 61);
    assert_eq!(d.subsec_nanos(), 250_000_000);
    assert_eq!(d.as_millis(), 61_250);
    assert_eq!(Duration::from_secs(u64::MAX).as_nanos(), u64::MAX as u128 * 1_000_000_000);
}

#[test]
fn checked_arithmetic() {
    let second = Duration::from_secs(1);
    assert_eq!(second.checked_mul(3), Some(Duration::from_secs(3)));
    assert_eq!(second.checked_add(Duration::from_millis(5)), Some(Duration::from_millis(1005)));
    assert_eq!(second.checked_div(4), Some(Duration::from_millis(250)));
    assert_eq!(second.checked_div(0), None);
    assert_eq!(Duration::from_nanos(7).checked_div(2), Some(Duration::from_nanos(3)));
    let longest = Duration::from_secs(u64::MAX)
        .checked_add(Duration::from_nanos(999_999_999))
        .unwrap();
    assert_eq!(longest.as_nanos(), MAX_NANOS);
    assert_eq!(longest.checked_add(Duration::from_nanos(1)), None);
    assert_eq!(longest.checked_mul(2), None);
    assert_eq!(longest.checked_mul(1), Some(longest));
}

#[test]
fn spans_compare_by_length() {
    assert!(Duration::from_millis(999).is_shorter_than(&Duration::from_secs(1)));
    assert!(!Duration::from_secs(1).is_shorter_than(&Duration::from_millis(1000)));
    assert!(Duration::from_millis(999) < Duration::from_secs(1));
}

#[test]
fn runtime_outcomes_are_plain_markers() {
    assert_eq!(Elapsed, Elapsed);
    assert_eq!(Cancelled, Cancelled);
}
