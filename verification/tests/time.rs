use std::time::Duration;
use xdl::time::{duration_of, nanos_of, MAX_DURATION_NANOS, NANOS_PER_SEC};

#[test]
fn nanos_of_counts_whole_seconds_and_fraction() {
    assert_eq!(nanos_of(Duration::new(2, 5)), 2_000_000_005);
    assert_eq!(nanos_of(Duration::from_millis(100)), 100_000_000);
    assert_eq!(nanos_of(Duration::new(0, 0)), 0);
}

#[test]
fn duration_of_builds_seconds_and_fraction() {
    assert_eq!(duration_of(1_500_000_000), Duration::from_millis(1500));
    assert_eq!(duration_of(0), Duration::new(0, 0));
    assert_eq!(duration_of(999_999_999), Duration::new(0, 999_999_999));
    assert_eq!(duration_of(NANOS_PER_SEC), Duration::new(1, 0));
}

#[test]
fn longest_duration_goes_both_ways() {
    let longest = Duration::new(u64::MAX, 999_999_999);
    assert_eq!(nanos_of(longest), MAX_DURATION_NANOS);
    assert_eq!(duration_of(MAX_DURATION_NANOS), longest);
    assert_eq!(MAX_DURATION_NANOS, (u64::MAX as u128) * 1_000_000_000 + 999_999_999);
}

#[test]
fn nanos_and_duration_are_inverse() {
    for n in [0u128, 1, 999_999_999, 1_000_000_000, 1_000_000_001, 86_400_000_000_000] {
        assert_eq!(nanos_of(duration_of(n)), n);
    }
}
