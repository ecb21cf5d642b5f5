use rusty_vinnie::interval::{
    duration_from_mins, is_fresh, is_within_last_minutes, Timezone, INTERVAL_MINS,
};

#[test]
fn window_boundary_is_inclusive() {
    let now: i64 = 1_700_000_000;
    let window_secs = INTERVAL_MINS * 60;
    // An item exactly `window` old is delivered; one second older is not.
    assert!(is_fresh(now - window_secs, now));
    assert!(!is_fresh(now - window_secs - 1, now));
}

#[test]
fn future_timestamps_count_as_fresh() {
    // Clock skew can make items appear from the future; they stay fresh.
    let now: i64 = 1_700_000_000;
    assert!(is_fresh(now + 1, now));
    assert!(is_fresh(now + 86_400, now));
}

#[test]
fn custom_window_boundary() {
    let now: i64 = 1_700_000_000;
    assert!(is_within_last_minutes(90, now - 90 * 60, now));
    assert!(!is_within_last_minutes(90, now - 90 * 60 - 1, now));
    assert!(is_within_last_minutes(0, now, now));
    assert!(!is_within_last_minutes(0, now - 1, now));
}

#[test]
fn extreme_instants_do_not_panic() {
    assert!(is_within_last_minutes(i64::MAX / 60, i64::MIN, i64::MIN));
    assert!(is_fresh(i64::MAX, i64::MIN));
    assert!(!is_fresh(i64::MIN, i64::MAX));
}

#[test]
fn interval_lengths() {
    assert_eq!(duration_from_mins(10), 600);
    assert_eq!(duration_from_mins(0), 0);
    assert_eq!(duration_from_mins(6), 360);
}

#[test]
fn timezone_offsets() {
    assert_eq!(Timezone::BritishWinter.offset(), 0);
    assert_eq!(Timezone::BritishSummer.offset(), 3600);
}
