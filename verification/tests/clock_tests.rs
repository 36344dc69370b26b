use tablet_utils::clock::{Timestamp, MAX_UNIX_SECONDS, MIN_UNIX_SECONDS};

fn at(secs: i64, nanos: u32) -> Timestamp {
    Timestamp::from_timestamp(secs, nanos).unwrap()
}

#[test]
fn timestamp_round_trips() {
    let t = at(1_700_000_000, 123_456_789);
    assert_eq!(t.timestamp(), 1_700_000_000);
    assert_eq!(t.subsec_nanos(), 123_456_789);
}

#[test]
fn timestamp_range_limits() {
    assert!(Timestamp::from_timestamp(MIN_UNIX_SECONDS, 0).is_some());
    assert!(Timestamp::from_timestamp(MAX_UNIX_SECONDS, 999_999_999).is_some());
    assert!(Timestamp::from_timestamp(MIN_UNIX_SECONDS - 1, 0).is_none());
    assert!(Timestamp::from_timestamp(MAX_UNIX_SECONDS + 1, 0).is_none());
    assert!(Timestamp::from_timestamp(i64::MAX, 0).is_none());
    assert!(Timestamp::from_timestamp(i64::MIN, 0).is_none());
}

#[test]
fn timestamp_leap_second_rule() {
    // A nanosecond part of a second or more is a leap second: only on second 59.
    assert!(Timestamp::from_timestamp(59, 1_500_000_000).is_some());
    assert!(Timestamp::from_timestamp(58, 1_500_000_000).is_none());
    assert!(Timestamp::from_timestamp(59, 2_000_000_000).is_none());
    assert!(Timestamp::from_timestamp(-1, 1_000_000_000).is_some());
}

#[test]
fn millis_since_counts_whole_milliseconds() {
    assert_eq!(at(10, 500_000_000).millis_since(&at(9, 0)), 1500);
    assert_eq!(at(9, 0).millis_since(&at(10, 500_000_000)), -1500);
    assert_eq!(at(5, 999_999).millis_since(&at(5, 0)), 0);
    assert_eq!(at(5, 0).millis_since(&at(5, 999_999)), 0);
    assert_eq!(at(5, 1_999_999).millis_since(&at(5, 0)), 1);
    assert_eq!(at(5, 0).millis_since(&at(5, 1_999_999)), -1);
}

#[test]
fn millis_since_self_is_zero() {
    let t = at(1_000, 250_000_000);
    assert_eq!(t.millis_since(&t), 0);
}

#[test]
fn millis_since_is_antisymmetric() {
    let a = at(1_234, 987_000_000);
    let b = at(1_100, 13_000_000);
    assert_eq!(a.millis_since(&b), -b.millis_since(&a));
    assert_eq!(a.millis_since(&b), 134_974);
}

#[test]
fn millis_since_counts_a_leap_second() {
    // Half a second into the leap second that ends a day, then midnight: chrono
    // counts the leap second as still ahead of midnight.
    let leap = at(86_399, 1_500_000_000);
    let next = at(86_400, 0);
    assert_eq!(next.millis_since(&leap), -500);
    // Within the same day, a later second after a leap second counts it once more.
    let before = at(59, 1_200_000_000);
    let later = at(61, 0);
    assert_eq!(later.millis_since(&before), 1_800);
}
