use fa_local::timestamp::{MAX_UNIX_SECONDS, MIN_UNIX_SECONDS};
use fa_local::{AdmissionContext, EnvironmentMode, TimestampUtc};

#[test]
fn context_keeps_environment_and_time_and_mints_a_random_id() {
    let now = TimestampUtc::from_unix(1_893_456_000, 5).unwrap();
    let a = AdmissionContext::new(EnvironmentMode::Prod, now);
    let b = AdmissionContext::new(EnvironmentMode::Dev, now);
    assert_eq!(a.expected_environment, EnvironmentMode::Prod);
    assert_eq!(b.expected_environment, EnvironmentMode::Dev);
    assert_eq!(a.now, now);
    assert_eq!((a.route_decision_id >> 76) & 0xf, 4);
    assert_eq!((a.route_decision_id >> 62) & 0x3, 2);
    assert_ne!(a.route_decision_id, b.route_decision_id);
}

#[test]
fn from_unix_accepts_exactly_the_representable_range() {
    assert!(TimestampUtc::from_unix(MIN_UNIX_SECONDS, 0).is_some());
    assert!(TimestampUtc::from_unix(MAX_UNIX_SECONDS, 999_999_999).is_some());
    assert!(TimestampUtc::from_unix(MIN_UNIX_SECONDS - 1, 0).is_none());
    assert!(TimestampUtc::from_unix(MAX_UNIX_SECONDS + 1, 0).is_none());
    assert!(TimestampUtc::from_unix(0, 1_000_000_000).is_none());
    let t = TimestampUtc::from_unix(-5, 7).unwrap();
    assert_eq!((t.secs, t.nanos), (-5, 7));
}

#[test]
fn representable_range_matches_chrono() {
    let min = chrono::DateTime::<chrono::Utc>::MIN_UTC;
    let max = chrono::DateTime::<chrono::Utc>::MAX_UTC;
    assert_eq!(min.timestamp(), MIN_UNIX_SECONDS);
    assert_eq!(max.timestamp(), MAX_UNIX_SECONDS);
}

#[test]
fn add_seconds_shifts_whole_seconds() {
    let t = TimestampUtc::from_unix(100, 42).unwrap();
    let later = t.add_seconds(3600);
    let earlier = t.add_seconds(-3600);
    assert_eq!((later.secs, later.nanos), (3700, 42));
    assert_eq!((earlier.secs, earlier.nanos), (-3500, 42));
}

#[test]
fn leap_seconds_end_a_minute() {
    // 2016-12-31T23:59:60Z
    let leap = TimestampUtc::from_unix(1_483_228_799, 1_000_000_000).unwrap();
    assert_eq!((leap.secs, leap.nanos), (1_483_228_799, 1_000_000_000));
    assert!(TimestampUtc::from_unix(-1, 1_500_000_000).is_some());
    assert!(TimestampUtc::from_unix(1_483_228_798, 1_000_000_000).is_none());
    assert!(TimestampUtc::from_unix(1_483_228_799, 2_000_000_000).is_none());
}

#[test]
fn shifting_out_of_a_leap_second_matches_chrono() {
    let dt = chrono::DateTime::from_timestamp(1_483_228_799, 1_250_000_000).unwrap();
    let leap = TimestampUtc::from_unix(1_483_228_799, 1_250_000_000).unwrap();
    for delta in [3600i64, -3600, 1, -1] {
        let ours = leap.add_seconds(delta);
        let theirs = dt + chrono::TimeDelta::seconds(delta);
        assert_eq!((ours.secs, ours.nanos), (theirs.timestamp(), theirs.timestamp_subsec_nanos()));
    }
    let same = leap.add_seconds(0);
    assert_eq!((same.secs, same.nanos), (1_483_228_799, 1_250_000_000));
}

#[test]
fn can_shift_tracks_the_range_ends() {
    let min = TimestampUtc::from_unix(MIN_UNIX_SECONDS, 0).unwrap();
    let max = TimestampUtc::from_unix(MAX_UNIX_SECONDS, 0).unwrap();
    assert!(!min.can_shift(-1));
    assert!(min.can_shift(1));
    assert!(!max.can_shift(1));
    assert!(max.can_shift(-3600));
    assert!(!max.can_shift(i64::MAX));
    assert!(!min.can_shift(i64::MIN));
}
