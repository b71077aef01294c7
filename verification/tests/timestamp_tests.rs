use gh_action_trace::error::TraceError;
use gh_action_trace::timestamp::Timestamp;

#[test]
fn timestamps_are_ordered_by_seconds_then_nanoseconds() {
    let a = Timestamp { seconds: 10, nanos: 500 };
    let b = Timestamp { seconds: 10, nanos: 501 };
    let c = Timestamp { seconds: 11, nanos: 0 };
    let d = Timestamp { seconds: -1, nanos: 999_999_999 };
    assert!(b.is_after(&a));
    assert!(!a.is_after(&b));
    assert!(!a.is_after(&a));
    assert!(c.is_after(&b));
    assert!(a.is_after(&d));
    assert!(!d.is_after(&a));
}

#[test]
fn latest_picks_the_later_instant() {
    let a = Timestamp { seconds: 10, nanos: 500 };
    let b = Timestamp { seconds: 10, nanos: 501 };
    assert_eq!(a.latest(b), b);
    assert_eq!(b.latest(a), b);
    assert_eq!(a.latest(a), a);
}

#[test]
fn rfc3339_text_of_whole_seconds() {
    assert_eq!(
        Timestamp { seconds: 1_614_600_000, nanos: 0 }.to_rfc3339(),
        Some("2021-03-01T12:00:00Z".to_string())
    );
    assert_eq!(
        Timestamp { seconds: 0, nanos: 0 }.to_rfc3339(),
        Some("1970-01-01T00:00:00Z".to_string())
    );
    assert_eq!(
        Timestamp { seconds: -1, nanos: 0 }.to_rfc3339(),
        Some("1969-12-31T23:59:59Z".to_string())
    );
}

#[test]
fn rfc3339_text_shows_fractions_only_where_there_are_some() {
    assert_eq!(
        Timestamp { seconds: 1_614_600_000, nanos: 500_000_000 }.to_rfc3339(),
        Some("2021-03-01T12:00:00.500Z".to_string())
    );
    assert_eq!(
        Timestamp { seconds: 1_614_600_000, nanos: 1_000 }.to_rfc3339(),
        Some("2021-03-01T12:00:00.000001Z".to_string())
    );
    assert_eq!(
        Timestamp { seconds: 1_614_600_000, nanos: 1 }.to_rfc3339(),
        Some("2021-03-01T12:00:00.000000001Z".to_string())
    );
}

#[test]
fn rfc3339_text_is_missing_out_of_the_calendar() {
    assert_eq!(Timestamp { seconds: i64::MAX, nanos: 0 }.to_rfc3339(), None);
    assert_eq!(Timestamp { seconds: i64::MIN, nanos: 0 }.to_rfc3339(), None);
    assert_eq!(Timestamp { seconds: 0, nanos: 2_000_000_000 }.to_rfc3339(), None);
}

#[test]
fn errors_are_described_in_words() {
    assert_eq!(TraceError::InvalidIdentifier.describe(), "invalid identifier: zero is reserved");
    assert_eq!(
        TraceError::UnsupportedRecordShape.describe(),
        "unsupported record shape: metadata is not a record"
    );
    assert_eq!(
        TraceError::SourceUnavailable.describe(),
        "source unavailable: a listing request failed"
    );
    assert_eq!(
        TraceError::JobFetchFailed { run_id: 4_711 }.describe(),
        "job listing failed for run 4711"
    );
}
