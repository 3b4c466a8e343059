use dd_search::time::{
    classify, is_valid_time_format, resolve, validate_range_at,
    TimeExpression, MILLIS_PER_DAY, MILLIS_PER_HOUR, MILLIS_PER_MINUTE, MILLIS_PER_MONTH,
    MILLIS_PER_SECOND, MILLIS_PER_WEEK,
};

const NOW: i64 = 1_700_000_000_000;

fn offset(s: &str) -> u64 {
    match classify(s) {
        Some(TimeExpression::Relative { offset_ms }) => offset_ms,
        other => panic!("{} classified as {:?}", s, other),
    }
}

#[test]
fn now_is_relative_with_zero_offset() {
    assert_eq!(classify("now"), Some(TimeExpression::Relative { offset_ms: 0 }));
    assert_eq!(classify("NOW"), Some(TimeExpression::Relative { offset_ms: 0 }));
    assert_eq!(offset("now-0s"), 0);
    assert_eq!(offset("now-0mo"), 0);
}

#[test]
fn every_unit_has_its_length() {
    assert_eq!(offset("now-1s"), MILLIS_PER_SECOND);
    assert_eq!(offset("now-15m"), 15 * MILLIS_PER_MINUTE);
    assert_eq!(offset("now-6h"), 6 * MILLIS_PER_HOUR);
    assert_eq!(offset("now-1d"), MILLIS_PER_DAY);
    assert_eq!(offset("now-1w"), MILLIS_PER_WEEK);
    assert_eq!(offset("now-1mo"), MILLIS_PER_MONTH);
    assert_eq!(offset("now-90s"), 90_000);
    assert_eq!(MILLIS_PER_MONTH, 30 * MILLIS_PER_DAY);
}

#[test]
fn units_and_now_ignore_case() {
    assert_eq!(offset("Now-2H"), 2 * MILLIS_PER_HOUR);
    assert_eq!(offset("now-3MO"), 3 * MILLIS_PER_MONTH);
    assert_eq!(offset("nOw-3Mo"), 3 * MILLIS_PER_MONTH);
}

#[test]
fn larger_count_resolves_earlier() {
    let earlier = resolve(&classify("now-2h").unwrap(), NOW);
    let later = resolve(&classify("now-1h").unwrap(), NOW);
    assert!(earlier < later);
    assert_eq!(later, NOW as i128 - 3_600_000);
}

#[test]
fn hour_resolves_before_minute() {
    let h = resolve(&classify("now-1h").unwrap(), NOW);
    let m = resolve(&classify("now-1m").unwrap(), NOW);
    assert!(h < m);
    assert!(validate_range_at("now-1h", "now-1m", NOW));
    assert!(!validate_range_at("now-1m", "now-1h", NOW));
}

#[test]
fn epoch_millis_are_read_as_digits() {
    assert_eq!(classify("1700000000000"), Some(TimeExpression::EpochMillis { millis: 1_700_000_000_000 }));
    assert_eq!(classify("0"), Some(TimeExpression::EpochMillis { millis: 0 }));
    assert_eq!(
        classify("9223372036854775807"),
        Some(TimeExpression::EpochMillis { millis: i64::MAX })
    );
    assert_eq!(classify("9223372036854775808"), None);
}

#[test]
fn rfc3339_timestamps_are_absolute() {
    assert_eq!(
        classify("2024-01-01T00:00:00Z"),
        Some(TimeExpression::Absolute { millis: 1_704_067_200_000 })
    );
    assert_eq!(
        classify("2024-01-01T01:00:00.250+01:00"),
        Some(TimeExpression::Absolute { millis: 1_704_067_200_250 })
    );
    assert_eq!(classify("2024-01-01T00:00:00"), None);
    assert_eq!(classify("2024-13-01T00:00:00Z"), None);
}

#[test]
fn malformed_strings_are_invalid() {
    assert_eq!(classify("now-abc"), None);
    assert_eq!(classify("yesterday"), None);
    assert_eq!(classify(""), None);
    assert_eq!(classify("now-"), None);
    assert_eq!(classify("now-h"), None);
    assert_eq!(classify("now-5"), None);
    assert_eq!(classify("now-5y"), None);
    assert_eq!(classify("now+5m"), None);
    assert_eq!(classify("nowhere"), None);
    assert_eq!(classify("-5"), None);
    assert!(!is_valid_time_format("now-abc"));
    assert!(is_valid_time_format("now-15m"));
}

#[test]
fn offsets_that_overflow_are_invalid() {
    assert_eq!(classify("now-99999999999999999999s"), None);
    assert_eq!(classify("now-9223372036854775807mo"), None);
}

#[test]
fn relative_range_scenarios() {
    assert!(validate_range_at("now-1h", "now", NOW));
    assert!(!validate_range_at("now", "now-1h", NOW));
    for now in [0, 3_600_000, NOW, i64::MAX] {
        assert!(validate_range_at("now-1h", "now", now));
        assert!(!validate_range_at("now", "now-1h", now));
    }
}

#[test]
fn equal_bounds_are_rejected() {
    assert!(!validate_range_at("now", "now", NOW));
    assert!(!validate_range_at("now-1h", "now-1h", NOW));
    assert!(!validate_range_at("1000", "1000", NOW));
    assert!(!validate_range_at("now-15m", "now-15m", 0));
}

#[test]
fn invalid_bounds_make_an_invalid_range() {
    assert!(!validate_range_at("yesterday", "now", NOW));
    assert!(!validate_range_at("now-1h", "", NOW));
}

#[test]
fn mixed_forms_compare_by_instant() {
    assert!(validate_range_at("1000", "2000", NOW));
    assert!(!validate_range_at("2000", "1000", NOW));
    assert!(validate_range_at("2023-01-01T00:00:00Z", "now", NOW));
    assert!(!validate_range_at("2024-01-01T00:00:00Z", "now", NOW));
    assert!(validate_range_at("1699999999999", "now", NOW));
    assert!(!validate_range_at("1700000000000", "now", NOW));
}
