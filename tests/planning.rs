use dd_search::cli::{Domain, LogsAction, Pagination, SpansAction, TimeRange};
use dd_search::client::{clamp_page_size, plan_search, Target, MAX_PAGE_SIZE};
use dd_search::search::FailureKind;

const NOW: i64 = 1_700_000_000_000;

#[test]
fn logs_query_carries_the_resolved_range_and_indexes() {
    let q = plan_search(Target::Logs, "service:api", "now-1h", "now", vec!["main".to_string()], 50, NOW)
        .unwrap();
    assert_eq!(q.target, Target::Logs);
    assert_eq!(q.query, "service:api");
    assert_eq!(q.from_ms, NOW - 3_600_000);
    assert_eq!(q.to_ms, NOW);
    assert_eq!(q.indexes, Some(vec!["main".to_string()]));
    assert_eq!(q.page_size, 50);
}

#[test]
fn spans_query_has_no_index_filter() {
    let q = plan_search(Target::Spans, "service:web", "1000", "2000", vec!["main".to_string()], 10, NOW)
        .unwrap();
    assert_eq!(q.indexes, None);
    assert_eq!((q.from_ms, q.to_ms), (1000, 2000));
}

#[test]
fn invalid_range_fails_before_any_fetch() {
    let e = plan_search(Target::Logs, "*", "now", "now-1h", vec![], 10, NOW).unwrap_err();
    assert_eq!(e.kind, FailureKind::InvalidTimeRange);
    let e = plan_search(Target::Spans, "*", "yesterday", "now", vec![], 10, NOW).unwrap_err();
    assert_eq!(e.kind, FailureKind::InvalidTimeRange);
    let e = plan_search(Target::Logs, "*", "now", "now", vec![], 10, 0).unwrap_err();
    assert_eq!(e.kind, FailureKind::InvalidTimeRange);
}

#[test]
fn range_starting_before_the_signed_range_is_refused() {
    let e = plan_search(Target::Logs, "*", "now-9223372036854775807s", "now", vec![], 10, 0);
    assert!(e.is_err());
}

#[test]
fn page_size_is_clamped() {
    assert_eq!(clamp_page_size(0), 1);
    assert_eq!(clamp_page_size(-5), 1);
    assert_eq!(clamp_page_size(1), 1);
    assert_eq!(clamp_page_size(MAX_PAGE_SIZE + 1), MAX_PAGE_SIZE);
    assert_eq!(clamp_page_size(250), 250);
}

#[test]
fn commands_become_queries() {
    let logs = Domain::Logs {
        action: LogsAction::Search {
            query: "status:error".to_string(),
            time_range: TimeRange { from: "now-15m".to_string(), to: "now".to_string() },
            pagination: Pagination { page_size: 5000 },
            indexes: vec!["*".to_string()],
        },
    };
    let q = logs.into_query(NOW).unwrap();
    assert_eq!(q.target, Target::Logs);
    assert_eq!(q.from_ms, NOW - 900_000);
    assert_eq!(q.page_size, MAX_PAGE_SIZE);
    assert_eq!(q.indexes, Some(vec!["*".to_string()]));

    let spans = Domain::Spans {
        action: SpansAction::Search {
            query: "service:web".to_string(),
            time_range: TimeRange { from: "now".to_string(), to: "now-1h".to_string() },
            pagination: Pagination { page_size: 10 },
        },
    };
    assert_eq!(spans.into_query(NOW).unwrap_err().kind, FailureKind::InvalidTimeRange);
}

#[test]
fn later_to_earlier_relative_range_is_refused() {
    for unit in ["s", "m", "h", "d", "w", "mo"] {
        let earlier = format!("now-5{}", unit);
        let later = format!("now-2{}", unit);
        assert!(plan_search(Target::Logs, "*", &earlier, &later, vec![], 10, NOW).is_ok());
        let e = plan_search(Target::Logs, "*", &later, &earlier, vec![], 10, NOW).unwrap_err();
        assert_eq!(e.kind, FailureKind::InvalidTimeRange);
    }
}

#[test]
fn last_hour_is_planned_at_any_reading_from_the_epoch_on() {
    for now in [0, 1, NOW, i64::MAX] {
        let q = plan_search(Target::Spans, "*", "now-1h", "now", vec![], 10, now).unwrap();
        assert_eq!(q.to_ms, now);
        assert_eq!(q.from_ms, now - 3_600_000);
    }
}
