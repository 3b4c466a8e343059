use dd_search::search::{
    failure_for_status, retryable, Decision, FailureKind, Pager, Phase, Pull, SearchError,
    BASE_BACKOFF_MS, MAX_RETRIES,
};

/// A page of the fake service: its records and the next cursor.
type Page = (Vec<u32>, Option<String>);

enum Answer {
    Page(Page),
    Status(u16),
}

struct Outcome {
    records: Vec<u32>,
    errors: Vec<FailureKind>,
    fetch_cursors: Vec<Option<String>>,
    delays: Vec<u64>,
}

/// Pulls until the pager ends or `max_pulls` is reached, answering each
/// fetch it asks for with the next of `answers`.
fn run(answers: Vec<Answer>, max_pulls: usize) -> (Pager<u32>, Outcome) {
    let mut pager = Pager::new();
    let mut answers = answers.into_iter();
    let mut out = Outcome { records: vec![], errors: vec![], fetch_cursors: vec![], delays: vec![] };
    for _ in 0..max_pulls {
        match pager.pull() {
            Pull::Item(r) => out.records.push(r),
            Pull::Fetch(c) => {
                out.fetch_cursors.push(c);
                match answers.next().expect("a fetch beyond the scripted answers") {
                    Answer::Page((records, next)) => pager.deliver_page(records, next),
                    Answer::Status(s) => {
                        let err = SearchError { kind: failure_for_status(s), detail: s.to_string() };
                        if let Decision::Retry { delay_ms } = pager.deliver_error(err) {
                            out.delays.push(delay_ms);
                        }
                    }
                }
            }
            Pull::Failure(e) => out.errors.push(e.kind),
            Pull::End => break,
        }
    }
    (pager, out)
}

fn page(start: u32, len: u32, next: Option<&str>) -> Answer {
    Answer::Page(((start..start + len).collect(), next.map(|c| c.to_string())))
}

#[test]
fn three_pages_of_fifty_fifty_and_ten_yield_one_hundred_ten_records() {
    let (pager, out) = run(
        vec![page(0, 50, Some("c1")), page(50, 50, Some("c2")), page(100, 10, None)],
        1000,
    );
    assert_eq!(out.records.len(), 110);
    assert_eq!(out.records, (0..110).collect::<Vec<u32>>());
    assert!(out.errors.is_empty());
    assert_eq!(
        out.fetch_cursors,
        vec![None, Some("c1".to_string()), Some("c2".to_string())]
    );
    assert_eq!(pager.phase(), Phase::Exhausted);
}

#[test]
fn unauthorized_second_page_yields_first_page_then_error_and_no_third_fetch() {
    let (pager, out) = run(vec![page(0, 50, Some("c1")), Answer::Status(401)], 1000);
    assert_eq!(out.records, (0..50).collect::<Vec<u32>>());
    assert_eq!(out.errors, vec![FailureKind::Authentication]);
    assert_eq!(out.fetch_cursors.len(), 2);
    assert_eq!(pager.phase(), Phase::Failed);
}

#[test]
fn rate_limited_twice_then_success_hides_the_retries() {
    let (pager, out) = run(
        vec![Answer::Status(429), Answer::Status(429), page(0, 5, None)],
        1000,
    );
    assert_eq!(out.records, vec![0, 1, 2, 3, 4]);
    assert!(out.errors.is_empty());
    assert_eq!(out.fetch_cursors, vec![None, None, None]);
    assert_eq!(out.delays, vec![BASE_BACKOFF_MS, 2 * BASE_BACKOFF_MS]);
    assert_eq!(pager.phase(), Phase::Exhausted);
}

#[test]
fn retries_are_bounded() {
    let answers = (0..=MAX_RETRIES).map(|_| Answer::Status(429)).collect();
    let (_, out) = run(answers, 1000);
    assert_eq!(out.fetch_cursors.len(), MAX_RETRIES as usize + 1);
    assert_eq!(out.delays, vec![500, 1000, 2000]);
    assert_eq!(out.errors, vec![FailureKind::RateLimited]);
}

#[test]
fn retry_keeps_the_cursor() {
    let (_, out) = run(vec![page(0, 1, Some("c1")), Answer::Status(408), page(1, 1, None)], 1000);
    assert_eq!(out.records, vec![0, 1]);
    assert_eq!(
        out.fetch_cursors,
        vec![None, Some("c1".to_string()), Some("c1".to_string())]
    );
}

#[test]
fn server_error_is_not_retried() {
    let (_, out) = run(vec![Answer::Status(500)], 1000);
    assert_eq!(out.errors, vec![FailureKind::Api]);
    assert_eq!(out.fetch_cursors.len(), 1);
    assert!(out.delays.is_empty());
}

#[test]
fn empty_last_page_ends_the_sequence() {
    let (pager, out) = run(vec![page(0, 3, Some("c1")), page(3, 0, None)], 1000);
    assert_eq!(out.records, vec![0, 1, 2]);
    assert_eq!(pager.phase(), Phase::Exhausted);
}

#[test]
fn next_page_is_fetched_only_when_the_current_one_is_drained() {
    // One pull asks for the first page, three hand out its records.
    let (_, out) = run(vec![page(0, 3, Some("c1")), page(3, 3, None)], 4);
    assert_eq!(out.records, vec![0, 1, 2]);
    assert_eq!(out.fetch_cursors.len(), 1);
    let (_, out) = run(vec![page(0, 3, Some("c1")), page(3, 3, None)], 5);
    assert_eq!(out.records, vec![0, 1, 2]);
    assert_eq!(out.fetch_cursors.len(), 2);
}

#[test]
fn closed_pager_never_asks_for_a_fetch() {
    let mut pager: Pager<u32> = Pager::new();
    assert!(matches!(pager.pull(), Pull::Fetch(None)));
    pager.deliver_page(vec![1, 2, 3], Some("c1".to_string()));
    assert!(matches!(pager.pull(), Pull::Item(1)));
    pager.close();
    for _ in 0..5 {
        assert!(matches!(pager.pull(), Pull::End));
    }
    pager.deliver_page(vec![9], Some("c2".to_string()));
    assert!(matches!(pager.pull(), Pull::End));
    assert_eq!(pager.phase(), Phase::Closed);
}

#[test]
fn result_of_a_fetch_in_flight_at_close_is_discarded() {
    let mut pager: Pager<u32> = Pager::new();
    assert!(matches!(pager.pull(), Pull::Fetch(None)));
    pager.close();
    pager.deliver_page(vec![7, 8], None);
    let decision = pager.deliver_error(SearchError { kind: FailureKind::Transient, detail: String::new() });
    assert_eq!(decision, Decision::Ignored);
    assert!(matches!(pager.pull(), Pull::End));
}

#[test]
fn failure_is_handed_out_once() {
    let mut pager: Pager<u32> = Pager::new();
    assert!(matches!(pager.pull(), Pull::Fetch(None)));
    let d = pager.deliver_error(SearchError { kind: FailureKind::Serialization, detail: "bad page".to_string() });
    assert_eq!(d, Decision::GiveUp);
    match pager.pull() {
        Pull::Failure(e) => {
            assert_eq!(e.kind, FailureKind::Serialization);
            assert_eq!(e.detail, "bad page");
        }
        _ => panic!("expected the failure"),
    }
    assert!(matches!(pager.pull(), Pull::End));
}

#[test]
fn status_codes_map_to_failure_kinds() {
    assert_eq!(failure_for_status(401), FailureKind::Authentication);
    assert_eq!(failure_for_status(403), FailureKind::Authentication);
    assert_eq!(failure_for_status(429), FailureKind::RateLimited);
    assert_eq!(failure_for_status(408), FailureKind::Transient);
    assert_eq!(failure_for_status(500), FailureKind::Api);
    assert_eq!(failure_for_status(404), FailureKind::Api);
    assert!(retryable(FailureKind::RateLimited));
    assert!(retryable(FailureKind::Transient));
    assert!(!retryable(FailureKind::Authentication));
    assert!(!retryable(FailureKind::Api));
}
