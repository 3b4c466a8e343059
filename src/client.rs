//! The search façade: validates a time range once, against one clock
//! reading that the caller supplies, and builds the query that every page of one search shares.
use vstd::prelude::*;
use crate::search::{FailureKind, SearchError};
use crate::time::{
    classify, classify_spec, lemma_larger_count_resolves_earlier,
    lemma_relative_form_bounds, relative_form,
    resolve, resolve_spec, valid_range,
};

verus! {

/// The largest page the search service returns.
pub const MAX_PAGE_SIZE: i32 = 1000;

/// The kind of record a search is for.
#[derive(Clone, Copy, Debug, PartialEq, Eq, Structural)]
pub enum Target {
    Logs,
    Spans,
}

/// What every fetch of one search sends: the query text, the resolved time
/// range in epoch milliseconds, the index filter (logs only) and the page size.
#[derive(Debug)]
pub struct SearchQuery {
    pub target: Target,
    pub query: String,
    pub from_ms: i64,
    pub to_ms: i64,
    pub indexes: Option<Vec<String>>,
    pub page_size: i32,
}

pub open spec fn clamp_page_size_spec(hint: int) -> int {
    if hint < 1 {
        1
    } else if hint > MAX_PAGE_SIZE {
        MAX_PAGE_SIZE as int
    } else {
        hint
    }
}

/// A page-size hint brought within what the service accepts.
pub fn clamp_page_size(hint: i32) -> (r: i32)
    ensures
        r as int == clamp_page_size_spec(hint as int),
{
    if hint < 1 {
        1
    } else if hint > MAX_PAGE_SIZE {
        MAX_PAGE_SIZE
    } else {
        hint
    }
}

/// The range is valid at `now` and its start is a signed 64-bit instant.
pub open spec fn range_ok(from: Seq<char>, to: Seq<char>, now: int) -> bool {
    valid_range(from, to, now) && resolve_spec(classify_spec(from)->0, now) >= i64::MIN
}

/// `r` is the outcome of planning a search at clock reading `now`.
pub open spec fn planned(
    r: Result<SearchQuery, SearchError>,
    target: Target,
    query: Seq<char>,
    from: Seq<char>,
    to: Seq<char>,
    indexes: Seq<String>,
    page_size: i32,
    now: int,
) -> bool {
    &&& (r is Ok <==> range_ok(from, to, now))
    &&& match r {
        Ok(q) => {
            &&& q.target == target
            &&& q.query@ == query
            &&& q.from_ms as int == resolve_spec(classify_spec(from)->0, now)
            &&& q.to_ms as int == resolve_spec(classify_spec(to)->0, now)
            &&& q.page_size as int == clamp_page_size_spec(page_size as int)
            &&& match target {
                Target::Logs => q.indexes matches Some(v) && v@ == indexes,
                Target::Spans => q.indexes is None,
            }
        },
        Err(e) => e.kind == FailureKind::InvalidTimeRange,
    }
}

/// Validates `from` and `to` against the clock reading `now_ms` and builds the
/// query of one search; fails with `InvalidTimeRange`, before any fetch, when
/// the range is malformed, empty or backwards.
pub fn plan_search(
    target: Target,
    query: &str,
    from: &str,
    to: &str,
    indexes: Vec<String>,
    page_size: i32,
    now_ms: i64,
) -> (r: Result<SearchQuery, SearchError>)
    ensures
        planned(r, target, query@, from@, to@, indexes@, page_size, now_ms as int),
{
    let bounds = match (classify(from), classify(to)) {
        (Some(a), Some(b)) => {
            let start = resolve(&a, now_ms);
            let end = resolve(&b, now_ms);
            if start < end && start >= i64::MIN as i128 {
                Some((start as i64, end as i64))
            } else {
                None
            }
        },
        _ => None,
    };
    match bounds {
        Some((from_ms, to_ms)) => {
            let filter = match target {
                Target::Logs => Some(indexes),
                Target::Spans => None,
            };
            Ok(
                SearchQuery {
                    target,
                    query: query.to_owned(),
                    from_ms,
                    to_ms,
                    indexes: filter,
                    page_size: clamp_page_size(page_size),
                },
            )
        },
        None => Err(
            SearchError {
                kind: FailureKind::InvalidTimeRange,
                detail: "invalid time range".to_owned(),
            },
        ),
    }
}

/// For a fixed unit and counts `N1 < N2`, a search from `now-<N2><unit>` to
/// `now-<N1><unit>` is planned at every clock reading from the epoch on, and
/// the reverse range is refused.
pub proof fn lemma_relative_range_order(s1: Seq<char>, s2: Seq<char>, now: int)
    requires
        classify_spec(s1) is Some,
        classify_spec(s2) is Some,
        relative_form(s1) is Some,
        relative_form(s2) is Some,
        relative_form(s1)->0.unit_ms == relative_form(s2)->0.unit_ms,
        relative_form(s1)->0.count < relative_form(s2)->0.count,
        0 <= now <= i64::MAX,
    ensures
        range_ok(s2, s1, now),
        !range_ok(s1, s2, now),
{
    lemma_larger_count_resolves_earlier(s1, s2, now);
    lemma_relative_form_bounds(s2);
    let c = relative_form(s2)->0.count;
    let u = relative_form(s2)->0.unit_ms;
    assert(c * u >= 0) by (nonlinear_arith)
        requires
            c >= 0,
            u > 0,
    ;
}

} // verus!
