//! The command line, as plain values: which domain, which action, and the
//! arguments of a search.
use vstd::prelude::*;
use crate::client::{plan_search, planned, SearchQuery, Target};
use crate::search::SearchError;

verus! {

/// The bounds of the time range of a search, as typed.
#[derive(Debug)]
pub struct TimeRange {
    pub from: String,
    pub to: String,
}

/// How many records one page should hold.
#[derive(Clone, Copy, Debug, PartialEq, Eq, Structural)]
pub struct Pagination {
    pub page_size: i32,
}

/// The actions of the logs domain.
#[derive(Debug)]
pub enum LogsAction {
    Search { query: String, time_range: TimeRange, pagination: Pagination, indexes: Vec<String> },
}

/// The actions of the spans domain.
#[derive(Debug)]
pub enum SpansAction {
    Search { query: String, time_range: TimeRange, pagination: Pagination },
}

/// The domain a command queries.
#[derive(Debug)]
pub enum Domain {
    Logs { action: LogsAction },
    Spans { action: SpansAction },
}

/// A whole command line.
#[derive(Debug)]
pub struct Cli {
    pub verbose: bool,
    pub domain: Domain,
}

/// The search a domain command asks for, planned at clock reading `now`.
pub open spec fn domain_planned(d: Domain, r: Result<SearchQuery, SearchError>, now: int) -> bool {
    match d {
        Domain::Logs { action: LogsAction::Search { query, time_range, pagination, indexes } } => {
            planned(
                r,
                Target::Logs,
                query@,
                time_range.from@,
                time_range.to@,
                indexes@,
                pagination.page_size,
                now,
            )
        },
        Domain::Spans { action: SpansAction::Search { query, time_range, pagination } } => {
            planned(
                r,
                Target::Spans,
                query@,
                time_range.from@,
                time_range.to@,
                Seq::empty(),
                pagination.page_size,
                now,
            )
        },
    }
}

impl Domain {
    /// The query of the search this command asks for, with its time range
    /// resolved against the clock reading `now_ms`.
    pub fn into_query(self, now_ms: i64) -> (r: Result<SearchQuery, SearchError>)
        ensures
            domain_planned(self, r, now_ms as int),
    {
        match self {
            Domain::Logs { action: LogsAction::Search { query, time_range, pagination, indexes } } => {
                plan_search(
                    Target::Logs,
                    query.as_str(),
                    time_range.from.as_str(),
                    time_range.to.as_str(),
                    indexes,
                    pagination.page_size,
                    now_ms,
                )
            },
            Domain::Spans { action: SpansAction::Search { query, time_range, pagination } } => {
                plan_search(
                    Target::Spans,
                    query.as_str(),
                    time_range.from.as_str(),
                    time_range.to.as_str(),
                    Vec::new(),
                    pagination.page_size,
                    now_ms,
                )
            },
        }
    }
}

} // verus!
