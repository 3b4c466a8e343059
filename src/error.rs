//! Application errors and the process exit code of each.
use vstd::prelude::*;
use crate::search::{FailureKind, SearchError};

verus! {

#[verifier::external_type_specification]
#[verifier::external_body]
pub struct ExIoError(std::io::Error);

#[verifier::external_type_specification]
#[verifier::external_body]
pub struct ExJsonError(serde_json::Error);

/// Every way the application can fail.
#[derive(Debug)]
pub enum AppError {
    Auth(String),
    Api(String),
    InvalidQuery(String),
    Config(String),
    Io(std::io::Error),
    Serialization(serde_json::Error),
    /// A page of the search could not be read as records.
    Decode(String),
}

pub open spec fn exit_code_spec(e: &AppError) -> i32 {
    match e {
        AppError::Auth(_) => 2,
        AppError::Api(_) => 3,
        AppError::InvalidQuery(_) => 4,
        AppError::Config(_) => 5,
        AppError::Io(_) => 6,
        AppError::Serialization(_) => 7,
        AppError::Decode(_) => 7,
    }
}

pub open spec fn label_spec(e: &AppError) -> Seq<char> {
    match e {
        AppError::Auth(_) => "Authentication failed"@,
        AppError::Api(_) => "API error"@,
        AppError::InvalidQuery(_) => "Invalid query"@,
        AppError::Config(_) => "Configuration error"@,
        AppError::Io(_) => "IO error"@,
        AppError::Serialization(_) => "Serialization error"@,
        AppError::Decode(_) => "Serialization error"@,
    }
}

/// The application error a failed search ends with.
pub open spec fn from_search_error_spec(e: SearchError) -> AppError {
    match e.kind {
        FailureKind::Authentication => AppError::Auth(e.detail),
        FailureKind::InvalidTimeRange => AppError::InvalidQuery(e.detail),
        FailureKind::Serialization => AppError::Decode(e.detail),
        _ => AppError::Api(e.detail),
    }
}

/// Relies on `std::io::Error`'s `Display`: its text.
#[verifier::external_body]
fn io_error_text(e: &std::io::Error) -> String {
    e.to_string()
}

/// Relies on `serde_json::Error`'s `Display`: its text.
#[verifier::external_body]
fn json_error_text(e: &serde_json::Error) -> String {
    e.to_string()
}

/// `label`, then `": "`, then `detail`.
fn labelled(label: &str, detail: &str) -> (r: String)
    ensures
        r@ == label@ + ": "@ + detail@,
{
    let mut r = String::from_str(label);
    r.append(": ");
    r.append(detail);
    r
}

proof fn lemma_prefix(pre: Seq<char>, d: Seq<char>)
    ensures
        (pre + d).len() >= pre.len(),
        (pre + d).subrange(0, pre.len() as int) == pre,
{
    assert((pre + d).subrange(0, pre.len() as int) =~= pre);
}

impl AppError {
    /// The exit code for this error: 2 authentication, 3 API, 4 invalid
    /// query, 5 configuration, 6 I/O, 7 serialization or an unreadable page.
    pub fn exit_code(&self) -> (r: i32)
        ensures
            r == exit_code_spec(self),
    {
        match self {
            AppError::Auth(_) => 2,
            AppError::Api(_) => 3,
            AppError::InvalidQuery(_) => 4,
            AppError::Config(_) => 5,
            AppError::Io(_) => 6,
            AppError::Serialization(_) => 7,
            AppError::Decode(_) => 7,
        }
    }

    /// The label of the error's kind.
    pub fn label(&self) -> (r: &'static str)
        ensures
            r@ == label_spec(self),
    {
        match self {
            AppError::Auth(_) => "Authentication failed",
            AppError::Api(_) => "API error",
            AppError::InvalidQuery(_) => "Invalid query",
            AppError::Config(_) => "Configuration error",
            AppError::Io(_) => "IO error",
            AppError::Serialization(_) => "Serialization error",
            AppError::Decode(_) => "Serialization error",
        }
    }

    /// The message shown to the user: the label, `": "`, and the detail
    /// (for an I/O or JSON error, the text its `Display` gives).
    pub fn message(&self) -> (r: String)
        ensures
            r@.len() >= label_spec(self).len() + 2,
            r@.subrange(0, label_spec(self).len() + 2 as int) == label_spec(self) + ": "@,
            match self {
                AppError::Auth(s) => r@ == label_spec(self) + ": "@ + s@,
                AppError::Api(s) => r@ == label_spec(self) + ": "@ + s@,
                AppError::InvalidQuery(s) => r@ == label_spec(self) + ": "@ + s@,
                AppError::Config(s) => r@ == label_spec(self) + ": "@ + s@,
                AppError::Decode(s) => r@ == label_spec(self) + ": "@ + s@,
                _ => true,
            },
    {
        let label = self.label();
        proof {
            reveal_strlit(": ");
        }
        let detail = match self {
            AppError::Auth(s) | AppError::Api(s) | AppError::InvalidQuery(s) | AppError::Config(
                s,
            ) | AppError::Decode(s) => s.clone(),
            AppError::Io(e) => io_error_text(e),
            AppError::Serialization(e) => json_error_text(e),
        };
        let r = labelled(label, detail.as_str());
        proof {
            lemma_prefix(label@ + ": "@, detail@);
        }
        r
    }
}

impl From<std::io::Error> for AppError {
    fn from(e: std::io::Error) -> AppError {
        AppError::Io(e)
    }
}

impl vstd::std_specs::convert::FromSpecImpl<std::io::Error> for AppError {
    open spec fn obeys_from_spec() -> bool {
        true
    }

    open spec fn from_spec(e: std::io::Error) -> AppError {
        AppError::Io(e)
    }
}

impl From<serde_json::Error> for AppError {
    fn from(e: serde_json::Error) -> AppError {
        AppError::Serialization(e)
    }
}

impl vstd::std_specs::convert::FromSpecImpl<serde_json::Error> for AppError {
    open spec fn obeys_from_spec() -> bool {
        true
    }

    open spec fn from_spec(e: serde_json::Error) -> AppError {
        AppError::Serialization(e)
    }
}

/// A search that failed ends the application with: an authentication
/// failure as `Auth`, a rejected time range as `InvalidQuery`, an unreadable
/// page as `Decode`, and any other failure (retries used up included) as `Api`.
impl From<SearchError> for AppError {
    fn from(e: SearchError) -> AppError {
        match e.kind {
            FailureKind::Authentication => AppError::Auth(e.detail),
            FailureKind::InvalidTimeRange => AppError::InvalidQuery(e.detail),
            FailureKind::Serialization => AppError::Decode(e.detail),
            _ => AppError::Api(e.detail),
        }
    }
}

impl vstd::std_specs::convert::FromSpecImpl<SearchError> for AppError {
    open spec fn obeys_from_spec() -> bool {
        true
    }

    open spec fn from_spec(e: SearchError) -> AppError {
        from_search_error_spec(e)
    }
}

/// The application error a failed search ends with, and its exit code.
pub fn search_failure(e: SearchError) -> (r: AppError)
    ensures
        r == from_search_error_spec(e),
        exit_code_spec(&r) == match e.kind {
            FailureKind::Authentication => 2i32,
            FailureKind::InvalidTimeRange => 4i32,
            FailureKind::Serialization => 7i32,
            _ => 3i32,
        },
{
    AppError::from(e)
}

} // verus!
