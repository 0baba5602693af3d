//! The error taxonomy: one variant per pipeline phase that can fail.

use vstd::prelude::*;

verus! {

/// Exactly one of these is produced when a call fails.  Each variant names
/// the phase that failed and carries the collaborator's error detail as text:
/// URL parsing, transport negotiation (opening or finalizing the request),
/// or body I/O (writing the request body or reading the response body).
#[derive(Debug, Clone)]
pub enum RestError {
    UrlParseError(String),
    HttpRequestError(String),
    HttpIoError(String),
}

impl PartialEq for RestError {
    /// Two errors are equal when the same phase failed with the same detail.
    fn eq(&self, other: &Self) -> bool {
        match (self, other) {
            (RestError::UrlParseError(a), RestError::UrlParseError(b)) => a.eq(b),
            (RestError::HttpRequestError(a), RestError::HttpRequestError(b)) => a.eq(b),
            (RestError::HttpIoError(a), RestError::HttpIoError(b)) => a.eq(b),
            _ => false,
        }
    }
}

impl vstd::std_specs::cmp::PartialEqSpecImpl for RestError {
    open spec fn obeys_eq_spec() -> bool {
        true
    }

    open spec fn eq_spec(&self, other: &Self) -> bool {
        match (self, other) {
            (RestError::UrlParseError(a), RestError::UrlParseError(b)) => a@ == b@,
            (RestError::HttpRequestError(a), RestError::HttpRequestError(b)) => a@ == b@,
            (RestError::HttpIoError(a), RestError::HttpIoError(b)) => a@ == b@,
            _ => false,
        }
    }
}

impl RestError {
    /// The collaborator's error detail carried by this error.
    pub fn detail(&self) -> (r: &String)
        ensures
            r@ == self.detail_view(),
    {
        match self {
            RestError::UrlParseError(d) => d,
            RestError::HttpRequestError(d) => d,
            RestError::HttpIoError(d) => d,
        }
    }

    /// The detail text, whichever phase failed.
    pub open spec fn detail_view(&self) -> Seq<char> {
        match self {
            RestError::UrlParseError(d) => d@,
            RestError::HttpRequestError(d) => d@,
            RestError::HttpIoError(d) => d@,
        }
    }
}

} // verus!
