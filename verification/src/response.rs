//! The response envelope: a completed, post-retry exchange, and its mapping
//! to a typed result or a typed error.
//!
//! The rate-limit extractor is consulted before error mapping, so a failed
//! exchange caused by exceeding a limit surfaces as the specific limit error
//! rather than a generic service error. A malformed error body never turns
//! into a decode error: the typed service error still carries the status,
//! method and path, with no message.

use vstd::prelude::*;

use crate::error::{Axiom, Error, Method, Result};
use crate::limits::{spec_classify, Limit, LimitHeaders};

verus! {

/// A completed exchange, reduced to the values the error mapping reads.
#[derive(Debug)]
pub struct Response {
    /// The HTTP status code.
    pub status: u16,
    /// The method of the request.
    pub method: Method,
    /// The path of the request.
    pub path: String,
    /// The limit signal classified from the status code and headers.
    pub limit: Option<Limit>,
    /// The message of the decoded error body, when the body decoded and
    /// carried one.
    pub message: Option<String>,
    /// The trace-id header, when present.
    pub trace_id: Option<String>,
}

/// A status code that concludes the exchange successfully.
pub open spec fn spec_success(status: u16) -> bool {
    200 <= status < 300
}

impl Response {
    /// Wraps a completed exchange, classifying its limit signal from the
    /// status code and quota headers.
    pub fn new(
        status: u16,
        method: Method,
        path: String,
        headers: LimitHeaders,
        message: Option<String>,
        trace_id: Option<String>,
    ) -> (r: Response)
        ensures
            r.status == status,
            r.method == method,
            r.path == path,
            r.limit == spec_classify(status, headers),
            r.message == message,
            r.trace_id == trace_id,
    {
        let limit = Limit::try_from_response(status, headers);
        Response { status, method, path, limit, message, trace_id }
    }

    /// Maps the exchange to itself on success, and to the one typed error
    /// its status and limit signal call for on failure.
    pub fn check_error(self) -> (r: Result<Response>)
        ensures
            match r {
                Ok(resp) => spec_success(self.status) && resp == self,
                Err(e) => !spec_success(self.status) && match self.limit {
                    Some(Limit::Rate(scope, limits)) => {
                        &&& e matches Error::RateLimitExceeded { scope: s, limits: l }
                        &&& s == scope
                        &&& l == limits
                    },
                    Some(Limit::Query(limits)) => e matches Error::QueryLimitExceeded(l) && l
                        == limits,
                    Some(Limit::Ingest(limits)) => e matches Error::IngestLimitExceeded(l) && l
                        == limits,
                    None => {
                        &&& e matches Error::Axiom(ax)
                        &&& ax.status == self.status
                        &&& ax.method == self.method
                        &&& ax.path == self.path
                        &&& ax.message == self.message
                        &&& ax.trace_id == self.trace_id
                    },
                },
            },
    {
        if 200 <= self.status && self.status < 300 {
            return Ok(self);
        }
        match self.limit {
            Some(Limit::Rate(scope, limits)) => Err(Error::RateLimitExceeded { scope, limits }),
            Some(Limit::Query(limits)) => Err(Error::QueryLimitExceeded(limits)),
            Some(Limit::Ingest(limits)) => Err(
                Error::IngestLimitExceeded(limits),
            ),
            None => Err(
                Error::Axiom(
                    Axiom {
                        status: self.status,
                        method: self.method,
                        path: self.path,
                        message: self.message,
                        trace_id: self.trace_id,
                    },
                ),
            ),
        }
    }
}

/// What decoding the service error body `{message?: string}` yields: nothing
/// when the body is not such an object, else its optional message.
pub uninterp spec fn spec_error_body_message(body: Seq<u8>) -> Option<Option<Seq<char>>>;

/// Relies on serde_json::from_slice to decode the service error body
/// `{message?: string}`. The result is a function of the bytes alone.
#[verifier::external_body]
pub(crate) fn decode_error_message(body: &[u8]) -> (r: Option<Option<String>>)
    ensures
        r.deep_view() == spec_error_body_message(body@),
{
    match serde_json::from_slice::<serde_json::Value>(body) {
        Ok(v) => match v.get("message").and_then(serde_json::Value::as_str) {
            Some(s) => Some(Some(s.to_string())),
            None => Some(None),
        },
        Err(_) => None,
    }
}

/// Flattens the decode of an error body into the message the typed error
/// carries: a body that decodes without a message, or does not decode at
/// all, leaves the error without one.
pub fn error_body_message(body: &[u8]) -> (r: Option<String>)
    ensures
        match spec_error_body_message(body@) {
            Some(Some(t)) => r matches Some(s) && s@ == t,
            Some(None) => r is None,
            None => r is None,
        },
{
    match decode_error_message(body) {
        Some(Some(s)) => Some(s),
        _ => None,
    }
}

} // verus!
