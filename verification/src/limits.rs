//! Rate-limit classification: turning a completed response's status code and
//! quota headers into a typed limit.
//!
//! Classification is status-code based: the dedicated limit-exceeded status
//! selects the query or ingest family (query preferred when its headers are
//! present), and the standard too-many-requests status selects the general
//! rate family together with its scope header. A header triple that does not
//! parse as a whole is treated as absent, never as a partial value. A header
//! number is a plain string of decimal digits: a sign, spaces or any other
//! character make the whole triple absent.

use vstd::prelude::*;

use crate::num::{all_digits, dec_value, parse_u64_digits};

verus! {

/// The (limit, remaining, reset) triple describing one quota window.
/// `reset` is a Unix timestamp in seconds.
#[derive(Debug, Clone, Copy, PartialEq, Eq, Structural)]
pub struct Limits {
    /// The maximum the client may use in the current window.
    pub limit: u64,
    /// What remains of the maximum in the current window.
    pub remaining: u64,
    /// When the current window resets, as a Unix timestamp in seconds.
    pub reset: u64,
}

/// A classified limit signal from a completed response.
#[derive(Debug, Clone)]
pub enum Limit {
    /// The ingest quota was hit.
    Ingest(Limits),
    /// The query quota was hit.
    Query(Limits),
    /// The general rate limit was hit, for the named scope.
    Rate(String, Limits),
}

/// The quota-related headers of a completed response, each as the raw header
/// value when the header was present.
pub struct LimitHeaders {
    /// The scope header of the general rate-limit family.
    pub rate_scope: Option<String>,
    /// The limit header of the general rate-limit family.
    pub rate_limit: Option<String>,
    /// The remaining header of the general rate-limit family.
    pub rate_remaining: Option<String>,
    /// The reset header of the general rate-limit family.
    pub rate_reset: Option<String>,
    /// The limit header of the query family.
    pub query_limit: Option<String>,
    /// The remaining header of the query family.
    pub query_remaining: Option<String>,
    /// The reset header of the query family.
    pub query_reset: Option<String>,
    /// The limit header of the ingest family.
    pub ingest_limit: Option<String>,
    /// The remaining header of the ingest family.
    pub ingest_remaining: Option<String>,
    /// The reset header of the ingest family.
    pub ingest_reset: Option<String>,
}

/// The value of one header, when it is present and is a decimal number that
/// fits in a `u64`.
pub open spec fn header_u64(h: Option<String>) -> Option<u64> {
    match h {
        Some(s) => if s@.len() > 0 && all_digits(s@) && dec_value(s@) <= u64::MAX {
            Some(dec_value(s@) as u64)
        } else {
            None
        },
        None => None,
    }
}

/// The parsed triple of one header family, present only when all three
/// headers parse.
pub open spec fn spec_triple(
    limit: Option<String>,
    remaining: Option<String>,
    reset: Option<String>,
) -> Option<Limits> {
    match (header_u64(limit), header_u64(remaining), header_u64(reset)) {
        (Some(l), Some(m), Some(r)) => Some(Limits { limit: l, remaining: m, reset: r }),
        _ => None,
    }
}

/// Parses one header value as a `u64`, exactly as `header_u64` describes.
fn parse_header(h: &Option<String>) -> (r: Option<u64>)
    ensures
        r == header_u64(*h),
{
    match h {
        Some(s) => parse_u64_digits(s.as_str()),
        None => None,
    }
}

impl Limits {
    /// Parses a (limit, remaining, reset) header triple, all or nothing.
    pub fn from_headers(
        limit: &Option<String>,
        remaining: &Option<String>,
        reset: &Option<String>,
    ) -> (r: Option<Limits>)
        ensures
            r == spec_triple(*limit, *remaining, *reset),
    {
        let l = parse_header(limit);
        let m = parse_header(remaining);
        let s = parse_header(reset);
        match (l, m, s) {
            (Some(l), Some(m), Some(s)) => Some(Limits { limit: l, remaining: m, reset: s }),
            _ => None,
        }
    }

    /// True when the window is used up and has not reset at the given time
    /// (a Unix timestamp in seconds).
    pub fn is_exceeded_at(&self, now: u64) -> (r: bool)
        ensures
            r == (self.remaining == 0 && self.reset > now),
    {
        self.remaining == 0 && self.reset > now
    }
}

/// The status code that carries the general rate-limit signal.
pub open spec fn rate_limit_status() -> u16 {
    429
}

/// The dedicated status code that carries the query/ingest limit signal.
pub open spec fn quota_status() -> u16 {
    430
}

/// What `Limit::try_from_response` returns, as a function of the status code
/// and the header values.
pub open spec fn spec_classify(status: u16, h: LimitHeaders) -> Option<Limit> {
    if status == rate_limit_status() {
        match (h.rate_scope, spec_triple(h.rate_limit, h.rate_remaining, h.rate_reset)) {
            (Some(scope), Some(limits)) => Some(Limit::Rate(scope, limits)),
            _ => None,
        }
    } else if status == quota_status() {
        match spec_triple(h.query_limit, h.query_remaining, h.query_reset) {
            Some(limits) => Some(Limit::Query(limits)),
            None => match spec_triple(h.ingest_limit, h.ingest_remaining, h.ingest_reset) {
                Some(limits) => Some(Limit::Ingest(limits)),
                None => None,
            },
        }
    } else {
        None
    }
}

impl Limit {
    /// Classifies a completed response's status code and quota headers.
    ///
    /// Returns `None` unless the status code carries a limit signal and the
    /// matching header family parses as a whole.
    pub fn try_from_response(status: u16, headers: LimitHeaders) -> (r: Option<Limit>)
        ensures
            r == spec_classify(status, headers),
    {
        if status == 429 {
            let limits = Limits::from_headers(
                &headers.rate_limit,
                &headers.rate_remaining,
                &headers.rate_reset,
            );
            match (headers.rate_scope, limits) {
                (Some(scope), Some(limits)) => Some(Limit::Rate(scope, limits)),
                _ => None,
            }
        } else if status == 430 {
            let query = Limits::from_headers(
                &headers.query_limit,
                &headers.query_remaining,
                &headers.query_reset,
            );
            match query {
                Some(limits) => Some(Limit::Query(limits)),
                None => {
                    let ingest = Limits::from_headers(
                        &headers.ingest_limit,
                        &headers.ingest_remaining,
                        &headers.ingest_reset,
                    );
                    match ingest {
                        Some(limits) => Some(Limit::Ingest(limits)),
                        None => None,
                    }
                },
            }
        } else {
            None
        }
    }
}

} // verus!
