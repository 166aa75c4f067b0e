//! The query request model: the APL request body, its query-string flags,
//! and the response headers that are merged into the decoded result.

use vstd::prelude::*;

use crate::endpoint::{spec_query_path, PathStyle};

verus! {

/// The result format of an APL query.
#[derive(Debug, Clone, Copy, PartialEq, Eq, Structural)]
pub enum AplResultFormat {
    /// The legacy result format.
    Legacy,
}

impl Default for AplResultFormat {
    /// The format defaults to legacy.
    fn default() -> (r: Self)
        ensures
            r == AplResultFormat::Legacy,
    {
        AplResultFormat::Legacy
    }
}

/// The kind of a query.
#[derive(Debug, Clone, Copy, PartialEq, Eq, Structural)]
pub enum QueryKind {
    /// An analytics query.
    Analytics,
    /// A streaming query.
    Stream,
    /// An APL query. Read-only, not used in requests.
    Apl,
}

impl Default for QueryKind {
    /// The kind defaults to analytics.
    fn default() -> (r: Self)
        ensures
            r == QueryKind::Analytics,
    {
        QueryKind::Analytics
    }
}

/// A query that gets executed on a dataset, specified in APL.
/// Times are Unix timestamps in seconds.
#[derive(Debug, Clone)]
pub struct Query {
    /// The APL of the query to execute.
    pub apl: String,
    /// Start time of the query.
    pub start_time: Option<i64>,
    /// End time of the query.
    pub end_time: Option<i64>,
    /// The cursor of the query.
    pub cursor: Option<String>,
    /// Whether the event that matches the cursor is included.
    pub include_cursor: bool,
}

impl Default for Query {
    /// An empty query: no APL, no times, no cursor.
    fn default() -> (r: Self)
        ensures
            r.apl@ == Seq::<char>::empty(),
            r.start_time is None,
            r.end_time is None,
            r.cursor is None,
            !r.include_cursor,
    {
        Query {
            apl: String::new(),
            start_time: None,
            end_time: None,
            cursor: None,
            include_cursor: false,
        }
    }
}

/// The optional parameters of a query call.
#[derive(Debug, Clone)]
pub struct QueryOptions {
    /// The start time of the query, as a Unix timestamp in seconds.
    pub start_time: Option<i64>,
    /// The end time of the query, as a Unix timestamp in seconds.
    pub end_time: Option<i64>,
    /// The cursor for use in pagination.
    pub cursor: Option<String>,
    /// Whether the event that matches the cursor is included in the result.
    pub include_cursor: bool,
    /// Omits the query cache.
    pub no_cache: bool,
    /// Saves the query on the server; the id of the saved query comes back
    /// with the result.
    pub save: bool,
    /// The format of the query result.
    pub format: AplResultFormat,
}

impl Default for QueryOptions {
    /// No times, no cursor, no flags, the default format.
    fn default() -> (r: Self)
        ensures
            r.start_time is None,
            r.end_time is None,
            r.cursor is None,
            !r.include_cursor,
            !r.no_cache,
            !r.save,
            r.format == AplResultFormat::Legacy,
    {
        QueryOptions {
            start_time: None,
            end_time: None,
            cursor: None,
            include_cursor: false,
            no_cache: false,
            save: false,
            format: AplResultFormat::Legacy,
        }
    }
}

/// The part of the options that travels in the request URL.
#[derive(Debug, Clone, Copy)]
pub struct QueryParams {
    /// Omits the query cache.
    pub no_cache: bool,
    /// Saves the query on the server.
    pub save: bool,
    /// The result format.
    pub format: AplResultFormat,
}

/// The rendering of a boolean in the query string.
pub open spec fn spec_bool_str(b: bool) -> Seq<char> {
    if b {
        "true"@
    } else {
        "false"@
    }
}

fn bool_str(b: bool) -> (r: &'static str)
    ensures
        r@ == spec_bool_str(b),
{
    proof {
        reveal_strlit("true");
        reveal_strlit("false");
    }
    if b {
        "true"
    } else {
        "false"
    }
}

/// The query string of the URL parameters: the cache flag, the save flag and
/// the result format, in that order.
pub open spec fn spec_query_string(params: QueryParams) -> Seq<char> {
    "nocache="@ + spec_bool_str(params.no_cache) + "&saveAsKind="@ + spec_bool_str(params.save)
        + "&format=legacy"@
}

impl QueryParams {
    /// Renders the parameters as the query string of the request URL.
    pub fn to_query_string(&self) -> (r: String)
        ensures
            r@ == spec_query_string(*self),
    {
        proof {
            reveal_strlit("nocache=");
            reveal_strlit("&saveAsKind=");
            reveal_strlit("&format=legacy");
        }
        let mut s = "nocache=".to_owned();
        s.append(bool_str(self.no_cache));
        s.append("&saveAsKind=");
        s.append(bool_str(self.save));
        s.append("&format=legacy");
        s
    }
}

/// The full query path under a style: the per-style path, a '?', and the
/// query string.
pub open spec fn spec_full_query_path(style: PathStyle, params: QueryParams) -> Seq<char> {
    spec_query_path(style) + "?"@ + spec_query_string(params)
}

/// Builds the request path of a query call: the style's query path with the
/// URL parameters appended.
pub fn build_query_path(style: &PathStyle, params: &QueryParams) -> (r: String)
    ensures
        r@ == spec_full_query_path(*style, *params),
{
    proof {
        reveal_strlit("?");
    }
    let mut p = style.query_path();
    p.append("?");
    let qs = params.to_query_string();
    p.append(qs.as_str());
    p
}

/// The two response headers that are merged into the decoded query result
/// rather than travelling in the JSON payload.
#[derive(Debug, Clone)]
pub struct QueryMetadata {
    /// The id under which the query was saved, when it was saved.
    pub saved_query_id: Option<String>,
    /// The trace id of the call.
    pub trace_id: Option<String>,
}

/// Merges the saved-query-id and trace-id response headers into the decoded
/// result: a present header always populates the field, and only an absent
/// header leaves the body's value standing.
pub fn merge_query_metadata(
    body_saved: Option<String>,
    body_trace: Option<String>,
    header_saved: Option<String>,
    header_trace: Option<String>,
) -> (r: QueryMetadata)
    ensures
        r.saved_query_id == (if header_saved is Some {
            header_saved
        } else {
            body_saved
        }),
        r.trace_id == (if header_trace is Some {
            header_trace
        } else {
            body_trace
        }),
{
    let saved_query_id = match header_saved {
        Some(s) => Some(s),
        None => body_saved,
    };
    let trace_id = match header_trace {
        Some(s) => Some(s),
        None => body_trace,
    };
    QueryMetadata { saved_query_id, trace_id }
}

} // verus!
