//! The closed error type of the client, and the service error it wraps.

use vstd::prelude::*;

use crate::limits::Limits;
use crate::num::dec_digits;

verus! {

/// An HTTP method used by the client.
#[derive(Debug, Clone, Copy, PartialEq, Eq, Structural)]
pub enum Method {
    /// GET
    Get,
    /// POST
    Post,
    /// PUT
    Put,
    /// DELETE
    Delete,
}

impl Method {
    /// Returns the method name as it appears on the wire.
    pub fn as_str(&self) -> (r: &'static str)
        ensures
            r@ == self.spec_name(),
    {
        proof {
            reveal_strlit("GET");
            reveal_strlit("POST");
            reveal_strlit("PUT");
            reveal_strlit("DELETE");
        }
        match self {
            Method::Get => "GET",
            Method::Post => "POST",
            Method::Put => "PUT",
            Method::Delete => "DELETE",
        }
    }

    /// The method name as it appears on the wire.
    pub open spec fn spec_name(self) -> Seq<char> {
        match self {
            Method::Get => "GET"@,
            Method::Post => "POST"@,
            Method::Put => "PUT"@,
            Method::Delete => "DELETE"@,
        }
    }
}

/// An error returned by the service, together with the request context the
/// client attaches to it.
#[derive(Debug, Clone)]
pub struct Axiom {
    /// The HTTP status code.
    pub status: u16,
    /// The HTTP method of the request.
    pub method: Method,
    /// The path that was requested.
    pub path: String,
    /// The error message, when the error body carried one.
    pub message: Option<String>,
    /// The trace id, when the response carried one.
    pub trace_id: Option<String>,
}

/// What `Axiom::message` renders, for each combination of optional parts.
pub open spec fn spec_axiom_message(e: Axiom) -> Seq<char> {
    let head = "Received "@ + dec_digits(e.status as nat) + " on "@ + e.method.spec_name() + " "@
        + e.path@;
    match (e.message, e.trace_id) {
        (Some(msg), Some(tid)) => head + ": "@ + msg@ + " (trace id: "@ + tid@ + ")"@,
        (Some(msg), None) => head + ": "@ + msg@,
        (None, Some(tid)) => head + " (trace id: "@ + tid@ + ")"@,
        (None, None) => "Received "@ + e.method.spec_name() + " on "@ + e.path@ + " "@
            + dec_digits(e.status as nat) + ")"@,
    }
}

impl Axiom {
    /// Creates a service error with no decoded message.
    pub fn new(status: u16, method: Method, path: String, message: Option<String>) -> (r: Axiom)
        ensures
            r.status == status,
            r.method == method,
            r.path == path,
            r.message == message,
            r.trace_id is None,
    {
        Axiom { status, method, path, message, trace_id: None }
    }

    /// Renders the error as one line naming the status, method, path and,
    /// when present, the message and trace id.
    pub fn message(&self) -> (r: String)
        ensures
            r@ == spec_axiom_message(*self),
    {
        proof {
            reveal_strlit("Received ");
            reveal_strlit(" on ");
            reveal_strlit(" ");
            reveal_strlit(": ");
            reveal_strlit(" (trace id: ");
            reveal_strlit(")");
        }
        let status = crate::num::u64_to_string(self.status as u64);
        match (&self.message, &self.trace_id) {
            (Some(msg), Some(tid)) => {
                let mut s = "Received ".to_owned();
                s.append(status.as_str());
                s.append(" on ");
                s.append(self.method.as_str());
                s.append(" ");
                s.append(self.path.as_str());
                s.append(": ");
                s.append(msg.as_str());
                s.append(" (trace id: ");
                s.append(tid.as_str());
                s.append(")");
                s
            },
            (Some(msg), None) => {
                let mut s = "Received ".to_owned();
                s.append(status.as_str());
                s.append(" on ");
                s.append(self.method.as_str());
                s.append(" ");
                s.append(self.path.as_str());
                s.append(": ");
                s.append(msg.as_str());
                s
            },
            (None, Some(tid)) => {
                let mut s = "Received ".to_owned();
                s.append(status.as_str());
                s.append(" on ");
                s.append(self.method.as_str());
                s.append(" ");
                s.append(self.path.as_str());
                s.append(" (trace id: ");
                s.append(tid.as_str());
                s.append(")");
                s
            },
            (None, None) => {
                let mut s = "Received ".to_owned();
                s.append(self.method.as_str());
                s.append(" on ");
                s.append(self.path.as_str());
                s.append(" ");
                s.append(status.as_str());
                s.append(")");
                s
            },
        }
    }
}

/// The error type for the client. Every failure of the core is one of these
/// variants; nothing panics and nothing is silently recovered.
#[derive(Debug, Clone)]
pub enum Error {
    /// A start time lies after the matching end time.
    InvalidTimeOrder,
    /// An update request sets no field at all.
    EmptyUpdate,
    /// A request names no dataset.
    EmptyDatasets,
    /// An annotation type is empty.
    EmptyType,
    /// No token was configured.
    MissingToken,
    /// A personal token on the default cloud endpoint needs an org id.
    MissingOrgId,
    /// The token holds characters that cannot appear in a header value.
    InvalidToken,
    /// The org id holds characters that cannot appear in a header value.
    InvalidOrgId,
    /// A configured URL does not parse.
    InvalidUrl,
    /// A request body could not be serialized.
    Serialize(String),
    /// A response body could not be deserialized.
    Deserialize(String),
    /// The transport gave up after its retry budget; carries the last error.
    Http(String),
    /// The service answered with an error.
    Axiom(Axiom),
    /// The saved-query id header held characters that are not visible ASCII.
    InvalidQueryId,
    /// A payload could not be encoded.
    Encoding(String),
    /// The general rate limit was exceeded.
    RateLimitExceeded {
        /// The scope of the rate limit.
        scope: String,
        /// The rate limit that was hit.
        limits: Limits,
    },
    /// The query quota was exceeded.
    QueryLimitExceeded(Limits),
    /// The ingest quota was exceeded.
    IngestLimitExceeded(Limits),
    /// The event source of a streaming ingestion failed.
    IngestStreamError(String),
    /// A content type string names no supported content type.
    InvalidContentType(String),
    /// A content encoding string names no supported content encoding.
    InvalidContentEncoding(String),
}

/// A `Result` whose error is the client's error type.
pub type Result<T> = core::result::Result<T, Error>;

} // verus!
