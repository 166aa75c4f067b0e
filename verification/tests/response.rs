use axiom_rs::error::{Error, Method};
use axiom_rs::limits::LimitHeaders;
use axiom_rs::response::{error_body_message, Response};

fn no_headers() -> LimitHeaders {
    LimitHeaders {
        rate_scope: None,
        rate_limit: None,
        rate_remaining: None,
        rate_reset: None,
        query_limit: None,
        query_remaining: None,
        query_reset: None,
        ingest_limit: None,
        ingest_remaining: None,
        ingest_reset: None,
    }
}

#[test]
fn success_passes_through() {
    let resp = Response::new(204, Method::Get, "/v1/datasets".to_string(), no_headers(), None, None);
    assert!(resp.check_error().is_ok());
}

#[test]
fn limit_errors_take_precedence_over_generic_errors() {
    let mut h = no_headers();
    h.ingest_limit = Some("42".to_string());
    h.ingest_remaining = Some("0".to_string());
    h.ingest_reset = Some("1707217168".to_string());
    let resp = Response::new(
        430,
        Method::Post,
        "/v1/datasets/test/ingest".to_string(),
        h,
        Some("ingest limit exceeded".to_string()),
        None,
    );
    match resp.check_error() {
        Err(Error::IngestLimitExceeded(limits)) => {
            assert_eq!(limits.limit, 42);
            assert_eq!(limits.remaining, 0);
            assert_eq!(limits.reset, 1707217168);
        }
        other => panic!("expected an ingest limit error, got {:?}", other),
    }
}

#[test]
fn rate_limit_error_carries_its_scope() {
    let mut h = no_headers();
    h.rate_scope = Some("user".to_string());
    h.rate_limit = Some("42".to_string());
    h.rate_remaining = Some("0".to_string());
    h.rate_reset = Some("1707217168".to_string());
    let resp = Response::new(429, Method::Get, "/v1/datasets".to_string(), h, None, None);
    match resp.check_error() {
        Err(Error::RateLimitExceeded { scope, limits }) => {
            assert_eq!(scope, "user");
            assert_eq!(limits.limit, 42);
        }
        other => panic!("expected a rate limit error, got {:?}", other),
    }
}

#[test]
fn query_limit_error() {
    let mut h = no_headers();
    h.query_limit = Some("42".to_string());
    h.query_remaining = Some("0".to_string());
    h.query_reset = Some("1707217168".to_string());
    let resp = Response::new(430, Method::Post, "/v1/datasets/_apl".to_string(), h, None, None);
    match resp.check_error() {
        Err(Error::QueryLimitExceeded(limits)) => assert_eq!(limits.limit, 42),
        other => panic!("expected a query limit error, got {:?}", other),
    }
}

#[test]
fn failures_without_limit_signal_become_service_errors() {
    let resp = Response::new(
        404,
        Method::Delete,
        "/v1/datasets/nope".to_string(),
        no_headers(),
        Some("dataset not found".to_string()),
        Some("trace-1".to_string()),
    );
    match resp.check_error() {
        Err(Error::Axiom(ax)) => {
            assert_eq!(ax.status, 404);
            assert!(matches!(ax.method, Method::Delete));
            assert_eq!(ax.path, "/v1/datasets/nope");
            assert_eq!(ax.message.as_deref(), Some("dataset not found"));
            assert_eq!(ax.trace_id.as_deref(), Some("trace-1"));
        }
        other => panic!("expected a service error, got {:?}", other),
    }
}

#[test]
fn malformed_error_bodies_still_give_typed_errors() {
    // The decode of the body is separate: a malformed body yields no
    // message, and the typed error still carries the request context.
    assert_eq!(error_body_message(b"not json at all"), None);
    assert_eq!(error_body_message(b"{}"), None);
    assert_eq!(
        error_body_message(br#"{"message":"it broke"}"#).as_deref(),
        Some("it broke")
    );

    let resp = Response::new(
        500,
        Method::Post,
        "/v1/datasets".to_string(),
        no_headers(),
        error_body_message(b"<html>oops</html>"),
        None,
    );
    match resp.check_error() {
        Err(Error::Axiom(ax)) => {
            assert_eq!(ax.status, 500);
            assert_eq!(ax.message, None);
        }
        other => panic!("expected a service error, got {:?}", other),
    }
}
