use axiom_rs::limits::{Limit, LimitHeaders, Limits};

fn no_headers() -> LimitHeaders {
    LimitHeaders {
        rate_scope: None,
        rate_limit: None,
        rate_remaining: None,
        rate_reset: None,
        query_limit: None,
        query_remaining: None,
        query_reset: None,
        ingest_limit: None,
        ingest_remaining: None,
        ingest_reset: None,
    }
}

#[test]
fn rate_limit_classified_from_status_and_headers() {
    let mut h = no_headers();
    h.rate_scope = Some("user".to_string());
    h.rate_limit = Some("42".to_string());
    h.rate_remaining = Some("0".to_string());
    h.rate_reset = Some("1707217168".to_string());
    match Limit::try_from_response(429, h) {
        Some(Limit::Rate(scope, limits)) => {
            assert_eq!(scope, "user");
            assert_eq!(limits.limit, 42);
            assert_eq!(limits.remaining, 0);
            assert_eq!(limits.reset, 1707217168);
        }
        other => panic!("expected a rate limit, got {:?}", other),
    }
}

#[test]
fn missing_or_malformed_header_yields_no_limit() {
    // A missing remaining header breaks the triple as a whole.
    let mut h = no_headers();
    h.rate_scope = Some("user".to_string());
    h.rate_limit = Some("42".to_string());
    h.rate_reset = Some("1707217168".to_string());
    assert!(Limit::try_from_response(429, h).is_none());

    // A malformed limit header breaks the triple as a whole.
    let mut h = no_headers();
    h.rate_scope = Some("user".to_string());
    h.rate_limit = Some("fortytwo".to_string());
    h.rate_remaining = Some("0".to_string());
    h.rate_reset = Some("1707217168".to_string());
    assert!(Limit::try_from_response(429, h).is_none());

    // A missing scope rejects the rate family even with a clean triple.
    let mut h = no_headers();
    h.rate_limit = Some("42".to_string());
    h.rate_remaining = Some("0".to_string());
    h.rate_reset = Some("1707217168".to_string());
    assert!(Limit::try_from_response(429, h).is_none());
}

#[test]
fn quota_status_prefers_query_headers() {
    let mut h = no_headers();
    h.query_limit = Some("10".to_string());
    h.query_remaining = Some("1".to_string());
    h.query_reset = Some("100".to_string());
    h.ingest_limit = Some("20".to_string());
    h.ingest_remaining = Some("2".to_string());
    h.ingest_reset = Some("200".to_string());
    match Limit::try_from_response(430, h) {
        Some(Limit::Query(limits)) => assert_eq!(limits.limit, 10),
        other => panic!("expected a query limit, got {:?}", other),
    }
}

#[test]
fn quota_status_falls_back_to_ingest_headers() {
    let mut h = no_headers();
    h.ingest_limit = Some("20".to_string());
    h.ingest_remaining = Some("2".to_string());
    h.ingest_reset = Some("200".to_string());
    match Limit::try_from_response(430, h) {
        Some(Limit::Ingest(limits)) => {
            assert_eq!(limits.limit, 20);
            assert_eq!(limits.remaining, 2);
            assert_eq!(limits.reset, 200);
        }
        other => panic!("expected an ingest limit, got {:?}", other),
    }
}

#[test]
fn other_statuses_carry_no_limit_signal() {
    let mut h = no_headers();
    h.rate_scope = Some("user".to_string());
    h.rate_limit = Some("42".to_string());
    h.rate_remaining = Some("0".to_string());
    h.rate_reset = Some("1707217168".to_string());
    assert!(Limit::try_from_response(200, h).is_none());
}

#[test]
fn exceeded_window_is_detected() {
    let limits = Limits { limit: 42, remaining: 0, reset: 1000 };
    assert!(limits.is_exceeded_at(999));
    assert!(!limits.is_exceeded_at(1000));
    let open = Limits { limit: 42, remaining: 1, reset: 1000 };
    assert!(!open.is_exceeded_at(0));
}

#[test]
fn triple_parses_all_or_nothing() {
    let r = Limits::from_headers(
        &Some("1".to_string()),
        &Some("2".to_string()),
        &Some("3".to_string()),
    );
    assert_eq!(r, Some(Limits { limit: 1, remaining: 2, reset: 3 }));
    let r = Limits::from_headers(&Some("1".to_string()), &None, &Some("3".to_string()));
    assert_eq!(r, None);
    let r = Limits::from_headers(
        &Some("1".to_string()),
        &Some("-2".to_string()),
        &Some("3".to_string()),
    );
    assert_eq!(r, None);
}
