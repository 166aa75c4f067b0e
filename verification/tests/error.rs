use axiom_rs::error::{Axiom, Method};
use axiom_rs::num::{parse_u64_digits, u64_to_string};
use axiom_rs::text::i64_to_string;

#[test]
fn service_error_message_with_message_and_trace() {
    let ax = Axiom {
        status: 404,
        method: Method::Get,
        path: "/v1/datasets/nope".to_string(),
        message: Some("not found".to_string()),
        trace_id: Some("t-1".to_string()),
    };
    assert_eq!(
        ax.message(),
        "Received 404 on GET /v1/datasets/nope: not found (trace id: t-1)"
    );
}

#[test]
fn service_error_message_variants() {
    let ax = Axiom::new(500, Method::Post, "/v1/datasets".to_string(), Some("boom".to_string()));
    assert_eq!(ax.message(), "Received 500 on POST /v1/datasets: boom");

    let mut ax = Axiom::new(502, Method::Put, "/v1/x".to_string(), None);
    ax.trace_id = Some("t-2".to_string());
    assert_eq!(ax.message(), "Received 502 on PUT /v1/x (trace id: t-2)");

    let ax = Axiom::new(503, Method::Delete, "/v1/y".to_string(), None);
    assert_eq!(ax.message(), "Received DELETE on /v1/y 503)");
}

#[test]
fn method_names() {
    assert_eq!(Method::Get.as_str(), "GET");
    assert_eq!(Method::Post.as_str(), "POST");
    assert_eq!(Method::Put.as_str(), "PUT");
    assert_eq!(Method::Delete.as_str(), "DELETE");
}

#[test]
fn decimal_rendering() {
    assert_eq!(u64_to_string(0), "0");
    assert_eq!(u64_to_string(42), "42");
    assert_eq!(u64_to_string(18446744073709551615), "18446744073709551615");
    assert_eq!(i64_to_string(-5), "-5");
    assert_eq!(i64_to_string(0), "0");
    assert_eq!(i64_to_string(i64::MIN), "-9223372036854775808");
}

#[test]
fn decimal_parsing() {
    assert_eq!(parse_u64_digits("0"), Some(0));
    assert_eq!(parse_u64_digits("007"), Some(7));
    assert_eq!(parse_u64_digits("18446744073709551615"), Some(u64::MAX));
    assert_eq!(parse_u64_digits("18446744073709551616"), None);
    assert_eq!(parse_u64_digits(""), None);
    assert_eq!(parse_u64_digits("12a"), None);
    assert_eq!(parse_u64_digits("-1"), None);
    assert_eq!(parse_u64_digits("+1"), None);
    assert_eq!(parse_u64_digits(" 1"), None);
}
