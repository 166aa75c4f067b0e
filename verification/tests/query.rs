use axiom_rs::endpoint::PathStyle;
use axiom_rs::query::{
    build_query_path, merge_query_metadata, AplResultFormat, QueryOptions, QueryParams,
};

#[test]
fn query_string_renders_all_flags() {
    let params = QueryParams { no_cache: false, save: false, format: AplResultFormat::Legacy };
    assert_eq!(params.to_query_string(), "nocache=false&saveAsKind=false&format=legacy");
    let params = QueryParams { no_cache: true, save: true, format: AplResultFormat::Legacy };
    assert_eq!(params.to_query_string(), "nocache=true&saveAsKind=true&format=legacy");
}

#[test]
fn query_path_carries_the_flags() {
    let style = PathStyle::Legacy("https://api.example.com".to_string());
    let params = QueryParams { no_cache: true, save: false, format: AplResultFormat::Legacy };
    assert_eq!(
        build_query_path(&style, &params),
        "/v1/datasets/_apl?nocache=true&saveAsKind=false&format=legacy"
    );
}

#[test]
fn headers_populate_the_decoded_result() {
    // A body lacking both ids still yields both, populated from the
    // response headers.
    let meta = merge_query_metadata(
        None,
        None,
        Some("saved-123".to_string()),
        Some("trace-456".to_string()),
    );
    assert_eq!(meta.saved_query_id.as_deref(), Some("saved-123"));
    assert_eq!(meta.trace_id.as_deref(), Some("trace-456"));
}

#[test]
fn absent_headers_leave_body_values_standing() {
    let meta = merge_query_metadata(
        Some("body-saved".to_string()),
        Some("body-trace".to_string()),
        None,
        None,
    );
    assert_eq!(meta.saved_query_id.as_deref(), Some("body-saved"));
    assert_eq!(meta.trace_id.as_deref(), Some("body-trace"));

    // A present header wins over a body value.
    let meta = merge_query_metadata(
        Some("body-saved".to_string()),
        None,
        Some("header-saved".to_string()),
        None,
    );
    assert_eq!(meta.saved_query_id.as_deref(), Some("header-saved"));
    assert_eq!(meta.trace_id, None);
}

#[test]
fn query_options_default() {
    let opts = QueryOptions::default();
    assert!(opts.start_time.is_none());
    assert!(opts.end_time.is_none());
    assert!(opts.cursor.is_none());
    assert!(!opts.include_cursor);
    assert!(!opts.no_cache);
    assert!(!opts.save);
    assert!(matches!(opts.format, AplResultFormat::Legacy));
}
