use axiom_rs::endpoint::{resolve, PathStyle};

fn style_of(
    api: Option<&str>,
    edge: Option<&str>,
    region: Option<&str>,
) -> (String, PathStyle) {
    let resolved = resolve(api, edge, region).expect("the configuration resolves");
    (resolved.api_base, resolved.style)
}

#[test]
fn resolution_truth_table() {
    // Explicit edge URL with a non-root path passes through as-is,
    // whatever else is set.
    let (_, style) = style_of(None, Some("https://edge.example.com/custom"), None);
    assert!(matches!(style, PathStyle::AsIs(u) if u == "https://edge.example.com/custom"));
    let (_, style) = style_of(
        Some("https://api.example.com"),
        Some("https://edge.example.com/custom"),
        Some("eu-central-1.example.com"),
    );
    assert!(matches!(style, PathStyle::AsIs(u) if u == "https://edge.example.com/custom"));

    // Explicit edge URL without a path, or with a bare root path, selects
    // the edge family on that URL.
    let (_, style) = style_of(None, Some("https://edge.example.com"), None);
    assert!(matches!(style, PathStyle::Edge(u) if u == "https://edge.example.com"));
    let (_, style) = style_of(None, Some("https://edge.example.com/"), None);
    assert!(matches!(style, PathStyle::Edge(u) if u == "https://edge.example.com/"));

    // A region selects the edge family on the normalized region URL.
    let (_, style) = style_of(None, None, Some("eu-central-1.example.com/"));
    assert!(matches!(style, PathStyle::Edge(u) if u == "https://eu-central-1.example.com"));

    // Nothing configured on a custom API URL stays with the legacy family.
    let (api, style) = style_of(Some("https://api.example.com"), None, None);
    assert_eq!(api, "https://api.example.com");
    assert!(matches!(style, PathStyle::Legacy(u) if u == "https://api.example.com"));

    // Nothing configured on the default cloud API URL deliberately targets
    // the separate default edge URL.
    let (api, style) = style_of(None, None, None);
    assert_eq!(api, "https://api.axiom.co");
    assert!(matches!(style, PathStyle::Edge(u) if u == "https://edge.axiom.co"));
    let (_, style) = style_of(Some("https://api.axiom.co"), None, None);
    assert!(matches!(style, PathStyle::Edge(u) if u == "https://edge.axiom.co"));
}

#[test]
fn resolve_is_deterministic() {
    let a = style_of(Some("https://api.example.com"), None, Some("r1.example.com"));
    let b = style_of(Some("https://api.example.com"), None, Some("r1.example.com"));
    assert_eq!(a.0, b.0);
    match (a.1, b.1) {
        (PathStyle::Edge(x), PathStyle::Edge(y)) => assert_eq!(x, y),
        other => panic!("expected matching edge styles, got {:?}", other),
    }
}

#[test]
fn invalid_urls_are_rejected() {
    assert!(resolve(Some("not a url"), None, None).is_err());
    assert!(resolve(None, Some("::::"), None).is_err());
}

#[test]
fn control_characters_do_not_count_as_path() {
    // The URL parser trims control characters and spaces at the ends and
    // drops tab and newlines everywhere, so none of them makes a path.
    let (_, style) = style_of(None, Some("https://edge.example.com/\n"), None);
    assert!(matches!(style, PathStyle::Edge(_)));
    let (_, style) = style_of(None, Some("  https://edge.example.com  "), None);
    assert!(matches!(style, PathStyle::Edge(_)));
    let (_, style) = style_of(None, Some("https://edge.example.com/cus\ttom"), None);
    assert!(matches!(style, PathStyle::AsIs(_)));
}

#[test]
fn query_and_fragment_do_not_count_as_path() {
    let (_, style) = style_of(None, Some("https://edge.example.com?x=1"), None);
    assert!(matches!(style, PathStyle::Edge(_)));
    let (_, style) = style_of(None, Some("https://edge.example.com/?x=/slash"), None);
    assert!(matches!(style, PathStyle::Edge(_)));
}

#[test]
fn per_style_paths() {
    let legacy = PathStyle::Legacy("https://api.example.com".to_string());
    assert_eq!(legacy.ingest_path("my-dataset"), "/v1/datasets/my-dataset/ingest");
    assert_eq!(legacy.query_path(), "/v1/datasets/_apl");

    let edge = PathStyle::Edge("https://edge.example.com".to_string());
    assert_eq!(edge.ingest_path("my-dataset"), "/v1/ingest/my-dataset");
    assert_eq!(edge.query_path(), "/v1/query/_apl");

    let as_is = PathStyle::AsIs("https://edge.example.com/custom".to_string());
    assert_eq!(as_is.ingest_path("my-dataset"), "");
    assert_eq!(as_is.query_path(), "");
}
