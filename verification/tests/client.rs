use axiom_rs::client::Client;
use axiom_rs::endpoint::PathStyle;
use axiom_rs::error::Error;
use axiom_rs::is_personal_token;

#[test]
fn personal_tokens_are_recognised_by_prefix() {
    assert!(is_personal_token("xapt-0123"));
    assert!(!is_personal_token("xaat-0123"));
    assert!(!is_personal_token("xapt"));
    assert!(!is_personal_token(""));
}

#[test]
fn missing_token_fails_fast() {
    let res = Client::builder().no_env().build();
    assert!(matches!(res, Err(Error::MissingToken)));
    let res = Client::builder().no_env().with_token("".to_string()).build();
    assert!(matches!(res, Err(Error::MissingToken)));
}

#[test]
fn personal_token_on_cloud_needs_an_org_id() {
    let res = Client::builder().no_env().with_token("xapt-nope".to_string()).build();
    assert!(matches!(res, Err(Error::MissingOrgId)));

    // A non-personal token does not.
    let res = Client::builder().no_env().with_token("xaat-ok".to_string()).build();
    assert!(res.is_ok());

    // A personal token with an org id is fine.
    let res = Client::builder()
        .no_env()
        .with_token("xapt-ok".to_string())
        .with_org_id("my-org".to_string())
        .build();
    assert!(res.is_ok());

    // A personal token on a custom URL does not need one.
    let res = Client::builder()
        .no_env()
        .with_token("xapt-ok".to_string())
        .with_url("https://axiom.example.com".to_string())
        .build();
    assert!(res.is_ok());
}

#[test]
fn invalid_urls_fail_fast() {
    let res = Client::builder()
        .no_env()
        .with_token("xaat-ok".to_string())
        .with_url("not a url".to_string())
        .build();
    assert!(matches!(res, Err(Error::InvalidUrl)));
}

#[test]
fn header_unsafe_values_fail_fast() {
    let res = Client::builder().no_env().with_token("bad\u{7f}token".to_string()).build();
    assert!(matches!(res, Err(Error::InvalidToken)));

    let res = Client::builder()
        .no_env()
        .with_token("xapt-ok".to_string())
        .with_org_id("bad\norg".to_string())
        .build();
    assert!(matches!(res, Err(Error::InvalidOrgId)));
}

#[test]
fn resolved_client_exposes_its_base_url() {
    let client = Client::builder()
        .no_env()
        .with_token("xaat-ok".to_string())
        .with_url("https://axiom.example.com".to_string())
        .build()
        .expect("a plain configuration builds");
    assert_eq!(client.url(), "https://axiom.example.com");
    assert!(matches!(client.style, PathStyle::Legacy(_)));

    // On the default cloud URL the ingest/query target is the default edge.
    let client = Client::builder()
        .no_env()
        .with_token("xaat-ok".to_string())
        .build()
        .expect("the default configuration builds");
    assert_eq!(client.url(), "https://api.axiom.co");
    assert!(matches!(client.style, PathStyle::Edge(u) if u == "https://edge.axiom.co"));
}

#[test]
fn edge_configuration_reaches_the_style() {
    let client = Client::builder()
        .no_env()
        .with_token("xaat-ok".to_string())
        .with_url("https://axiom.example.com".to_string())
        .with_region("eu-central-1.example.com/".to_string())
        .build()
        .expect("a region configuration builds");
    assert!(matches!(client.style, PathStyle::Edge(u) if u == "https://eu-central-1.example.com"));

    let client = Client::builder()
        .no_env()
        .with_token("xaat-ok".to_string())
        .with_edge_url("https://edge.example.com/ingest-here".to_string())
        .build()
        .expect("an edge configuration builds");
    assert!(matches!(client.style, PathStyle::AsIs(u) if u == "https://edge.example.com/ingest-here"));
}
