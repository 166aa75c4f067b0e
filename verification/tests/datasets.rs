use axiom_rs::datasets::{ContentEncoding, ContentType, IngestFailure, IngestStatus};
use axiom_rs::error::Error;

fn status(ingested: u64, failed: u64, bytes: u64, errors: &[&str]) -> IngestStatus {
    IngestStatus {
        ingested,
        failed,
        failures: errors
            .iter()
            .map(|e| IngestFailure { timestamp: 0, error: e.to_string() })
            .collect(),
        processed_bytes: bytes,
        blocks_created: 0,
        wal_length: 0,
    }
}

#[test]
fn merge_sums_counters_and_concatenates_failures() {
    let a = status(10, 1, 100, &["a"]);
    let b = status(20, 2, 200, &["b", "c"]);
    let merged = a.merge(b);
    assert_eq!(merged.ingested, 30);
    assert_eq!(merged.failed, 3);
    assert_eq!(merged.processed_bytes, 300);
    let errors: Vec<&str> = merged.failures.iter().map(|f| f.error.as_str()).collect();
    assert_eq!(errors, vec!["a", "b", "c"]);
}

#[test]
fn merge_totals_commute() {
    let a = status(10, 1, 100, &["a"]);
    let b = status(20, 2, 200, &["b"]);
    let ab = a.clone().merge(b.clone());
    let ba = b.merge(a);
    assert_eq!(ab.ingested, ba.ingested);
    assert_eq!(ab.failed, ba.failed);
    assert_eq!(ab.processed_bytes, ba.processed_bytes);
    // The failure lists agree as multisets, not in order.
    let mut ab_errors: Vec<String> = ab.failures.iter().map(|f| f.error.clone()).collect();
    let mut ba_errors: Vec<String> = ba.failures.iter().map(|f| f.error.clone()).collect();
    ab_errors.sort();
    ba_errors.sort();
    assert_eq!(ab_errors, ba_errors);
}

#[test]
fn merge_is_associative() {
    let a = status(1, 0, 1, &["a"]);
    let b = status(2, 0, 2, &["b"]);
    let c = status(4, 0, 4, &["c"]);
    let left = a.clone().merge(b.clone()).merge(c.clone());
    let right = a.merge(b.merge(c));
    assert_eq!(left.ingested, right.ingested);
    assert_eq!(left.processed_bytes, right.processed_bytes);
    let left_errors: Vec<String> = left.failures.iter().map(|f| f.error.clone()).collect();
    let right_errors: Vec<String> = right.failures.iter().map(|f| f.error.clone()).collect();
    assert_eq!(left_errors, right_errors);
}

#[test]
fn merge_saturates_instead_of_wrapping() {
    let a = status(u64::MAX - 1, 0, 0, &[]);
    let b = status(10, 0, 0, &[]);
    assert_eq!(a.merge(b).ingested, u64::MAX);
}

#[test]
fn content_type_strings() {
    assert_eq!(ContentType::Json.as_str(), "application/json");
    assert_eq!(ContentType::NdJson.as_str(), "application/x-ndjson");
    assert_eq!(ContentType::Csv.as_str(), "text/csv");
    assert!(matches!(ContentType::parse("application/x-ndjson"), Ok(ContentType::NdJson)));
    match ContentType::parse("text/plain") {
        Err(Error::InvalidContentType(raw)) => assert_eq!(raw, "text/plain"),
        other => panic!("expected an invalid content type, got {:?}", other),
    }
}

#[test]
fn content_encoding_strings() {
    assert_eq!(ContentEncoding::Identity.as_str(), "");
    assert_eq!(ContentEncoding::Gzip.as_str(), "gzip");
    assert_eq!(ContentEncoding::Zstd.as_str(), "zstd");
    assert!(matches!(ContentEncoding::parse("gzip"), Ok(ContentEncoding::Gzip)));
    assert!(matches!(ContentEncoding::parse(""), Ok(ContentEncoding::Identity)));
    match ContentEncoding::parse("br") {
        Err(Error::InvalidContentEncoding(raw)) => assert_eq!(raw, "br"),
        other => panic!("expected an invalid content encoding, got {:?}", other),
    }
}
