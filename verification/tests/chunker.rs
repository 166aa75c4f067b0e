use axiom_rs::chunker::{chunk_all, merge_all, Chunker};
use axiom_rs::datasets::{IngestFailure, IngestStatus};

fn success_status(ingested: u64) -> IngestStatus {
    IngestStatus {
        ingested,
        failed: 0,
        failures: Vec::new(),
        processed_bytes: 0,
        blocks_created: 0,
        wal_length: 0,
    }
}

#[test]
fn synthetic_events_make_three_chunks() {
    // 2321 events at a chunk size of 1000: two full chunks and one partial,
    // so exactly three physical ingest calls.
    let events: Vec<u32> = (0..2321).collect();
    let chunks = chunk_all(events, 1000);
    assert_eq!(chunks.len(), 3);
    assert_eq!(chunks[0].len(), 1000);
    assert_eq!(chunks[1].len(), 1000);
    assert_eq!(chunks[2].len(), 321);

    // With every physical call reporting full success, the accumulated
    // status counts every event.
    let statuses: Vec<IngestStatus> =
        chunks.iter().map(|c| success_status(c.len() as u64)).collect();
    let total = merge_all(statuses);
    assert_eq!(total.ingested, 2321);
    assert_eq!(total.failed, 0);
}

#[test]
fn chunking_preserves_events_in_order() {
    let events: Vec<u32> = (0..2321).collect();
    let chunks = chunk_all(events.clone(), 1000);
    let flattened: Vec<u32> = chunks.into_iter().flatten().collect();
    assert_eq!(flattened, events);
}

#[test]
fn chunk_count_edges() {
    assert_eq!(chunk_all(Vec::<u8>::new(), 1000).len(), 0);
    assert_eq!(chunk_all(vec![1u8], 1000).len(), 1);
    assert_eq!(chunk_all((0..1000u32).collect::<Vec<_>>(), 1000).len(), 1);
    assert_eq!(chunk_all((0..1001u32).collect::<Vec<_>>(), 1000).len(), 2);
    assert_eq!(chunk_all((0..5u32).collect::<Vec<_>>(), 1).len(), 5);
}

#[test]
fn chunker_closes_on_threshold_and_flush() {
    let mut chunker: Chunker<u32> = Chunker::new(3);
    assert!(chunker.push(1).is_none());
    assert!(chunker.push(2).is_none());
    let chunk = chunker.push(3).expect("the third event closes the chunk");
    assert_eq!(chunk, vec![1, 2, 3]);

    // A flush closes a partial chunk early, and an empty buffer submits
    // nothing.
    assert!(chunker.flush().is_none());
    assert!(chunker.push(4).is_none());
    let chunk = chunker.flush().expect("the flush interval closes the partial chunk");
    assert_eq!(chunk, vec![4]);
}

#[test]
fn merge_all_concatenates_failures() {

    let mut a = success_status(1);
    a.failed = 1;
    a.failures.push(IngestFailure { timestamp: 1, error: "boom".to_string() });
    let mut b = success_status(2);
    b.failed = 2;
    b.failures.push(IngestFailure { timestamp: 2, error: "bang".to_string() });
    let total = merge_all(vec![a, b]);
    assert_eq!(total.ingested, 3);
    assert_eq!(total.failed, 3);
    assert_eq!(total.failures.len(), 2);
    assert_eq!(total.failures[0].error, "boom");
    assert_eq!(total.failures[1].error, "bang");
}
