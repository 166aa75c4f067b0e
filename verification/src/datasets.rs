//! The ingest data model: content negotiation values and the ingest status
//! accumulator with its commutative, associative merge.

use vstd::prelude::*;
use vstd::seq_lib::lemma_multiset_commutative;

use crate::error::Error;

verus! {

/// All supported content types of an ingest payload.
#[derive(Debug, Clone, Copy, PartialEq, Eq, Structural)]
pub enum ContentType {
    /// The payload is one JSON array.
    Json,
    /// The payload is newline-delimited JSON objects. Preferred format.
    NdJson,
    /// The payload is CSV content.
    Csv,
}

impl ContentType {
    /// Returns the content type as it appears in the content-type header.
    pub fn as_str(&self) -> (r: &'static str)
        ensures
            r@ == self.spec_str(),
    {
        proof {
            reveal_strlit("application/json");
            reveal_strlit("application/x-ndjson");
            reveal_strlit("text/csv");
        }
        match self {
            ContentType::Json => "application/json",
            ContentType::NdJson => "application/x-ndjson",
            ContentType::Csv => "text/csv",
        }
    }

    /// The header value of the content type.
    pub open spec fn spec_str(self) -> Seq<char> {
        match self {
            ContentType::Json => "application/json"@,
            ContentType::NdJson => "application/x-ndjson"@,
            ContentType::Csv => "text/csv"@,
        }
    }
}

/// All supported content encodings of an ingest payload.
#[derive(Debug, Clone, Copy, PartialEq, Eq, Structural)]
pub enum ContentEncoding {
    /// The payload is not encoded.
    Identity,
    /// The payload is gzip encoded.
    Gzip,
    /// The payload is zstd encoded.
    Zstd,
}

impl ContentEncoding {
    /// Returns the content encoding as it appears in the content-encoding
    /// header; the identity encoding is the empty value.
    pub fn as_str(&self) -> (r: &'static str)
        ensures
            r@ == self.spec_str(),
    {
        proof {
            reveal_strlit("");
            reveal_strlit("gzip");
            reveal_strlit("zstd");
        }
        match self {
            ContentEncoding::Identity => "",
            ContentEncoding::Gzip => "gzip",
            ContentEncoding::Zstd => "zstd",
        }
    }

    /// The header value of the content encoding.
    pub open spec fn spec_str(self) -> Seq<char> {
        match self {
            ContentEncoding::Identity => ""@,
            ContentEncoding::Gzip => "gzip"@,
            ContentEncoding::Zstd => "zstd"@,
        }
    }
}

/// Ingestion failure of a single event.
#[derive(Debug, Clone)]
pub struct IngestFailure {
    /// When the event that failed to ingest happened, as a Unix timestamp in
    /// milliseconds.
    pub timestamp: i64,
    /// The error that made the event fail to ingest.
    pub error: String,
}

/// The ghost model of an ingestion failure.
#[verifier::ext_equal]
pub ghost struct IngestFailureModel {
    /// When the event happened.
    pub timestamp: int,
    /// The error text.
    pub error: Seq<char>,
}

impl View for IngestFailure {
    type V = IngestFailureModel;

    open spec fn view(&self) -> IngestFailureModel {
        IngestFailureModel { timestamp: self.timestamp as int, error: self.error@ }
    }
}

impl DeepView for IngestFailure {
    type V = IngestFailureModel;

    open spec fn deep_view(&self) -> IngestFailureModel {
        self.view()
    }
}

/// Returned on an event ingestion operation; merged across chunks into one
/// final status.
#[derive(Debug, Clone)]
pub struct IngestStatus {
    /// Amount of events that have been ingested.
    pub ingested: u64,
    /// Amount of events that failed to ingest.
    pub failed: u64,
    /// Ingestion failures, if any.
    pub failures: Vec<IngestFailure>,
    /// Number of bytes processed.
    pub processed_bytes: u64,
    /// Amount of blocks created; kept for backward compatibility, carries no
    /// semantic weight.
    pub blocks_created: u32,
    /// The length of the write-ahead log; kept for backward compatibility,
    /// carries no semantic weight.
    pub wal_length: u32,
}

/// The ghost model of an ingest status.
#[verifier::ext_equal]
pub ghost struct IngestStatusModel {
    /// Amount of events ingested.
    pub ingested: u64,
    /// Amount of events that failed.
    pub failed: u64,
    /// The failures, in order.
    pub failures: Seq<IngestFailureModel>,
    /// Number of bytes processed.
    pub processed_bytes: u64,
    /// Compatibility counter.
    pub blocks_created: u32,
    /// Compatibility counter.
    pub wal_length: u32,
}

impl DeepView for IngestStatus {
    type V = IngestStatusModel;

    open spec fn deep_view(&self) -> IngestStatusModel {
        self.view()
    }
}

impl View for IngestStatus {
    type V = IngestStatusModel;

    open spec fn view(&self) -> IngestStatusModel {
        IngestStatusModel {
            ingested: self.ingested,
            failed: self.failed,
            failures: self.failures.deep_view(),
            processed_bytes: self.processed_bytes,
            blocks_created: self.blocks_created,
            wal_length: self.wal_length,
        }
    }
}

/// Addition on `u64` that stops at the largest value instead of wrapping.
pub open spec fn sat_add64(a: u64, b: u64) -> u64 {
    if a + b > u64::MAX {
        u64::MAX
    } else {
        (a + b) as u64
    }
}

/// Addition on `u32` that stops at the largest value instead of wrapping.
pub open spec fn sat_add32(a: u32, b: u32) -> u32 {
    if a + b > u32::MAX {
        u32::MAX
    } else {
        (a + b) as u32
    }
}

/// The merge of two ingest statuses: counters are summed, saturating at the
/// largest value, and failure lists are concatenated in order.
pub open spec fn spec_merge(a: IngestStatusModel, b: IngestStatusModel) -> IngestStatusModel {
    IngestStatusModel {
        ingested: sat_add64(a.ingested, b.ingested),
        failed: sat_add64(a.failed, b.failed),
        failures: a.failures + b.failures,
        processed_bytes: sat_add64(a.processed_bytes, b.processed_bytes),
        blocks_created: sat_add32(a.blocks_created, b.blocks_created),
        wal_length: sat_add32(a.wal_length, b.wal_length),
    }
}

fn add_sat64(a: u64, b: u64) -> (r: u64)
    ensures
        r == sat_add64(a, b),
{
    if a > u64::MAX - b {
        u64::MAX
    } else {
        a + b
    }
}

fn add_sat32(a: u32, b: u32) -> (r: u32)
    ensures
        r == sat_add32(a, b),
{
    if a > u32::MAX - b {
        u32::MAX
    } else {
        a + b
    }
}

impl IngestStatus {
    /// An empty accumulator: nothing ingested, nothing failed.
    pub fn new() -> (r: IngestStatus)
        ensures
            r@ == empty_status(),
    {
        let r = IngestStatus {
            ingested: 0,
            failed: 0,
            failures: Vec::new(),
            processed_bytes: 0,
            blocks_created: 0,
            wal_length: 0,
        };
        proof {
            assert(r@ =~~= empty_status());
        }
        r
    }

    /// Merges another status into this one: counters are summed and failure
    /// lists concatenated.
    pub fn merge(self, other: IngestStatus) -> (r: IngestStatus)
        ensures
            r@ == spec_merge(self@, other@),
    {
        let mut failures = self.failures;
        let mut other_failures = other.failures;
        failures.append(&mut other_failures);
        let r = IngestStatus {
            ingested: add_sat64(self.ingested, other.ingested),
            failed: add_sat64(self.failed, other.failed),
            failures,
            processed_bytes: add_sat64(self.processed_bytes, other.processed_bytes),
            blocks_created: add_sat32(self.blocks_created, other.blocks_created),
            wal_length: add_sat32(self.wal_length, other.wal_length),
        };
        proof {
            assert(r.failures.deep_view() =~= self@.failures + other@.failures);
            assert(r@ =~~= spec_merge(self@, other@));
        }
        r
    }
}

/// The model of an empty accumulator.
pub open spec fn empty_status() -> IngestStatusModel {
    IngestStatusModel {
        ingested: 0,
        failed: 0,
        failures: Seq::empty(),
        processed_bytes: 0,
        blocks_created: 0,
        wal_length: 0,
    }
}

/// The empty accumulator is the identity of the merge.
pub proof fn lemma_merge_identity(a: IngestStatusModel)
    ensures
        spec_merge(empty_status(), a) =~~= a,
        spec_merge(a, empty_status()) =~~= a,
{
    assert(Seq::<IngestFailureModel>::empty() + a.failures =~= a.failures);
    assert(a.failures + Seq::<IngestFailureModel>::empty() =~= a.failures);
}

/// The merge is commutative: the merged counters do not depend on the order
/// of the two sides, and the merged failure lists agree as multisets. Strict
/// list equality would additionally need the concatenations to agree on
/// order, which two non-empty distinct lists do not.
pub proof fn lemma_merge_commutative(a: IngestStatusModel, b: IngestStatusModel)
    ensures
        spec_merge(a, b).ingested == spec_merge(b, a).ingested,
        spec_merge(a, b).failed == spec_merge(b, a).failed,
        spec_merge(a, b).processed_bytes == spec_merge(b, a).processed_bytes,
        spec_merge(a, b).blocks_created == spec_merge(b, a).blocks_created,
        spec_merge(a, b).wal_length == spec_merge(b, a).wal_length,
        spec_merge(a, b).failures.to_multiset() == spec_merge(b, a).failures.to_multiset(),
{
    lemma_multiset_commutative(a.failures, b.failures);
    lemma_multiset_commutative(b.failures, a.failures);
    assert(a.failures.to_multiset().add(b.failures.to_multiset()) =~= b.failures.to_multiset().add(
        a.failures.to_multiset(),
    ));
}

/// The merge is associative: merging three statuses gives the same result
/// however the merges are grouped, failure order included.
pub proof fn lemma_merge_associative(
    a: IngestStatusModel,
    b: IngestStatusModel,
    c: IngestStatusModel,
)
    ensures
        spec_merge(spec_merge(a, b), c) =~~= spec_merge(a, spec_merge(b, c)),
{
    assert((a.failures + b.failures) + c.failures =~= a.failures + (b.failures + c.failures));
}

impl ContentType {
    /// Parses a content-type header value.
    pub fn parse(s: &str) -> (r: Result<ContentType, Error>)
        ensures
            match r {
                Ok(t) => t.spec_str() == s@,
                Err(e) => {
                    &&& e matches Error::InvalidContentType(raw)
                    &&& raw@ == s@
                    &&& forall|t: ContentType| t.spec_str() != s@
                },
            },
    {
        proof {
            reveal_strlit("application/json");
            reveal_strlit("application/x-ndjson");
            reveal_strlit("text/csv");
        }
        let v = s.to_owned();
        if v.eq(&"application/json".to_owned()) {
            Ok(ContentType::Json)
        } else if v.eq(&"application/x-ndjson".to_owned()) {
            Ok(ContentType::NdJson)
        } else if v.eq(&"text/csv".to_owned()) {
            Ok(ContentType::Csv)
        } else {
            proof {
                assert forall|t: ContentType| t.spec_str() != s@ by {
                    match t {
                        ContentType::Json => {},
                        ContentType::NdJson => {},
                        ContentType::Csv => {},
                    }
                }
            }
            Err(Error::InvalidContentType(v))
        }
    }
}

impl ContentEncoding {
    /// Parses a content-encoding header value; the empty value is the
    /// identity encoding.
    pub fn parse(s: &str) -> (r: Result<ContentEncoding, Error>)
        ensures
            match r {
                Ok(t) => t.spec_str() == s@,
                Err(e) => {
                    &&& e matches Error::InvalidContentEncoding(raw)
                    &&& raw@ == s@
                    &&& forall|t: ContentEncoding| t.spec_str() != s@
                },
            },
    {
        proof {
            reveal_strlit("");
            reveal_strlit("gzip");
            reveal_strlit("zstd");
        }
        let v = s.to_owned();
        if v.eq(&"".to_owned()) {
            Ok(ContentEncoding::Identity)
        } else if v.eq(&"gzip".to_owned()) {
            Ok(ContentEncoding::Gzip)
        } else if v.eq(&"zstd".to_owned()) {
            Ok(ContentEncoding::Zstd)
        } else {
            proof {
                assert forall|t: ContentEncoding| t.spec_str() != s@ by {
                    match t {
                        ContentEncoding::Identity => {},
                        ContentEncoding::Gzip => {},
                        ContentEncoding::Zstd => {},
                    }
                }
            }
            Err(Error::InvalidContentEncoding(v))
        }
    }
}

} // verus!
