//! Encoding of event batches: newline-delimited lines joined and split, and
//! gzip compression behind trusted wrappers.
//!
//! Joining then splitting reproduces a batch exactly as long as every line is
//! non-empty and newline-free, which holds of the JSON-encoded events the
//! chunker produces.

use vstd::prelude::*;

use crate::error::Error;

verus! {

/// The newline byte that separates encoded events.
pub open spec fn newline() -> u8 {
    10
}

/// Lines joined with single newline separators, no trailing newline.
pub open spec fn spec_join_lines(lines: Seq<Seq<u8>>) -> Seq<u8>
    decreases lines.len(),
{
    if lines.len() == 0 {
        Seq::empty()
    } else if lines.len() == 1 {
        lines[0]
    } else {
        lines[0] + seq![newline()] + spec_join_lines(lines.drop_first())
    }
}

/// The first index at or after `i` holding a newline, or the length of the
/// buffer when there is none.
pub open spec fn spec_newline_index(data: Seq<u8>, i: int) -> int
    decreases data.len() - i,
{
    if i < 0 || i >= data.len() {
        data.len() as int
    } else if data[i] == newline() {
        i
    } else {
        spec_newline_index(data, i + 1)
    }
}

/// The search index stays within the buffer and is the first newline.
pub proof fn lemma_newline_index(data: Seq<u8>, i: int)
    requires
        0 <= i <= data.len(),
    ensures
        i <= spec_newline_index(data, i) <= data.len(),
        spec_newline_index(data, i) < data.len() ==> data[spec_newline_index(data, i)]
            == newline(),
        forall|j: int| i <= j < spec_newline_index(data, i) ==> data[j] != newline(),
    decreases data.len() - i,
{
    if i < data.len() && data[i] != newline() {
        lemma_newline_index(data, i + 1);
    }
}

/// The lines of a newline-separated buffer; the empty buffer holds no lines.
pub open spec fn spec_split_lines(data: Seq<u8>) -> Seq<Seq<u8>>
    decreases data.len(),
{
    if data.len() == 0 {
        Seq::empty()
    } else {
        let k = spec_newline_index(data, 0);
        if !(0 <= k < data.len()) {
            seq![data]
        } else {
            seq![data.subrange(0, k)] + spec_split_lines(data.subrange(k + 1, data.len() as int))
        }
    }
}

/// A batch is well formed when every line is non-empty and newline-free.
pub open spec fn wf_lines(lines: Seq<Seq<u8>>) -> bool {
    forall|i: int|
        0 <= i < lines.len() ==> (#[trigger] lines[i]).len() > 0 && !lines[i].contains(newline())
}

proof fn lemma_find_none(data: Seq<u8>, i: int)
    requires
        0 <= i,
        forall|j: int| i <= j < data.len() ==> data[j] != newline(),
    ensures
        spec_newline_index(data, i) == data.len(),
    decreases data.len() - i,
{
    if i < data.len() {
        lemma_find_none(data, i + 1);
    }
}

proof fn lemma_find_first(data: Seq<u8>, i: int, k: int)
    requires
        0 <= i <= k < data.len(),
        data[k] == newline(),
        forall|j: int| i <= j < k ==> data[j] != newline(),
    ensures
        spec_newline_index(data, i) == k,
    decreases k - i,
{
    if i < k {
        lemma_find_first(data, i + 1, k);
    }
}

/// Splitting the joined buffer of a well-formed batch gives back the batch.
pub proof fn lemma_split_join(lines: Seq<Seq<u8>>)
    requires
        wf_lines(lines),
    ensures
        spec_split_lines(spec_join_lines(lines)) =~~= lines,
    decreases lines.len(),
{
    if lines.len() == 0 {
    } else if lines.len() == 1 {
        let d = lines[0];
        assert(!d.contains(newline()));
        assert(forall|j: int| 0 <= j < d.len() ==> d[j] != newline());
        lemma_find_none(d, 0);
        assert(spec_split_lines(d) =~~= seq![d]);
    } else {
        let l0 = lines[0];
        let rest = spec_join_lines(lines.drop_first());
        let d = l0 + seq![newline()] + rest;
        let k = l0.len() as int;
        assert(d[k] == newline());
        assert(forall|j: int| 0 <= j < k ==> d[j] == l0[j] && d[j] != newline());
        lemma_find_first(d, 0, k);
        assert(d.subrange(0, k) =~= l0);
        assert(d.subrange(k + 1, d.len() as int) =~= rest);
        lemma_split_join(lines.drop_first());
        assert(spec_split_lines(d) =~~= seq![l0] + spec_split_lines(rest));
        assert(seq![l0] + lines.drop_first() =~= lines);
    }
}

/// Appending one line to a batch appends a separator and the line to the
/// joined buffer.
proof fn lemma_join_push(lines: Seq<Seq<u8>>, x: Seq<u8>)
    ensures
        lines.len() == 0 ==> spec_join_lines(lines.push(x)) == x,
        lines.len() > 0 ==> spec_join_lines(lines.push(x)) =~= spec_join_lines(lines) + seq![
            newline(),
        ] + x,
    decreases lines.len(),
{
    let p = lines.push(x);
    if lines.len() == 0 {
        assert(p.len() == 1);
        assert(p[0] == x);
    } else if lines.len() == 1 {
        assert(p.len() == 2);
        assert(p[0] == lines[0]);
        assert(p.drop_first() =~= seq![x]);
        assert(spec_join_lines(p) == p[0] + seq![newline()] + spec_join_lines(p.drop_first()));
    } else {
        lemma_join_push(lines.drop_first(), x);
        assert(p.drop_first() =~= lines.drop_first().push(x));
        assert(spec_join_lines(p) == p[0] + seq![newline()] + spec_join_lines(p.drop_first()));
    }
}

/// Joins encoded events with newline separators, the preferred ingest
/// format.
pub fn join_lines(lines: &Vec<Vec<u8>>) -> (r: Vec<u8>)
    ensures
        r@ == spec_join_lines(lines.deep_view()),
{
    let mut out: Vec<u8> = Vec::new();
    let mut i: usize = 0;
    proof {
        assert(lines.deep_view().subrange(0, 0) =~= Seq::<Seq<u8>>::empty());
    }
    while i < lines.len()
        invariant
            0 <= i <= lines@.len(),
            lines.deep_view().len() == lines@.len(),
            out@ == spec_join_lines(lines.deep_view().subrange(0, i as int)),
        decreases lines@.len() - i,
    {
        if i > 0 {
            out.push(10u8);
        }
        let line = &lines[i];
        out.extend_from_slice(line.as_slice());
        proof {
            let dv = lines.deep_view();
            let prefix = dv.subrange(0, i as int);
            assert(dv.subrange(0, i + 1) =~= prefix.push(dv[i as int]));
            assert(dv[i as int] == line@);
            lemma_join_push(prefix, line@);
        }
        i = i + 1;
    }
    proof {
        assert(lines.deep_view().subrange(0, lines@.len() as int) =~= lines.deep_view());
    }
    out
}

fn find_newline(data: &Vec<u8>, i: usize) -> (r: usize)
    requires
        i <= data@.len(),
    ensures
        r == spec_newline_index(data@, i as int),
        i <= r <= data@.len(),
    decreases data@.len() - i,
{
    if i >= data.len() {
        data.len()
    } else if data[i] == 10u8 {
        i
    } else {
        find_newline(data, i + 1)
    }
}

fn vec_subrange(data: &Vec<u8>, from: usize, to: usize) -> (r: Vec<u8>)
    requires
        from <= to <= data@.len(),
    ensures
        r@ == data@.subrange(from as int, to as int),
{
    let mut out: Vec<u8> = Vec::new();
    let mut i: usize = from;
    while i < to
        invariant
            from <= i <= to <= data@.len(),
            out@ == data@.subrange(from as int, i as int),
        decreases to - i,
    {
        out.push(data[i]);
        proof {
            assert(data@.subrange(from as int, i + 1) =~= data@.subrange(from as int, i as int)
                + seq![data@[i as int]]);
        }
        i = i + 1;
    }
    out
}

/// Splits a newline-separated buffer back into its lines.
pub fn split_lines(data: &Vec<u8>) -> (r: Vec<Vec<u8>>)
    ensures
        r.deep_view() == spec_split_lines(data@),
    decreases data@.len(),
{
    if data.len() == 0 {
        let r: Vec<Vec<u8>> = Vec::new();
        proof {
            assert(r.deep_view() =~~= spec_split_lines(data@));
        }
        return r;
    }
    let k = find_newline(data, 0);
    if k >= data.len() {
        let mut r: Vec<Vec<u8>> = Vec::new();
        r.push(data.clone());
        proof {
            assert(r.deep_view() =~~= seq![data@]);
        }
        r
    } else {
        let head = vec_subrange(data, 0, k);
        let tail = vec_subrange(data, k + 1, data.len());
        let mut rest = split_lines(&tail);
        let mut r: Vec<Vec<u8>> = Vec::new();
        r.push(head);
        r.append(&mut rest);
        proof {
            assert(r.deep_view() =~~= seq![data@.subrange(0, k as int)] + spec_split_lines(
                data@.subrange(k + 1, data@.len() as int),
            ));
        }
        r
    }
}

/// What gunzip returns on a buffer: the decompressed bytes when the buffer
/// is a valid gzip stream.
pub uninterp spec fn gunzip_of(data: Seq<u8>) -> Option<Seq<u8>>;

/// Relies on flate2's `write::GzEncoder` at the default compression level:
/// gunzipping its output gives back the input bytes. Compression always
/// succeeds: the encoder only surfaces errors of the sink it writes into,
/// and a byte vector never fails a write.
#[verifier::external_body]
fn gzip_compress(data: &Vec<u8>) -> (r: Vec<u8>)
    ensures
        gunzip_of(r@) == Some(data@),
{
    let mut enc = flate2::write::GzEncoder::new(Vec::new(), flate2::Compression::default());
    std::io::Write::write_all(&mut enc, data.as_slice())
        .expect("a byte vector never fails a write");
    enc.finish().expect("a byte vector never fails a write")
}

/// Relies on flate2's `read::GzDecoder`: decompression is a function of the
/// buffer alone, and fails exactly where the buffer is not a gzip stream.
#[verifier::external_body]
fn gzip_decompress(data: &Vec<u8>) -> (r: Result<Vec<u8>, Error>)
    ensures
        r matches Ok(v) ==> gunzip_of(data@) == Some(v@),
        r matches Err(e) ==> gunzip_of(data@) is None && e matches Error::Encoding(_),
{
    let mut dec = flate2::read::GzDecoder::new(data.as_slice());
    let mut out = Vec::new();
    match std::io::Read::read_to_end(&mut dec, &mut out) {
        Ok(_) => Ok(out),
        Err(e) => Err(Error::Encoding(e.to_string())),
    }
}

/// Encodes a batch of already-encoded events: newline-joined, then gzipped.
/// Encoding always succeeds; gunzipping the result gives back the joined
/// lines.
pub fn encode_batch(lines: &Vec<Vec<u8>>) -> (r: Vec<u8>)
    ensures
        gunzip_of(r@) == Some(spec_join_lines(lines.deep_view())),
{
    let joined = join_lines(lines);
    gzip_compress(&joined)
}

/// Decodes a batch: gunzipped, then split on newlines.
pub fn decode_batch(data: &Vec<u8>) -> (r: Result<Vec<Vec<u8>>, Error>)
    ensures
        r matches Ok(lines) ==> gunzip_of(data@) matches Some(p) && lines.deep_view()
            == spec_split_lines(p),
        r matches Err(_) ==> gunzip_of(data@) is None,
{
    let plain = gzip_decompress(data)?;
    Ok(split_lines(&plain))
}

/// The batch round trip: decoding any successful encoding of a well-formed
/// batch gives back exactly the original lines.
pub proof fn lemma_batch_round_trip(lines: Seq<Seq<u8>>, encoded: Seq<u8>)
    requires
        wf_lines(lines),
        gunzip_of(encoded) == Some(spec_join_lines(lines)),
    ensures
        spec_split_lines(gunzip_of(encoded)->Some_0) =~~= lines,
{
    lemma_split_join(lines);
}

} // verus!
