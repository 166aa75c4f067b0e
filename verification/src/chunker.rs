//! The ingestion chunker: batching an event sequence into chunks bounded by
//! a count threshold, and folding per-chunk statuses into one total.
//!
//! The chunker is explicit state. The driver pushes events one by one and
//! submits each chunk the moment it closes; a wall-clock flush tick closes
//! the current partial chunk early, which bounds latency under low event
//! rates. Chunk submission is sequential, and the merged totals do not
//! depend on merge order.

use vstd::prelude::*;

use crate::datasets::{empty_status, spec_merge, IngestStatus, IngestStatusModel};

verus! {

/// The default count threshold of one chunk.
pub open spec fn default_chunk_capacity() -> usize {
    1000
}

/// The concatenation of a sequence of chunks.
pub open spec fn spec_concat<T>(chunks: Seq<Seq<T>>) -> Seq<T>
    decreases chunks.len(),
{
    if chunks.len() == 0 {
        Seq::empty()
    } else {
        chunks[0] + spec_concat(chunks.drop_first())
    }
}

proof fn lemma_concat_push<T>(chunks: Seq<Seq<T>>, x: Seq<T>)
    ensures
        spec_concat(chunks.push(x)) =~= spec_concat(chunks) + x,
    decreases chunks.len(),
{
    let p = chunks.push(x);
    assert(p.len() == chunks.len() + 1);
    if chunks.len() == 0 {
        assert(p[0] == x);
        assert(p.drop_first() =~= Seq::<Seq<T>>::empty());
        assert(spec_concat(p) == p[0] + spec_concat(p.drop_first()));
        assert(x + Seq::<T>::empty() =~= x);
        assert(Seq::<T>::empty() + x =~= x);
    } else {
        lemma_concat_push(chunks.drop_first(), x);
        assert(p.drop_first() =~= chunks.drop_first().push(x));
        assert(p[0] == chunks[0]);
        assert(spec_concat(p) == p[0] + spec_concat(p.drop_first()));
        assert(spec_concat(p.drop_first()) =~= spec_concat(chunks.drop_first()) + x);
        assert(chunks[0] + (spec_concat(chunks.drop_first()) + x) =~= (chunks[0] + spec_concat(
            chunks.drop_first(),
        )) + x);
    }
}

/// A chunker that buffers events up to a fixed count threshold.
pub struct Chunker<T> {
    buf: Vec<T>,
    cap: usize,
}

impl<T> Chunker<T> {
    /// The events buffered since the last chunk closed.
    pub closed spec fn buffered(self) -> Seq<T> {
        self.buf@
    }

    /// The count threshold of the chunker.
    pub closed spec fn capacity(self) -> usize {
        self.cap
    }

    /// The buffer always stays under the threshold: a chunk closes the
    /// moment it is full.
    pub open spec fn wf(self) -> bool {
        self.buffered().len() < self.capacity() && self.capacity() >= 1
    }

    /// A fresh chunker with the given count threshold.
    pub fn new(cap: usize) -> (r: Chunker<T>)
        requires
            cap >= 1,
        ensures
            r.wf(),
            r.capacity() == cap,
            r.buffered() == Seq::<T>::empty(),
    {
        Chunker { buf: Vec::new(), cap }
    }

    /// Accepts one event. Returns the closed chunk when the event fills the
    /// buffer to the threshold, else buffers it.
    pub fn push(&mut self, event: T) -> (r: Option<Vec<T>>)
        requires
            old(self).wf(),
        ensures
            final(self).wf(),
            final(self).capacity() == old(self).capacity(),
            match r {
                Some(chunk) => {
                    &&& chunk@ == old(self).buffered().push(event)
                    &&& chunk@.len() == old(self).capacity()
                    &&& final(self).buffered() == Seq::<T>::empty()
                },
                None => final(self).buffered() == old(self).buffered().push(event),
            },
    {
        self.buf.push(event);
        if self.buf.len() == self.cap {
            let mut chunk: Vec<T> = Vec::new();
            core::mem::swap(&mut chunk, &mut self.buf);
            Some(chunk)
        } else {
            None
        }
    }

    /// Closes the current partial chunk, as the flush interval does when it
    /// elapses, or as the end of the event source does. Returns nothing when
    /// the buffer is empty: an empty chunk is never submitted.
    pub fn flush(&mut self) -> (r: Option<Vec<T>>)
        requires
            old(self).wf(),
        ensures
            final(self).wf(),
            final(self).capacity() == old(self).capacity(),
            final(self).buffered() == Seq::<T>::empty(),
            match r {
                Some(chunk) => chunk@ == old(self).buffered() && chunk@.len() > 0,
                None => old(self).buffered().len() == 0,
            },
    {
        if self.buf.len() == 0 {
            None
        } else {
            let mut chunk: Vec<T> = Vec::new();
            core::mem::swap(&mut chunk, &mut self.buf);
            Some(chunk)
        }
    }
}

/// Splits a whole event list into chunks of `cap` events, the last chunk
/// holding the remainder: exactly the chunks a full run of the chunker
/// produces when the flush interval never elapses.
pub fn chunk_all<T>(events: Vec<T>, cap: usize) -> (r: Vec<Vec<T>>)
    requires
        cap >= 1,
    ensures
        spec_concat(r@.map_values(|v: Vec<T>| v@)) == events@,
        r@.len() == (events@.len() + cap - 1) / (cap as int),
        forall|i: int| 0 <= i < r@.len() - 1 ==> (#[trigger] r@[i])@.len() == cap,
        r@.len() > 0 ==> 0 < r@[r@.len() - 1]@.len() <= cap,
{
    let ghost all = events@;
    let n = events.len();
    let mut chunks: Vec<Vec<T>> = Vec::new();
    let mut buf: Vec<T> = Vec::new();
    let mut events = events;
    let mut i: usize = 0;
    proof {
        assert(spec_concat(chunks@.map_values(|v: Vec<T>| v@)) + buf@ =~= all.subrange(0, 0));
    }
    proof {
        assert(events@ =~= all.subrange(0, n as int));
    }
    while i < n
        invariant
            0 <= i <= n == all.len(),
            events@ =~= all.subrange(i as int, n as int),
            cap >= 1,
            buf@.len() < cap,
            spec_concat(chunks@.map_values(|v: Vec<T>| v@)) + buf@ =~= all.subrange(0, i as int),
            buf@.len() == (i as int) % (cap as int),
            chunks@.len() == (i as int) / (cap as int),
            forall|k: int| 0 <= k < chunks@.len() ==> (#[trigger] chunks@[k])@.len() == cap,
        decreases n - i,
    {
        let ghost old_chunks = chunks@;
        let ghost old_buf = buf@;
        let ghost before = events@;
        let e = events.remove(0);
        proof {
            assert(before[0] == all[i as int]);
            assert(events@ =~= all.subrange(i + 1, n as int));
        }
        buf.push(e);
        proof {
            assert(all.subrange(0, i + 1) =~= all.subrange(0, i as int).push(all[i as int]));
            vstd::arithmetic::div_mod::lemma_fundamental_div_mod(i as int, cap as int);
        }
        let ghost d = (i as int) / (cap as int);
        let ghost r0 = (i as int) % (cap as int);
        if buf.len() == cap {
            let mut chunk: Vec<T> = Vec::new();
            core::mem::swap(&mut chunk, &mut buf);
            chunks.push(chunk);
            proof {
                let f = |v: Vec<T>| v@;
                assert(chunks@.map_values(f) =~= old_chunks.map_values(f).push(chunk@));
                lemma_concat_push(old_chunks.map_values(f), chunk@);
                assert(r0 == cap - 1);
                assert(i + 1 == (d + 1) * (cap as int) + 0) by {
                    assert(i == (cap as int) * d + r0);
                    assert((d + 1) * (cap as int) == d * (cap as int) + (cap as int))
                        by (nonlinear_arith);
                    assert((cap as int) * d == d * (cap as int)) by (nonlinear_arith);
                }
                vstd::arithmetic::div_mod::lemma_fundamental_div_mod_converse(
                    i + 1,
                    cap as int,
                    d + 1,
                    0,
                );
            }
        } else {
            proof {
                assert(buf@.len() == r0 + 1 < cap);
                assert(i + 1 == d * (cap as int) + (r0 + 1)) by {
                    assert(i == (cap as int) * d + r0);
                    assert((cap as int) * d == d * (cap as int)) by (nonlinear_arith);
                }
                vstd::arithmetic::div_mod::lemma_fundamental_div_mod_converse(
                    i + 1,
                    cap as int,
                    d,
                    r0 + 1,
                );
            }
        }
        i = i + 1;
    }
    proof {
        assert(all.subrange(0, n as int) =~= all);
        vstd::arithmetic::div_mod::lemma_fundamental_div_mod(n as int, cap as int);
    }
    let ghost d = (n as int) / (cap as int);
    let ghost r0 = (n as int) % (cap as int);
    if buf.len() > 0 {
        let ghost old_chunks = chunks@;
        chunks.push(buf);
        proof {
            let f = |v: Vec<T>| v@;
            assert(chunks@.map_values(f) =~= old_chunks.map_values(f).push(
                chunks@[chunks@.len() - 1]@,
            ));
            lemma_concat_push(old_chunks.map_values(f), chunks@[chunks@.len() - 1]@);
            assert(n + cap - 1 == (d + 1) * (cap as int) + (r0 - 1)) by {
                assert(n == (cap as int) * d + r0);
                assert((d + 1) * (cap as int) == d * (cap as int) + (cap as int))
                    by (nonlinear_arith);
                assert((cap as int) * d == d * (cap as int)) by (nonlinear_arith);
            }
            vstd::arithmetic::div_mod::lemma_fundamental_div_mod_converse(
                n + cap - 1,
                cap as int,
                d + 1,
                r0 - 1,
            );
        }
        chunks
    } else {
        proof {
            let f = |v: Vec<T>| v@;
            assert(spec_concat(chunks@.map_values(f)) + buf@ =~= spec_concat(
                chunks@.map_values(f),
            ));
            assert(r0 == 0);
            assert(n + cap - 1 == d * (cap as int) + (cap - 1)) by {
                assert(n == (cap as int) * d + r0);
                assert((cap as int) * d == d * (cap as int)) by (nonlinear_arith);
            }
            vstd::arithmetic::div_mod::lemma_fundamental_div_mod_converse(
                n + cap - 1,
                cap as int,
                d,
                cap - 1,
            );
        }
        chunks
    }
}

/// The fold of a sequence of status models into one total, merged left to
/// right from the empty status.
pub open spec fn spec_merge_all(statuses: Seq<IngestStatusModel>) -> IngestStatusModel
    decreases statuses.len(),
{
    if statuses.len() == 0 {
        empty_status()
    } else {
        spec_merge(spec_merge_all(statuses.drop_last()), statuses.last())
    }
}

/// The sum of the ingested counts of a sequence of statuses.
pub open spec fn spec_sum_ingested(statuses: Seq<IngestStatusModel>) -> int
    decreases statuses.len(),
{
    if statuses.len() == 0 {
        0
    } else {
        spec_sum_ingested(statuses.drop_last()) + statuses.last().ingested
    }
}

proof fn lemma_sum_ingested_nonneg(statuses: Seq<IngestStatusModel>)
    ensures
        spec_sum_ingested(statuses) >= 0,
    decreases statuses.len(),
{
    if statuses.len() > 0 {
        lemma_sum_ingested_nonneg(statuses.drop_last());
    }
}

/// When every chunk reports success, the accumulated status counts every
/// event: as long as the per-chunk ingested counts sum within range, the
/// fold counts exactly their sum.
pub proof fn lemma_merge_all_ingested(statuses: Seq<IngestStatusModel>)
    requires
        spec_sum_ingested(statuses) <= u64::MAX,
    ensures
        spec_merge_all(statuses).ingested == spec_sum_ingested(statuses),
    decreases statuses.len(),
{
    if statuses.len() > 0 {
        lemma_sum_ingested_nonneg(statuses.drop_last());
        lemma_merge_all_ingested(statuses.drop_last());
    }
}

/// Merges the per-chunk statuses of one streaming ingestion into the final
/// accumulated status.
pub fn merge_all(statuses: Vec<IngestStatus>) -> (r: IngestStatus)
    ensures
        r@ == spec_merge_all(statuses.deep_view()),
{
    let mut acc = IngestStatus::new();
    let n = statuses.len();
    let mut statuses = statuses;
    let ghost all = statuses.deep_view();
    let mut i: usize = 0;
    proof {
        assert(all.subrange(0, 0) =~= Seq::<IngestStatusModel>::empty());
        assert(statuses.deep_view() =~= all.subrange(0, n as int));
    }
    while i < n
        invariant
            0 <= i <= n == all.len(),
            statuses.deep_view() =~= all.subrange(i as int, n as int),
            acc@ == spec_merge_all(all.subrange(0, i as int)),
        decreases n - i,
    {
        let ghost before = statuses.deep_view();
        let ghost bvec = statuses@;
        proof {
            assert(statuses.deep_view().len() == n - i);
            assert(statuses@.len() == statuses.deep_view().len());
        }
        let s = statuses.remove(0);
        proof {
            assert(s.deep_view() == before[0]);
            assert(before[0] == all[i as int]);
            assert(statuses@ == bvec.remove(0));
            assert forall|j: int| 0 <= j < statuses@.len() implies #[trigger] statuses.deep_view()[j]
                == all[i + 1 + j] by {
                assert(statuses@[j] == bvec[j + 1]);
                assert(statuses.deep_view()[j] == statuses@[j].deep_view());
                assert(before[j + 1] == bvec[j + 1].deep_view());
                assert(before[j + 1] == all[i + 1 + j]);
            }
            assert(statuses.deep_view() =~= all.subrange(i + 1, n as int));
        }
        acc = acc.merge(s);
        proof {
            assert(all.subrange(0, i + 1).drop_last() =~= all.subrange(0, i as int));
            assert(all.subrange(0, i + 1).last() == all[i as int]);
        }
        i = i + 1;
    }
    proof {
        assert(all.subrange(0, n as int) =~= all);
    }
    acc
}

} // verus!
