//! The chunked block-append protocol and the cursor-based pagination
//! protocol, as sessions the surrounding application drives one remote call
//! at a time, together with the error taxonomy that failures surface
//! through.

use crate::structs::block::{Block, BlockBody, BlockResponse};
use crate::structs::page::PageResponse;
use crate::structs::query_filter::QueryFilter;
use vstd::arithmetic::div_mod::{lemma_fundamental_div_mod, lemma_mod_bound};
use vstd::prelude::*;
use vstd::string::*;

verus! {

/// A typed failure of a remote operation.  Nothing is retried or recovered
/// locally: every failure is surfaced to the caller.
#[derive(Debug, Clone)]
pub enum ApiError {
    /// The transport failed before a response body was obtained.
    Transport(String),
    /// A response body did not decode into the expected wire shape.
    Deserialization(String),
    /// One write of a multi-chunk batch failed: `chunk` is its one-based
    /// position.  Chunks before it remain committed on the remote side.
    ChunkFailure { chunk: usize, message: String },
}

/// How many chunks a sequence of `len` blocks is split into: the least
/// number of batches of at most 100.
pub open spec fn chunk_count(len: int) -> int {
    (len + 99) / 100
}

/// Where the chunk `k` would start: 100 blocks per earlier chunk, capped
/// at the end of the sequence.
pub open spec fn chunk_start(len: int, k: int) -> int {
    if 100 * k <= len {
        100 * k
    } else {
        len
    }
}

/// The blocks of chunk `k`: the `k`-th contiguous slice of at most 100.
pub open spec fn chunk_at(blocks: Seq<Block>, k: int) -> Seq<Block> {
    blocks.subrange(chunk_start(blocks.len() as int, k), chunk_start(blocks.len() as int, k + 1))
}

/// All chunks of a block sequence, in order.
pub open spec fn chunks_of(blocks: Seq<Block>) -> Seq<Seq<Block>> {
    Seq::new(chunk_count(blocks.len() as int) as nat, |k: int| chunk_at(blocks, k))
}

/// The arithmetic of the chunk count: it is never negative, a `k`-th chunk
/// exists exactly when 100 chunks of `k` blocks do not cover the sequence,
/// and 100 chunks of `chunk_count` blocks always do.
pub proof fn lemma_chunk_count_facts(len: int)
    requires
        0 <= len,
    ensures
        0 <= chunk_count(len),
        len >= 1 ==> chunk_count(len) <= len,
        100 * chunk_count(len) >= len,
        forall|k: int| 0 <= k ==> ((#[trigger] (100 * k) < len) <==> (k < chunk_count(len))),
{
    lemma_fundamental_div_mod(len + 99, 100);
    lemma_mod_bound(len + 99, 100);
    let c = chunk_count(len);
    let r = (len + 99) % 100;
    assert(len + 99 == 100 * c + r);
    assert forall|k: int| 0 <= k implies ((#[trigger] (100 * k) < len) <==> (k < c)) by {
        if 100 * k < len {
            assert(100 * k <= 100 * c + r - 100);
            assert(100 * k < 100 * c);
        }
        if k < c {
            assert(100 * k <= 100 * c - 100);
        }
    }
}

/// Chunk sizing and ordering: a sequence of blocks splits into
/// `chunk_count` chunks, each chunk holds between 1 and 100 blocks, and
/// concatenating the chunks in order reassembles the original sequence
/// exactly.
pub proof fn lemma_chunks_reassemble(blocks: Seq<Block>)
    ensures
        chunks_of(blocks).flatten() == blocks,
        forall|k: int|
            0 <= k < chunk_count(blocks.len() as int) ==> 1 <= (#[trigger] chunk_at(
                blocks,
                k,
            )).len() <= 100,
    decreases blocks.len(),
{
    let len = blocks.len() as int;
    let cs = chunks_of(blocks);
    lemma_chunk_count_facts(len);
    if len == 0 {
        assert(chunk_count(0) == 0) by {
            lemma_fundamental_div_mod(99, 100);
            lemma_mod_bound(99, 100);
        }
        assert(cs.flatten() =~= blocks);
    } else if len <= 100 {
        assert(chunk_count(len) == 1) by {
            lemma_fundamental_div_mod(len + 99, 100);
            lemma_mod_bound(len + 99, 100);
        }
        assert(cs.len() == 1);
        assert(cs.first() =~= blocks);
        assert(cs.drop_first().len() == 0);
        assert(cs.drop_first().flatten() =~= Seq::<Block>::empty());
        assert(cs.flatten() =~= blocks);
    } else {
        let rest = blocks.skip(100);
        lemma_chunks_reassemble(rest);
        lemma_chunk_count_facts(len - 100);
        assert(chunk_count(len) == 1 + chunk_count(len - 100)) by {
            lemma_fundamental_div_mod(len - 100 + 99, 100);
            lemma_mod_bound(len - 100 + 99, 100);
            vstd::arithmetic::div_mod::lemma_fundamental_div_mod_converse(
                len + 99,
                100,
                chunk_count(len - 100) + 1,
                (len - 100 + 99) % 100,
            );
        }
        assert(cs.first() =~= blocks.subrange(0, 100));
        assert(cs.drop_first() =~= chunks_of(rest)) by {
            assert forall|k: int| 0 <= k < chunk_count(len - 100) implies cs.drop_first()[k]
                == chunks_of(rest)[k] by {
                assert(cs.drop_first()[k] == chunk_at(blocks, k + 1));
                assert(chunk_at(blocks, k + 1) =~= chunk_at(rest, k));
            }
        }
        assert(cs.flatten() == cs.first() + cs.drop_first().flatten());
        assert(cs.flatten() =~= blocks);
        assert forall|k: int| 0 <= k < chunk_count(len) implies 1 <= (#[trigger] chunk_at(
            blocks,
            k,
        )).len() <= 100 by {
            if k == 0 {
                assert(chunk_at(blocks, 0).len() == 100);
            } else {
                assert(chunk_at(blocks, k) =~= chunk_at(rest, k - 1));
            }
        }
    }
}

/// A batched block-append in progress.  The session hands out the input
/// blocks as chunks of at most 100, strictly in order and one at a time;
/// the caller submits each chunk and feeds the returned blocks back before
/// asking for the next.  The first failing chunk ends the session: later
/// chunks are never handed out, and already-submitted chunks stay
/// committed remotely.
pub struct AppendSession {
    remaining: Vec<Block>,
    taken: usize,
    absorbed: usize,
    results: Vec<Block>,
    source: Ghost<Seq<Block>>,
}

impl AppendSession {
    /// The full ordered input of the batched operation.
    pub closed spec fn source(self) -> Seq<Block> {
        self.source@
    }

    /// How many chunks have been handed out for submission.
    pub closed spec fn chunks_taken(self) -> int {
        self.taken as int
    }

    /// How many chunk results have been absorbed.
    pub closed spec fn chunks_absorbed(self) -> int {
        self.absorbed as int
    }

    /// The concatenation of the absorbed chunk results, in submission
    /// order.
    pub closed spec fn collected(self) -> Seq<Block> {
        self.results@
    }

    /// The session's invariant: results are absorbed chunk by chunk, at
    /// most one chunk is in flight, and what remains to submit is exactly
    /// the source past the handed-out chunks.
    pub closed spec fn inv(self) -> bool {
        let len = self.source@.len() as int;
        &&& self.source@.len() <= usize::MAX
        &&& self.absorbed <= self.taken
        &&& self.taken <= self.absorbed + 1
        &&& self.taken as int <= chunk_count(len)
        &&& self.remaining@ == self.source@.skip(chunk_start(len, self.taken as int))
    }

    /// Start a batched append of `blocks`.
    pub fn new(blocks: Vec<Block>) -> (s: AppendSession)
        ensures
            s.inv(),
            s.source() == blocks@,
            s.chunks_taken() == 0,
            s.chunks_absorbed() == 0,
            s.collected() == Seq::<Block>::empty(),
    {
        proof {
            lemma_chunk_count_facts(blocks@.len() as int);
            assert(blocks@.skip(0) =~= blocks@);
            assert(blocks.len() == blocks@.len());
        }
        AppendSession {
            remaining: blocks,
            taken: 0,
            absorbed: 0,
            results: Vec::new(),
            source: Ghost(blocks@),
        }
    }

    /// Hand out the next chunk for submission, or `None` when every chunk
    /// has been handed out.  On a sequence of N blocks the chunks are the
    /// slices `[0,100)`, `[100,200)`, ... of the input, in order.
    pub fn take_chunk(&mut self) -> (r: Option<BlockBody>)
        requires
            old(self).inv(),
            old(self).chunks_taken() == old(self).chunks_absorbed(),
        ensures
            final(self).inv(),
            final(self).source() == old(self).source(),
            final(self).collected() == old(self).collected(),
            final(self).chunks_absorbed() == old(self).chunks_absorbed(),
            (match r {
                Some(b) => {
                    &&& old(self).chunks_taken() < chunk_count(old(self).source().len() as int)
                    &&& b.children@ == chunk_at(old(self).source(), old(self).chunks_taken())
                    &&& final(self).chunks_taken() == old(self).chunks_taken() + 1
                },
                None => {
                    &&& old(self).chunks_taken() == chunk_count(old(self).source().len() as int)
                    &&& final(self).chunks_taken() == old(self).chunks_taken()
                },
            }),
    {
        proof {
            lemma_chunk_count_facts(self.source@.len() as int);
        }
        let rem = self.remaining.len();
        if rem == 0 {
            proof {
                let len = self.source@.len() as int;
                assert(self.source@.skip(chunk_start(len, self.taken as int)).len() == 0);
                assert(chunk_start(len, self.taken as int) == len);
                assert(100 * (self.taken as int) >= len);
                assert(self.taken as int >= chunk_count(len));
            }
            return None;
        }
        let k = if rem > 100 {
            100
        } else {
            rem
        };
        proof {
            let len = self.source@.len() as int;
            let t = self.taken as int;
            assert(chunk_start(len, t) < len);
            assert(100 * t < len);
            assert(t < chunk_count(len));
            assert(chunk_count(len) <= len);
            assert(self.taken < usize::MAX);
        }
        let mut tail = self.remaining.split_off(k);
        core::mem::swap(&mut self.remaining, &mut tail);
        self.taken = self.taken + 1;
        proof {
            let len = self.source@.len() as int;
            let t = (self.taken - 1) as int;
            assert(tail@ =~= chunk_at(self.source@, t));
            assert(self.remaining@ =~= self.source@.skip(chunk_start(len, t + 1)));
        }
        Some(BlockBody { children: tail })
    }

    /// Absorb the blocks that the submission of the pending chunk
    /// returned: they are appended, in order, to what earlier chunks
    /// returned.
    pub fn absorb(&mut self, chunk_results: Vec<Block>)
        requires
            old(self).inv(),
            old(self).chunks_taken() == old(self).chunks_absorbed() + 1,
        ensures
            final(self).inv(),
            final(self).source() == old(self).source(),
            final(self).chunks_taken() == old(self).chunks_taken(),
            final(self).chunks_absorbed() == old(self).chunks_absorbed() + 1,
            final(self).collected() == old(self).collected() + chunk_results@,
    {
        let mut results = chunk_results;
        self.results.append(&mut results);
        self.absorbed = self.absorbed + 1;
    }

    /// Whether every chunk has been handed out and answered.
    pub fn is_done(&self) -> (r: bool)
        requires
            self.inv(),
        ensures
            r == (self.chunks_taken() == chunk_count(self.source().len() as int)
                && self.chunks_absorbed() == self.chunks_taken()),
    {
        proof {
            lemma_chunk_count_facts(self.source@.len() as int);
            let len = self.source@.len() as int;
            if self.remaining.len() == 0 {
                assert(self.source@.skip(chunk_start(len, self.taken as int)).len() == 0);
                assert(100 * (self.taken as int) >= len);
            } else {
                assert(chunk_start(len, self.taken as int) < len);
                assert(100 * (self.taken as int) < len);
            }
        }
        self.remaining.is_empty() && self.absorbed == self.taken
    }

    /// The error that ends the batch when the pending chunk's submission
    /// failed: it names that chunk's one-based position.
    pub fn chunk_failure(&self, message: String) -> (e: ApiError)
        ensures
            (e matches ApiError::ChunkFailure { chunk, message: m } && chunk as int
                == self.chunks_taken() && m == message),
    {
        ApiError::ChunkFailure { chunk: self.taken, message }
    }

    /// The merged response of the whole batch, once every chunk succeeded:
    /// the per-chunk results concatenated in submission order, under an
    /// overall success status.
    pub fn finish(self) -> (r: BlockResponse)
        requires
            self.inv(),
            self.chunks_taken() == chunk_count(self.source().len() as int),
            self.chunks_absorbed() == self.chunks_taken(),
        ensures
            r.results@ == self.collected(),
            r.status == 200,
            r.object@ == "list"@,
            r.code@ == Seq::<char>::empty(),
            r.message@ == Seq::<char>::empty(),
    {
        BlockResponse {
            object: String::from_str("list"),
            status: 200,
            code: String::new(),
            message: String::new(),
            results: self.results,
        }
    }
}

/// Cursor-based pagination of one logical query.  Each round serializes
/// the query with the current cursor; the response decides whether another
/// round follows, and from which cursor it resumes.
#[derive(Debug)]
pub struct Paginator {
    filter: QueryFilter,
    finished: bool,
}

impl Paginator {
    /// The query the next call would send: the filter and its cursor.
    pub closed spec fn query(self) -> QueryFilter {
        self.filter
    }

    /// Whether a response has said that no further page follows.
    pub closed spec fn is_finished(self) -> bool {
        self.finished
    }

    /// Start paginating a query from its own cursor (an empty cursor means
    /// the first page).
    pub fn new(filter: QueryFilter) -> (r: Paginator)
        ensures
            !r.is_finished(),
            r.query() == filter,
    {
        Paginator { filter, finished: false }
    }

    /// The body of the next query call, or `None` once the previous
    /// response said that no page follows.
    pub fn next_body(&self) -> (r: Option<String>)
        ensures
            self.is_finished() ==> r is None,
            !self.is_finished() ==> (r matches Some(b) && b@ == self.query().wire_body()),
    {
        if self.finished {
            None
        } else {
            Some(self.filter.build())
        }
    }

    /// Record one response.  Pagination stops exactly when the response
    /// carries no further page; otherwise the next round resumes verbatim
    /// from the cursor the response handed back.
    pub fn absorb(&mut self, response: &PageResponse)
        requires
            !old(self).is_finished(),
        ensures
            final(self).is_finished() == !response.has_more,
            final(self).query().filter == old(self).query().filter,
            response.has_more ==> final(self).query().start_cursor == response.next_cursor,
            !response.has_more ==> final(self).query() == old(self).query(),
    {
        if response.has_more {
            self.filter.start_cursor = response.next_cursor.clone();
        } else {
            self.finished = true;
        }
    }
}

} // verus!
