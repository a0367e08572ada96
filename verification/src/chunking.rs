//! Cutting a stream of items into chunks of 128, in the order of the stream.

use crate::limits::BLOCK_CHUNK_SIZE;
use vstd::prelude::*;

verus! {

/// The items of all the chunks, one chunk after the other.
pub open spec fn joined<X>(chunks: Seq<Vec<X>>) -> Seq<X> {
    chunks.map_values(|chunk: Vec<X>| chunk@).flatten()
}

/// `chunks` cuts `items` into chunks: taken one after the other they are the
/// items in their order, none is empty, and each but the last holds 128.
pub open spec fn is_chunking_of<X>(chunks: Seq<Vec<X>>, items: Seq<X>) -> bool {
    &&& joined(chunks) == items
    &&& forall|c: int|
        0 <= c < chunks.len() ==> 0 < (#[trigger] chunks[c])@.len() <= BLOCK_CHUNK_SIZE
    &&& forall|c: int|
        0 <= c < chunks.len() - 1 ==> (#[trigger] chunks[c])@.len() == BLOCK_CHUNK_SIZE
}

/// Adding a chunk at the end adds its items at the end.
pub proof fn lemma_joined_push<X>(chunks: Seq<Vec<X>>, chunk: Vec<X>)
    ensures
        joined(chunks.push(chunk)) == joined(chunks) + chunk@,
{
    let view_of = |c: Vec<X>| c@;
    assert(chunks.push(chunk).map_values(view_of) =~= chunks.map_values(view_of).push(chunk@));
    chunks.map_values(view_of).lemma_flatten_push(chunk@);
}

/// The items of a stream that do not fill a chunk yet.
pub struct ChunkBuffer<X> {
    pending: Vec<X>,
}

impl<X> View for ChunkBuffer<X> {
    type V = Seq<X>;

    closed spec fn view(&self) -> Seq<X> {
        self.pending@
    }
}

impl<X> ChunkBuffer<X> {
    #[verifier::type_invariant]
    spec fn below_chunk_size(&self) -> bool {
        self.pending@.len() < BLOCK_CHUNK_SIZE
    }

    /// A buffer that holds nothing.
    pub fn new() -> (buffer: Self)
        ensures
            buffer@.len() == 0,
    {
        ChunkBuffer { pending: Vec::new() }
    }

    /// The number of items held, always below 128.
    pub fn len(&self) -> (n: usize)
        ensures
            n == self@.len(),
            n < BLOCK_CHUNK_SIZE,
    {
        proof {
            use_type_invariant(self);
        }
        self.pending.len()
    }

    /// Takes the next item of the stream. With it the buffer either still
    /// holds fewer than 128 items, or hands all 128 out as a chunk and is
    /// empty again.
    pub fn push(self, item: X) -> (res: (Self, Option<Vec<X>>))
        ensures
            match res.1 {
                None => res.0@ == self@.push(item),
                Some(chunk) => chunk@ == self@.push(item) && chunk@.len() == BLOCK_CHUNK_SIZE
                    && res.0@.len() == 0,
            },
            res.0@.len() < BLOCK_CHUNK_SIZE,
    {
        proof {
            use_type_invariant(&self);
        }
        let mut pending = self.pending;
        pending.push(item);
        if pending.len() < BLOCK_CHUNK_SIZE {
            (ChunkBuffer { pending }, None)
        } else {
            (ChunkBuffer { pending: Vec::new() }, Some(pending))
        }
    }

    /// Ends the stream: what is held becomes the last chunk, which is
    /// shorter than 128; an empty buffer gives none.
    pub fn finish(self) -> (res: Option<Vec<X>>)
        ensures
            match res {
                None => self@.len() == 0,
                Some(chunk) => chunk@ == self@ && 0 < chunk@.len() < BLOCK_CHUNK_SIZE,
            },
    {
        proof {
            use_type_invariant(&self);
        }
        if self.pending.len() == 0 {
            None
        } else {
            Some(self.pending)
        }
    }
}

/// Cuts the items into chunks of 128 in their order; the last chunk holds
/// what is left, and no items give no chunk.
pub fn split_chunks<X>(items: Vec<X>) -> (chunks: Vec<Vec<X>>)
    ensures
        is_chunking_of(chunks@, items@),
{
    let mut chunks: Vec<Vec<X>> = Vec::new();
    let mut buffer: ChunkBuffer<X> = ChunkBuffer::new();
    proof {
        assert(joined(chunks@) =~= Seq::<X>::empty());
    }
    for item in it: items.into_iter()
        invariant
            it.seq() == items@,
            joined(chunks@) + buffer@ == items@.take(it.index() as int),
            forall|c: int| 0 <= c < chunks@.len() ==> (#[trigger] chunks@[c])@.len() == BLOCK_CHUNK_SIZE,
    {
        let ghost seen = items@.take(it.index() as int);
        let ghost before = chunks@;
        let ghost held = buffer@;
        assert(items@.take(it.index() + 1) =~= seen.push(item));
        let (rest, full) = buffer.push(item);
        buffer = rest;
        match full {
            None => {
                assert(joined(chunks@) + buffer@ =~= seen.push(item));
            },
            Some(chunk) => {
                proof {
                    lemma_joined_push(before, chunk);
                    assert(joined(before.push(chunk)) + Seq::<X>::empty() =~= seen.push(item));
                    assert(buffer@ =~= Seq::<X>::empty());
                }
                chunks.push(chunk);
            },
        }
    }
    assert(items@.take(items@.len() as int) =~= items@);
    let ghost before = chunks@;
    match buffer.finish() {
        None => {
            assert(joined(chunks@) =~= items@);
        },
        Some(chunk) => {
            proof {
                lemma_joined_push(before, chunk);
            }
            chunks.push(chunk);
        },
    }
    chunks
}

} // verus!
