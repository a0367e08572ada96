//! Chunk-atomic decoding: a chunk of fetched blocks becomes either every
//! block of it, in order, or the first failure met.

use crate::block::{consensus_decode_block, consensus_decoded, header_bytes, Block};
use crate::chunking::{is_chunking_of, split_chunks};
use crate::error::BlockProcessingError;
use crate::limits::HEADER_LEN;
use vstd::prelude::*;

verus! {

/// What the block source hands over for one height.
pub type Fetched<F> = Result<(u32, Vec<u8>), F>;

/// The item cannot become a block: it was not fetched, or its bytes are malformed.
pub open spec fn item_fails<F>(item: Fetched<F>) -> bool {
    match item {
        Err(_) => true,
        Ok((_, raw)) => consensus_decoded(raw@) is None,
    }
}

/// `out` is the fetched item decoded: same height, and the block its bytes
/// encode, whose header serializes back to the first 80 of them.
pub open spec fn is_decoding_of<F>(item: Fetched<F>, out: (u32, Block)) -> bool {
    &&& item matches Ok((height, raw))
    &&& out.0 == height
    &&& consensus_decoded(raw@) == Some(out.1@)
    &&& raw@.len() >= HEADER_LEN
    &&& header_bytes(out.1.header) == raw@.subrange(0, HEADER_LEN as int)
}

/// Decoding the same item twice gives the same height, the same block and
/// the same header record, which is the first 80 bytes of the item.
pub proof fn lemma_decoding_is_repeatable<F>(item: Fetched<F>, a: (u32, Block), b: (u32, Block))
    requires
        is_decoding_of(item, a),
        is_decoding_of(item, b),
    ensures
        a.0 == b.0,
        a.1@ == b.1@,
        header_bytes(a.1.header) == header_bytes(b.1.header),
        item matches Ok((_, raw)) && header_bytes(a.1.header) == raw@.subrange(
            0,
            HEADER_LEN as int,
        ),
{
}

/// `err` is the failure that the item stands for: the fetch failure itself,
/// or a decoding failure where the bytes were fetched.
pub open spec fn is_failure_of<F, T, S>(item: Fetched<F>, err: BlockProcessingError<F, T, S>) -> bool {
    match item {
        Err(f) => err == BlockProcessingError::<F, T, S>::BlockDecode(f),
        Ok(_) => err is BlockDecoding,
    }
}

/// No result before position `k` is a failure.
pub open spec fn all_ok_before<V, E>(results: Seq<Result<V, E>>, k: int) -> bool {
    forall|j: int| 0 <= j < k ==> (#[trigger] results[j]) is Ok
}

/// `res` is what decoding makes of the fetched item.
pub open spec fn is_outcome_of<F, T, S>(
    item: Fetched<F>,
    res: Result<(u32, Block), BlockProcessingError<F, T, S>>,
) -> bool {
    match res {
        Ok(out) => is_decoding_of(item, out),
        Err(err) => item_fails(item) && is_failure_of(item, err),
    }
}

/// Some item of the chunk cannot become a block.
pub open spec fn chunk_fails<F>(items: Seq<Fetched<F>>) -> bool {
    exists|i: int| 0 <= i < items.len() && item_fails(#[trigger] items[i])
}

/// Decodes one fetched item.
pub fn decode_item<F, T, S>(item: Fetched<F>) -> (res: Result<(u32, Block), BlockProcessingError<F, T, S>>)
    ensures
        is_outcome_of(item, res),
{
    match item {
        Err(f) => Err(BlockProcessingError::BlockDecode(f)),
        Ok((height, raw)) => match consensus_decode_block(raw.as_slice()) {
            Ok(block) => Ok((height, block)),
            Err(e) => Err(BlockProcessingError::BlockDecoding(e)),
        },
    }
}

/// Turns the results of a chunk into the result of the chunk: every value in
/// order where none failed, else the first failure alone.
pub fn collect_chunk<V, E>(results: Vec<Result<V, E>>) -> (res: Result<Vec<V>, E>)
    ensures
        res is Ok <==> all_ok_before(results@, results@.len() as int),
        match res {
            Ok(values) => values@.len() == results@.len() && forall|i: int|
                0 <= i < results@.len() ==> results@[i] == Ok::<V, E>(#[trigger] values@[i]),
            Err(err) => exists|k: int|
                0 <= k < results@.len() && results@[k] == Err::<V, E>(err) && all_ok_before(
                    results@,
                    k,
                ),
        },
{
    let mut values: Vec<V> = Vec::new();
    for r in it: results.into_iter()
        invariant
            it.seq() == results@,
            values@.len() == it.index(),
            all_ok_before(results@, it.index() as int),
            forall|i: int| 0 <= i < it.index() ==> results@[i] == Ok::<V, E>(#[trigger] values@[i]),
    {
        match r {
            Ok(v) => {
                values.push(v);
            },
            Err(e) => {
                return Err(e);
            },
        }
    }
    Ok(values)
}

/// `res` is the result of the chunk `items`: every block with its height, in
/// the order of the chunk, where each item was fetched and decodes; else the
/// failure of the first item that was not, and no block at all.
pub open spec fn is_chunk_result<F, T, S>(
    items: Seq<Fetched<F>>,
    res: Result<Vec<(u32, Block)>, BlockProcessingError<F, T, S>>,
) -> bool {
    match res {
        Ok(blocks) => blocks@.len() == items.len() && forall|i: int|
            0 <= i < items.len() ==> is_decoding_of(items[i], #[trigger] blocks@[i]),
        Err(err) => exists|k: int|
            0 <= k < items.len() && item_fails(items[k]) && is_failure_of(items[k], err)
                && forall|j: int| 0 <= j < k ==> !item_fails(#[trigger] items[j]),
    }
}

/// Decodes a chunk as a whole. Where every item was fetched and decodes, the
/// result is every block with its height, in the order of the chunk. Where
/// any item fails, the result is the failure of the first such item and
/// nothing else: no block of the chunk is handed on.
pub fn decode_chunk<F, T, S>(items: Vec<Fetched<F>>) -> (res: Result<
    Vec<(u32, Block)>,
    BlockProcessingError<F, T, S>,
>)
    ensures
        res is Err <==> chunk_fails(items@),
        is_chunk_result(items@, res),
{
    let mut decoded: Vec<Result<(u32, Block), BlockProcessingError<F, T, S>>> = Vec::new();
    for item in it: items.into_iter()
        invariant
            it.seq() == items@,
            decoded@.len() == it.index(),
            forall|i: int|
                0 <= i < it.index() ==> is_outcome_of(items@[i], #[trigger] decoded@[i]),
    {
        decoded.push(decode_item(item));
    }
    let res = collect_chunk(decoded);
    proof {
        match &res {
            Ok(blocks) => {
                assert forall|i: int| 0 <= i < items@.len() implies is_decoding_of(
                    items@[i],
                    #[trigger] blocks@[i],
                ) by {
                    assert(is_outcome_of(items@[i], decoded@[i]));
                }
                assert forall|i: int| 0 <= i < items@.len() implies !item_fails(
                    #[trigger] items@[i],
                ) by {
                    assert(is_decoding_of(items@[i], blocks@[i]));
                }
            },
            Err(err) => {
                let k = choose|k: int|
                    0 <= k < decoded@.len() && decoded@[k] == Err::<
                        (u32, Block),
                        BlockProcessingError<F, T, S>,
                    >(*err) && all_ok_before(decoded@, k);
                assert(is_outcome_of(items@[k], decoded@[k]));
                assert forall|j: int| 0 <= j < k implies !item_fails(#[trigger] items@[j]) by {
                    assert(decoded@[j] is Ok);
                    assert(is_outcome_of(items@[j], decoded@[j]));
                }
                assert(item_fails(items@[k]));
            },
        }
    }
    res
}

/// Decodes a finished stream of fetched items: the stream is cut into chunks
/// of 128 in its order, and each chunk becomes its one result.
pub fn decode_blocks<F, T, S>(items: Vec<Fetched<F>>) -> (results: Vec<
    Result<Vec<(u32, Block)>, BlockProcessingError<F, T, S>>,
>)
    ensures
        exists|chunks: Seq<Vec<Fetched<F>>>|
            is_chunking_of(chunks, items@) && results@.len() == chunks.len() && forall|c: int|
                0 <= c < chunks.len() ==> is_chunk_result(chunks[c]@, #[trigger] results@[c]),
{
    let chunks = split_chunks(items);
    let mut results: Vec<Result<Vec<(u32, Block)>, BlockProcessingError<F, T, S>>> = Vec::new();
    for chunk in it: chunks.into_iter()
        invariant
            it.seq() == chunks@,
            results@.len() == it.index(),
            forall|c: int|
                0 <= c < it.index() ==> is_chunk_result(chunks@[c]@, #[trigger] results@[c]),
    {
        results.push(decode_chunk(chunk));
    }
    results
}

} // verus!
