//! The failures that end an ingestion run.

use vstd::prelude::*;

verus! {

/// Why a chunk of blocks could not be ingested. `F` is the failure of the
/// block source, `T` that of the transaction indexer, `S` that of the store.
#[derive(Debug)]
pub enum BlockProcessingError<F, T, S> {
    /// The source failed to deliver a raw block.
    BlockDecode(F),
    /// The bytes of a block are not a consensus-encoded block.
    BlockDecoding(bitcoin::consensus::encode::Error),
    /// The indexer rejected the transactions of a block.
    Transaction(T),
    /// The store rejected a header.
    Database(S),
}

} // verus!
