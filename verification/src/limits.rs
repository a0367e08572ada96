//! Fixed bounds of the ingestion pipeline.

use vstd::prelude::*;

verus! {

/// Largest number of raw blocks decoded and processed as one chunk.
pub const BLOCK_CHUNK_SIZE: usize = 128;

/// Largest number of chunks that may be in flight at the same time.
pub const MAX_CONCURRENT_CHUNKS: usize = 256;

/// Length in bytes of a script hash.
pub const SCRIPT_HASH_LEN: usize = 32;

/// Length in bytes of a serialized block header.
pub const HEADER_LEN: usize = 80;

} // verus!
