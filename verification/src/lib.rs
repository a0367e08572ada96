//! Block ingestion and script-hash notification logic of a Bitcoin indexer.

pub mod block;
pub mod block_job;
pub mod chunking;
pub mod decode;
pub mod error;
pub mod ingestion;
pub mod limits;
pub mod script_hash;
