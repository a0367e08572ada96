//! The work done for one block: store its header, run the height callback,
//! index its transactions, in that order and stopping at the first failure.
//!
//! The job decides; its driver performs each action it is handed and reports
//! back what came of it.

use crate::block::{consensus_encode_header, header_bytes, Block};
use crate::error::BlockProcessingError;
use vstd::prelude::*;

verus! {

/// Where a block stands in its pipeline.
pub enum BlockJob<F, T, S> {
    /// The header was handed to the store; its answer is awaited.
    StoringHeader { height: u32, txdata: Vec<bitcoin::Transaction> },
    /// The height callback was invoked; its answer is awaited.
    RunningCallback { height: u32, txdata: Vec<bitcoin::Transaction> },
    /// The transactions were handed to the indexer; its answer is awaited.
    Indexing { height: u32 },
    /// Nothing is left to do for this block.
    Finished(Result<(), BlockProcessingError<F, T, S>>),
}

/// What the driver of a job has to do next.
pub enum BlockAction {
    /// Write the serialized header under the height.
    PutHeader { height: u32, header: [u8; 80] },
    /// Invoke the height callback.
    InvokeCallback { height: u32 },
    /// Hand the transactions of the block to the indexer.
    IndexTransactions { height: u32, txdata: Vec<bitcoin::Transaction> },
}

/// What came of an action.
pub enum BlockEvent<F, T, S> {
    HeaderStored(Result<(), S>),
    CallbackReturned(Result<(), BlockProcessingError<F, T, S>>),
    TransactionsIndexed(Result<(), T>),
}

/// The job after an event, and the action that the event sets off, if any.
/// An event that does not answer the action awaited changes nothing.
pub open spec fn next<F, T, S>(job: BlockJob<F, T, S>, event: BlockEvent<F, T, S>) -> (
    BlockJob<F, T, S>,
    Option<BlockAction>,
) {
    match (job, event) {
        (BlockJob::StoringHeader { height, txdata }, BlockEvent::HeaderStored(Ok(_))) => (
            BlockJob::RunningCallback { height, txdata },
            Some(BlockAction::InvokeCallback { height }),
        ),
        (BlockJob::StoringHeader { .. }, BlockEvent::HeaderStored(Err(e))) => (
            BlockJob::Finished(Err(BlockProcessingError::Database(e))),
            None,
        ),
        (BlockJob::RunningCallback { height, txdata }, BlockEvent::CallbackReturned(Ok(_))) => (
            BlockJob::Indexing { height },
            Some(BlockAction::IndexTransactions { height, txdata }),
        ),
        (BlockJob::RunningCallback { .. }, BlockEvent::CallbackReturned(Err(e))) => (
            BlockJob::Finished(Err(e)),
            None,
        ),
        (BlockJob::Indexing { .. }, BlockEvent::TransactionsIndexed(Ok(_))) => (
            BlockJob::Finished(Ok(())),
            None,
        ),
        (BlockJob::Indexing { .. }, BlockEvent::TransactionsIndexed(Err(e))) => (
            BlockJob::Finished(Err(BlockProcessingError::Transaction(e))),
            None,
        ),
        (job, _) => (job, None),
    }
}

/// The result of a block whose three actions would be answered by `stored`,
/// `called` and `indexed`: the first failure in the order of the actions.
pub open spec fn block_outcome<F, T, S>(
    stored: Result<(), S>,
    called: Result<(), BlockProcessingError<F, T, S>>,
    indexed: Result<(), T>,
) -> Result<(), BlockProcessingError<F, T, S>> {
    match stored {
        Err(e) => Err(BlockProcessingError::Database(e)),
        Ok(_) => match called {
            Err(e) => Err(e),
            Ok(_) => match indexed {
                Err(e) => Err(BlockProcessingError::Transaction(e)),
                Ok(_) => Ok(()),
            },
        },
    }
}

/// The callback is invoked for a height only in answer to a header of that
/// height having been stored.
pub proof fn lemma_callback_follows_header<F, T, S>(
    job: BlockJob<F, T, S>,
    event: BlockEvent<F, T, S>,
    height: u32,
)
    requires
        next(job, event).1 == Some(BlockAction::InvokeCallback { height }),
    ensures
        job matches BlockJob::StoringHeader { height: h, .. } && h == height,
        event matches BlockEvent::HeaderStored(Ok(_)),
{
}

/// The transactions of a block are handed to the indexer only in answer to
/// the callback having succeeded for its height, and they are those the job
/// was opened with.
pub proof fn lemma_indexing_follows_callback<F, T, S>(
    job: BlockJob<F, T, S>,
    event: BlockEvent<F, T, S>,
    height: u32,
    txdata: Vec<bitcoin::Transaction>,
)
    requires
        next(job, event).1 == Some(BlockAction::IndexTransactions { height, txdata }),
    ensures
        job == (BlockJob::<F, T, S>::RunningCallback { height, txdata }),
        event matches BlockEvent::CallbackReturned(Ok(_)),
{
}

/// A finished job stays as it is and asks for nothing more.
pub proof fn lemma_finished_is_final<F, T, S>(
    result: Result<(), BlockProcessingError<F, T, S>>,
    event: BlockEvent<F, T, S>,
)
    ensures
        next(BlockJob::Finished(result), event) == (
            BlockJob::<F, T, S>::Finished(result),
            None::<BlockAction>,
        ),
{
}

/// A job whose actions are answered in turn asks for the callback once, after
/// the header, for the indexer once, after the callback, asks for nothing
/// after a failure, and ends with `block_outcome`.
pub proof fn lemma_job_runs_in_order<F, T, S>(
    height: u32,
    txdata: Vec<bitcoin::Transaction>,
    stored: Result<(), S>,
    called: Result<(), BlockProcessingError<F, T, S>>,
    indexed: Result<(), T>,
)
    ensures
        ({
            let job = BlockJob::<F, T, S>::StoringHeader { height, txdata };
            let first = next(job, BlockEvent::HeaderStored(stored));
            let second = next(first.0, BlockEvent::CallbackReturned(called));
            let third = next(second.0, BlockEvent::TransactionsIndexed(indexed));
            &&& stored is Err ==> first.0 == BlockJob::Finished(block_outcome(stored, called, indexed))
                && first.1 is None
            &&& stored is Ok ==> first.1 == Some(BlockAction::InvokeCallback { height })
            &&& stored is Ok && called is Err ==> second.0 == BlockJob::Finished(
                block_outcome(stored, called, indexed),
            ) && second.1 is None
            &&& stored is Ok && called is Ok ==> second.1 == Some(
                BlockAction::IndexTransactions { height, txdata },
            )
            &&& stored is Ok && called is Ok ==> third.0 == BlockJob::Finished(
                block_outcome(stored, called, indexed),
            ) && third.1 is None
        }),
{
}

impl<F, T, S> BlockJob<F, T, S> {
    /// Opens the job of a decoded block: its first action is to store the
    /// header, serialized to its 80 bytes, under the height.
    pub fn start(height: u32, block: Block) -> (res: (Self, BlockAction))
        ensures
            res.0 == (BlockJob::<F, T, S>::StoringHeader { height, txdata: block.txdata }),
            res.1 matches BlockAction::PutHeader { height: h, header } && h == height && header@
                == header_bytes(block.header),
    {
        let header = consensus_encode_header(&block.header);
        (
            BlockJob::StoringHeader { height, txdata: block.txdata },
            BlockAction::PutHeader { height, header },
        )
    }

    /// Takes the job one event further.
    pub fn step(self, event: BlockEvent<F, T, S>) -> (res: (Self, Option<BlockAction>))
        ensures
            res == next(self, event),
    {
        match (self, event) {
            (BlockJob::StoringHeader { height, txdata }, BlockEvent::HeaderStored(Ok(_))) => (
                BlockJob::RunningCallback { height, txdata },
                Some(BlockAction::InvokeCallback { height }),
            ),
            (BlockJob::StoringHeader { .. }, BlockEvent::HeaderStored(Err(e))) => (
                BlockJob::Finished(Err(BlockProcessingError::Database(e))),
                None,
            ),
            (BlockJob::RunningCallback { height, txdata }, BlockEvent::CallbackReturned(Ok(_))) => (
                BlockJob::Indexing { height },
                Some(BlockAction::IndexTransactions { height, txdata }),
            ),
            (BlockJob::RunningCallback { .. }, BlockEvent::CallbackReturned(Err(e))) => (
                BlockJob::Finished(Err(e)),
                None,
            ),
            (BlockJob::Indexing { .. }, BlockEvent::TransactionsIndexed(Ok(_))) => (
                BlockJob::Finished(Ok(())),
                None,
            ),
            (BlockJob::Indexing { .. }, BlockEvent::TransactionsIndexed(Err(e))) => (
                BlockJob::Finished(Err(BlockProcessingError::Transaction(e))),
                None,
            ),
            (job, _) => (job, None),
        }
    }

    /// The result of the job once it has finished.
    pub fn into_result(self) -> (res: Option<Result<(), BlockProcessingError<F, T, S>>>)
        ensures
            res == match self {
                BlockJob::Finished(r) => Some(r),
                _ => None,
            },
    {
        match self {
            BlockJob::Finished(r) => Some(r),
            _ => None,
        }
    }
}

} // verus!
