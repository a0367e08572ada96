//! Admission of chunks into the pipeline: at most 256 chunks run at a time,
//! in the order of the source, and none is admitted once a chunk has failed.
//!
//! The driver offers each chunk result of the source, reports the end of the
//! source and the end of every chunk it was told to run, and reads the
//! outcome once the run has resolved.

use crate::block::Block;
use crate::decode::all_ok_before;
use crate::error::BlockProcessingError;
use crate::limits::MAX_CONCURRENT_CHUNKS;
use vstd::prelude::*;

verus! {

/// The state of a run, as a mathematical value.
pub struct IngestionView<F, T, S> {
    /// Chunks admitted and not yet reported as finished.
    pub in_flight: nat,
    /// The source has reported its end.
    pub source_done: bool,
    /// The first failure observed, if any.
    pub failure: Option<BlockProcessingError<F, T, S>>,
}

/// What the driver may report to a run.
pub enum IngestionEvent<F, T, S> {
    /// The source yielded the result of decoding its next chunk.
    Offered(Result<Vec<(u32, Block)>, BlockProcessingError<F, T, S>>),
    /// The source has no further chunk.
    SourceExhausted,
    /// An admitted chunk has run to its end.
    ChunkFinished(Result<(), BlockProcessingError<F, T, S>>),
}

/// The answer to an offered chunk.
pub enum Admission<F, T, S> {
    /// The chunk is to be run now.
    Admitted(Vec<(u32, Block)>),
    /// The chunk was a failure; it is recorded and nothing of it is run.
    Failed,
    /// The window is full or closed: the chunk comes back untouched.
    Refused(Result<Vec<(u32, Block)>, BlockProcessingError<F, T, S>>),
}

/// A fresh run.
pub open spec fn initial<F, T, S>() -> IngestionView<F, T, S> {
    IngestionView { in_flight: 0, source_done: false, failure: None }
}

/// The run takes a further chunk: nothing has failed, the source has not
/// ended, and fewer than 256 chunks are in flight.
pub open spec fn can_admit<F, T, S>(v: IngestionView<F, T, S>) -> bool {
    v.failure is None && !v.source_done && v.in_flight < MAX_CONCURRENT_CHUNKS
}

/// The failure kept when `next` is observed after `seen`: the earlier one.
pub open spec fn first_failure<E>(seen: Option<E>, next: Result<(), E>) -> Option<E> {
    match seen {
        Some(e) => Some(e),
        None => match next {
            Err(e) => Some(e),
            Ok(_) => None,
        },
    }
}

/// The run after an event.
pub open spec fn apply<F, T, S>(v: IngestionView<F, T, S>, event: IngestionEvent<F, T, S>) -> IngestionView<F, T, S> {
    match event {
        IngestionEvent::Offered(chunk) => if !can_admit(v) {
            v
        } else {
            match chunk {
                Ok(_) => IngestionView { in_flight: v.in_flight + 1, ..v },
                Err(e) => IngestionView { failure: Some(e), ..v },
            }
        },
        IngestionEvent::SourceExhausted => IngestionView { source_done: true, ..v },
        IngestionEvent::ChunkFinished(result) => if v.in_flight == 0 {
            v
        } else {
            IngestionView {
                in_flight: (v.in_flight - 1) as nat,
                failure: first_failure(v.failure, result),
                ..v
            }
        },
    }
}

/// The answer that an offered chunk gets in state `v`.
pub open spec fn admission<F, T, S>(
    v: IngestionView<F, T, S>,
    chunk: Result<Vec<(u32, Block)>, BlockProcessingError<F, T, S>>,
) -> Admission<F, T, S> {
    if !can_admit(v) {
        Admission::Refused(chunk)
    } else {
        match chunk {
            Ok(blocks) => Admission::Admitted(blocks),
            Err(_) => Admission::Failed,
        }
    }
}

/// The outcome of the run, once no chunk is in flight and either a failure
/// was observed or the source has ended: the first failure, or success.
pub open spec fn outcome<F, T, S>(v: IngestionView<F, T, S>) -> Option<
    Result<(), BlockProcessingError<F, T, S>>,
> {
    if v.in_flight > 0 {
        None
    } else {
        match v.failure {
            Some(e) => Some(Err(e)),
            None => if v.source_done {
                Some(Ok(()))
            } else {
                None
            },
        }
    }
}

/// The run after a sequence of events, from a fresh start.
pub open spec fn run<F, T, S>(events: Seq<IngestionEvent<F, T, S>>) -> IngestionView<F, T, S>
    decreases events.len(),
{
    if events.len() == 0 {
        initial()
    } else {
        apply(run(events.drop_last()), events.last())
    }
}

/// Whatever is reported to a run, and in whatever order, no more than 256
/// chunks are ever in flight.
pub proof fn lemma_window_is_bounded<F, T, S>(events: Seq<IngestionEvent<F, T, S>>)
    ensures
        run(events).in_flight <= MAX_CONCURRENT_CHUNKS,
    decreases events.len(),
{
    if events.len() > 0 {
        lemma_window_is_bounded(events.drop_last());
    }
}

/// Once a failure is observed it is kept, and no further chunk is admitted.
pub proof fn lemma_failure_closes_window<F, T, S>(
    v: IngestionView<F, T, S>,
    event: IngestionEvent<F, T, S>,
)
    requires
        v.failure is Some,
    ensures
        apply(v, event).failure == v.failure,
        apply(v, event).in_flight <= v.in_flight,
        event matches IngestionEvent::Offered(chunk) ==> admission(v, chunk) == Admission::Refused(
            chunk,
        ),
{
}

/// The failure that a run ends with is the first it observed: whatever is
/// reported after a failure, the failure stays the same.
pub proof fn lemma_first_failure_is_kept<F, T, S>(events: Seq<IngestionEvent<F, T, S>>, n: int)
    requires
        0 <= n <= events.len(),
        run(events.take(n)).failure is Some,
    ensures
        run(events).failure == run(events.take(n)).failure,
    decreases events.len() - n,
{
    if n == events.len() {
        assert(events.take(n) =~= events);
    } else {
        let earlier = events.drop_last();
        assert(earlier.take(n) =~= events.take(n));
        lemma_first_failure_is_kept(earlier, n);
        lemma_failure_closes_window(run(earlier), events.last());
    }
}

/// A run that has resolved without a failure has seen the end of its source
/// and has no chunk in flight; one that has resolved with a failure has no
/// chunk in flight either: every admitted chunk has run to its end.
pub proof fn lemma_outcome_waits_for_chunks<F, T, S>(v: IngestionView<F, T, S>)
    requires
        outcome(v) is Some,
    ensures
        v.in_flight == 0,
        outcome(v) == Some(Ok::<(), BlockProcessingError<F, T, S>>(())) <==> v.failure is None,
        v.failure is None ==> v.source_done,
        !can_admit(v),
{
}

/// The state of one ingestion run.
pub struct Ingestion<F, T, S> {
    in_flight: usize,
    source_done: bool,
    failure: Option<BlockProcessingError<F, T, S>>,
}

impl<F, T, S> View for Ingestion<F, T, S> {
    type V = IngestionView<F, T, S>;

    closed spec fn view(&self) -> IngestionView<F, T, S> {
        IngestionView {
            in_flight: self.in_flight as nat,
            source_done: self.source_done,
            failure: self.failure,
        }
    }
}

impl<F, T, S> Ingestion<F, T, S> {
    #[verifier::type_invariant]
    spec fn within_window(&self) -> bool {
        self.in_flight <= MAX_CONCURRENT_CHUNKS
    }

    /// A run that has seen nothing yet.
    pub fn new() -> (run: Self)
        ensures
            run@ == initial::<F, T, S>(),
    {
        Ingestion { in_flight: 0, source_done: false, failure: None }
    }

    /// The number of chunks in flight.
    pub fn in_flight(&self) -> (n: usize)
        ensures
            n == self@.in_flight,
            n <= MAX_CONCURRENT_CHUNKS,
    {
        proof {
            use_type_invariant(self);
        }
        self.in_flight
    }

    /// Whether the run takes a further chunk from the source.
    pub fn wants_chunk(&self) -> (b: bool)
        ensures
            b == can_admit(self@),
    {
        self.failure.is_none() && !self.source_done && self.in_flight < MAX_CONCURRENT_CHUNKS
    }

    /// Offers the next chunk result of the source.
    pub fn offer(
        &mut self,
        chunk: Result<Vec<(u32, Block)>, BlockProcessingError<F, T, S>>,
    ) -> (res: Admission<F, T, S>)
        ensures
            final(self)@ == apply(old(self)@, IngestionEvent::Offered(chunk)),
            res == admission(old(self)@, chunk),
            final(self)@.in_flight <= MAX_CONCURRENT_CHUNKS,
    {
        proof {
            use_type_invariant(&*self);
        }
        if !self.wants_chunk() {
            return Admission::Refused(chunk);
        }
        match chunk {
            Ok(blocks) => {
                self.in_flight = self.in_flight + 1;
                Admission::Admitted(blocks)
            },
            Err(e) => {
                self.failure = Some(e);
                Admission::Failed
            },
        }
    }

    /// Reports that the source has no further chunk.
    pub fn source_exhausted(&mut self)
        ensures
            final(self)@ == apply(old(self)@, IngestionEvent::SourceExhausted),
    {
        proof {
            use_type_invariant(&*self);
        }
        self.source_done = true;
    }

    /// Reports the end of an admitted chunk. With no chunk in flight the
    /// report answers nothing and is ignored.
    pub fn chunk_finished(&mut self, result: Result<(), BlockProcessingError<F, T, S>>)
        ensures
            final(self)@ == apply(old(self)@, IngestionEvent::ChunkFinished(result)),
            final(self)@.in_flight <= MAX_CONCURRENT_CHUNKS,
    {
        proof {
            use_type_invariant(&*self);
        }
        if self.in_flight == 0 {
            return ;
        }
        self.in_flight = self.in_flight - 1;
        if self.failure.is_none() {
            match result {
                Err(e) => {
                    self.failure = Some(e);
                },
                Ok(_) => {},
            }
        }
    }

    /// Whether the run has resolved.
    pub fn is_resolved(&self) -> (b: bool)
        ensures
            b == outcome(self@) is Some,
    {
        self.in_flight == 0 && (self.failure.is_some() || self.source_done)
    }

    /// The outcome of the run, or `None` while it has not resolved.
    pub fn into_outcome(self) -> (res: Option<Result<(), BlockProcessingError<F, T, S>>>)
        ensures
            res == outcome(self@),
    {
        if self.in_flight > 0 {
            return None;
        }
        match self.failure {
            Some(e) => Some(Err(e)),
            None => if self.source_done {
                Some(Ok(()))
            } else {
                None
            },
        }
    }
}

/// The outcome of a chunk from the results of its blocks, in the order in
/// which they were collected: the first failure, or success where none failed.
pub fn chunk_outcome<E>(results: Vec<Result<(), E>>) -> (res: Result<(), E>)
    ensures
        match res {
            Ok(_) => all_ok_before(results@, results@.len() as int),
            Err(err) => exists|k: int|
                0 <= k < results@.len() && results@[k] == Err::<(), E>(err) && all_ok_before(
                    results@,
                    k,
                ),
        },
{
    for r in it: results.into_iter()
        invariant
            it.seq() == results@,
            all_ok_before(results@, it.index() as int),
    {
        match r {
            Ok(_) => {},
            Err(e) => {
                return Err(e);
            },
        }
    }
    Ok(())
}

} // verus!
