use vstd::prelude::*;
use crate::errors::{TestKitError, with_error_id};
use crate::ids::{BackendId, IdGenerator};
use crate::scope::{TransactionScope, StreamEntry};
use crate::session::{Session, Reply, DriverOutcome, known_after_outcome};
use crate::tracker::{TransactionFunctionStateTracker, TransactionFunctionError, TrackerView};

verus! {

/// A driver error, with the error the frontend sees for it.
pub struct DriverError<E> {
    pub error: E,
    pub reported: TestKitError,
}

/// Why reading the single record of a result failed inside a transaction
/// function.
pub enum SingleReadFailure<E> {
    /// The result held no record, or more than one.
    Missed(DriverError<E>),
    /// The driver failed to read.
    Failed(DriverError<E>),
}

/// `after` is the tracker `before` once the driver error `e` was reported
/// through it under the identifier `id`, and `res` is the reported error
/// with that identifier.
pub open spec fn reported_through<E>(
    before: TrackerView<E>,
    after: TrackerView<E>,
    e: DriverError<E>,
    id: BackendId,
    res: TestKitError,
) -> bool {
    &&& after.failed
    &&& after.errors == before.errors.insert(id, TransactionFunctionError::Neo4j(e.error))
    &&& res@ == with_error_id(e.reported@, id)
}

impl<R, S, Q> Session<R, S, Q> {
    /// Takes in a record read from a stream inside an attempt of a
    /// transaction function running as transaction `tx_id`: a driver failure
    /// fails the transaction and is reported through the attempt's tracker.
    pub fn attempt_record_read<E>(
        &mut self,
        tracker: &mut TransactionFunctionStateTracker<E>,
        generator: &mut IdGenerator,
        tx_id: BackendId,
        read: Option<Result<R, DriverError<E>>>,
    ) -> (res: Result<Option<R>, TestKitError>)
        requires
            old(generator)@ < usize::MAX,
        ensures
            final(self)@.holders == old(self)@.holders,
            match read {
                None => {
                    &&& res == Ok::<Option<R>, TestKitError>(None)
                    &&& final(self)@.known == old(self)@.known
                    &&& final(tracker)@ == old(tracker)@
                    &&& final(generator)@ == old(generator)@
                },
                Some(Ok(r)) => {
                    &&& res == Ok::<Option<R>, TestKitError>(Some(r))
                    &&& final(self)@.known == old(self)@.known
                    &&& final(tracker)@ == old(tracker)@
                    &&& final(generator)@ == old(generator)@
                },
                Some(Err(e)) => {
                    &&& final(self)@.known == known_after_outcome(
                        old(self)@.known,
                        tx_id,
                        DriverOutcome::Failed,
                    )
                    &&& final(generator)@ == old(generator)@ + 1
                    &&& res matches Err(r) && reported_through(
                        old(tracker)@,
                        final(tracker)@,
                        e,
                        old(generator)@ as BackendId,
                        r,
                    )
                },
            },
    {
        match read {
            None => Ok(None),
            Some(Ok(r)) => Ok(Some(r)),
            Some(Err(e)) => Err(self.attempt_failed(tracker, generator, tx_id, e.error, e.reported)),
        }
    }

    /// Takes in the single record read from a stream inside an attempt of a
    /// transaction function running as transaction `tx_id`. Either failure is
    /// reported through the attempt's tracker (which then counts the attempt
    /// as failed), but only a driver failure to read fails the transaction.
    pub fn attempt_single_read<E>(
        &mut self,
        tracker: &mut TransactionFunctionStateTracker<E>,
        generator: &mut IdGenerator,
        tx_id: BackendId,
        read: Result<R, SingleReadFailure<E>>,
    ) -> (res: Result<R, TestKitError>)
        requires
            old(generator)@ < usize::MAX,
        ensures
            final(self)@.holders == old(self)@.holders,
            match read {
                Ok(r) => {
                    &&& res == Ok::<R, TestKitError>(r)
                    &&& final(self)@.known == old(self)@.known
                    &&& final(tracker)@ == old(tracker)@
                    &&& final(generator)@ == old(generator)@
                },
                Err(SingleReadFailure::Missed(e)) => {
                    &&& final(self)@.known == known_after_outcome(
                        old(self)@.known,
                        tx_id,
                        DriverOutcome::Missed,
                    )
                    &&& final(generator)@ == old(generator)@ + 1
                    &&& res matches Err(r) && reported_through(
                        old(tracker)@,
                        final(tracker)@,
                        e,
                        old(generator)@ as BackendId,
                        r,
                    )
                },
                Err(SingleReadFailure::Failed(e)) => {
                    &&& final(self)@.known == known_after_outcome(
                        old(self)@.known,
                        tx_id,
                        DriverOutcome::Failed,
                    )
                    &&& final(generator)@ == old(generator)@ + 1
                    &&& res matches Err(r) && reported_through(
                        old(tracker)@,
                        final(tracker)@,
                        e,
                        old(generator)@ as BackendId,
                        r,
                    )
                },
            },
    {
        match read {
            Ok(r) => Ok(r),
            Err(SingleReadFailure::Missed(e)) => Err(
                tracker.wrap_neo4j_error(generator, e.error, e.reported),
            ),
            Err(SingleReadFailure::Failed(e)) => Err(
                self.attempt_failed(tracker, generator, tx_id, e.error, e.reported),
            ),
        }
    }

    /// Takes in how running a query went inside an attempt of a transaction
    /// function whose results are in `scope`: a query that succeeded gets
    /// its result, under a fresh identifier; a driver failure fails the
    /// transaction and is reported through the attempt's tracker.
    pub fn attempt_query_outcome<E>(
        &mut self,
        scope: &mut TransactionScope<S, Q>,
        tracker: &mut TransactionFunctionStateTracker<E>,
        generator: &mut IdGenerator,
        outcome: Result<Q, DriverError<E>>,
    ) -> (res: Result<BackendId, TestKitError>)
        requires
            old(generator)@ < usize::MAX,
            crate::scope::scope_ids_below(old(scope)@, old(generator)@),
        ensures
            final(scope)@.id == old(scope)@.id,
            final(self)@.holders == old(self)@.holders,
            final(generator)@ == old(generator)@ + 1,
            crate::scope::scope_ids_below(final(scope)@, final(generator)@),
            match outcome {
                Ok(query) => {
                    &&& res == Ok::<BackendId, TestKitError>(old(generator)@ as BackendId)
                    &&& final(scope)@.streams == old(scope)@.streams.insert(
                        old(generator)@ as BackendId,
                        StreamEntry { open: true, summary: None, query },
                    )
                    &&& final(self)@.known == old(self)@.known
                    &&& final(tracker)@ == old(tracker)@
                },
                Err(e) => {
                    &&& final(scope)@.streams == old(scope)@.streams
                    &&& final(self)@.known == known_after_outcome(
                        old(self)@.known,
                        old(scope)@.id,
                        DriverOutcome::Failed,
                    )
                    &&& res matches Err(r) && reported_through(
                        old(tracker)@,
                        final(tracker)@,
                        e,
                        old(generator)@ as BackendId,
                        r,
                    )
                },
            },
    {
        match outcome {
            Ok(query) => self.query_outcome(scope, generator, Ok(query)),
            Err(e) => {
                let tx_id = scope.id();
                Err(self.attempt_failed(tracker, generator, tx_id, e.error, e.reported))
            },
        }
    }
}

impl<R, S: Clone, Q: Clone> Session<R, S, Q> {
    /// Takes in what consuming the stream of the result `result_id` gave
    /// inside an attempt of a transaction function, and answers the request
    /// for its summary: the summary is kept and handed out; a driver failure
    /// fails the transaction, is reported through the attempt's tracker, and
    /// is the answer. Either way the stream is gone.
    pub fn attempt_stream_consumed<E>(
        &mut self,
        scope: &mut TransactionScope<S, Q>,
        tracker: &mut TransactionFunctionStateTracker<E>,
        generator: &mut IdGenerator,
        result_id: BackendId,
        outcome: Result<S, DriverError<E>>,
    ) -> (reply: Reply<R, S, Q>)
        requires
            old(generator)@ < usize::MAX,
            old(scope)@.streams.contains_key(result_id),
        ensures
            final(scope)@.id == old(scope)@.id,
            final(self)@.holders == old(self)@.holders,
            match outcome {
                Ok(summary) => {
                    &&& final(scope)@.streams == old(scope)@.streams.insert(
                        result_id,
                        StreamEntry {
                            open: false,
                            summary: Some(summary),
                            query: old(scope)@.streams[result_id].query,
                        },
                    )
                    &&& final(self)@.known == old(self)@.known
                    &&& final(tracker)@ == old(tracker)@
                    &&& final(generator)@ == old(generator)@
                    &&& reply matches Reply::Summary(Ok((s, q))) && cloned(summary, s) && cloned(
                        old(scope)@.streams[result_id].query,
                        q,
                    )
                },
                Err(e) => {
                    &&& final(scope)@.streams == old(scope)@.streams.insert(
                        result_id,
                        StreamEntry {
                            open: false,
                            summary: None,
                            query: old(scope)@.streams[result_id].query,
                        },
                    )
                    &&& final(self)@.known == known_after_outcome(
                        old(self)@.known,
                        old(scope)@.id,
                        DriverOutcome::Failed,
                    )
                    &&& final(generator)@ == old(generator)@ + 1
                    &&& reply matches Reply::Summary(Err(r)) && reported_through(
                        old(tracker)@,
                        final(tracker)@,
                        e,
                        old(generator)@ as BackendId,
                        r,
                    )
                },
            },
    {
        match outcome {
            Ok(summary) => self.stream_consumed(scope, result_id, Ok(summary)),
            Err(e) => {
                let reported = tracker.wrap_neo4j_error(generator, e.error, e.reported);
                self.stream_consumed(scope, result_id, Err(reported))
            },
        }
    }
}

} // verus!
