use vstd::prelude::*;
use std::collections::VecDeque;
use crate::errors::{
    TestKitError, TestKitErrorView, result_consumed_error, result_out_of_scope_error,
    client_only_error,
};

verus! {

/// What a record buffer holds.
///
/// `R` stands for a record, `S` for the summary of the query that produced
/// the records and `Q` for that query with its parameters.
pub enum RecordBufferView<R, S, Q> {
    AutoCommit {
        records: Seq<Result<R, TestKitError>>,
        summary: Option<S>,
        query: Q,
        consumed: bool,
    },
    Transaction,
}

/// The records of a result that the session no longer streams.
///
/// The result of an auto-commit query is buffered when the session moves on
/// to another request; the result of a query in a transaction becomes out of
/// scope when its transaction ends.
pub enum RecordBuffer<R, S, Q> {
    AutoCommit {
        records: VecDeque<Result<R, TestKitError>>,
        summary: Option<S>,
        query: Q,
        consumed: bool,
    },
    Transaction,
}

impl<R, S, Q> View for RecordBuffer<R, S, Q> {
    type V = RecordBufferView<R, S, Q>;

    open spec fn view(&self) -> RecordBufferView<R, S, Q> {
        match self {
            RecordBuffer::AutoCommit { records, summary, query, consumed } =>
                RecordBufferView::AutoCommit {
                    records: records@,
                    summary: *summary,
                    query: *query,
                    consumed: *consumed,
                },
            RecordBuffer::Transaction => RecordBufferView::Transaction,
        }
    }
}

/// The first failure among `records`, front first.
pub open spec fn first_error<R>(records: Seq<Result<R, TestKitError>>) -> Option<TestKitError>
    decreases records.len(),
{
    if records.len() == 0 {
        None
    } else {
        match records[0] {
            Err(e) => Some(e),
            Ok(_) => first_error(records.drop_first()),
        }
    }
}

/// What is left of `records` once the buffered records are dropped: the
/// first failure alone, or nothing.
pub open spec fn records_after_drop<R>(records: Seq<Result<R, TestKitError>>) -> Seq<
    Result<R, TestKitError>,
> {
    match first_error(records) {
        Some(e) => seq![Err(e)],
        None => Seq::empty(),
    }
}

/// The error for a result whose query failed before its summary came.
pub open spec fn failed_stream_error() -> TestKitErrorView {
    TestKitErrorView::BackendError { msg: "cannot receive summary of a failed record stream"@ }
}

/// The error for a result whose transaction has been closed.
pub open spec fn out_of_scope_view() -> TestKitErrorView {
    client_only_error(
        "ResultOutOfScope"@,
        "The record stream's transaction has been closed"@,
        false,
    )
}

/// The error for a result that has been consumed.
pub open spec fn consumed_view() -> TestKitErrorView {
    client_only_error("ResultConsumed"@, "The record stream has been consumed"@, false)
}

/// A result with its error taken by its view.
pub open spec fn result_view<T>(r: Result<T, TestKitError>) -> Result<T, TestKitErrorView> {
    match r {
        Ok(t) => Ok(t),
        Err(e) => Err(e@),
    }
}

/// The buffer with its records replaced.
pub open spec fn with_records<R, S, Q>(
    b: RecordBufferView<R, S, Q>,
    new_records: Seq<Result<R, TestKitError>>,
) -> RecordBufferView<R, S, Q> {
    match b {
        RecordBufferView::AutoCommit { summary, query, consumed, .. } =>
            RecordBufferView::AutoCommit { records: new_records, summary, query, consumed },
        RecordBufferView::Transaction => b,
    }
}

/// The buffer marked consumed.
pub open spec fn marked_consumed<R, S, Q>(b: RecordBufferView<R, S, Q>) -> RecordBufferView<R, S, Q> {
    match b {
        RecordBufferView::AutoCommit { records, summary, query, .. } =>
            RecordBufferView::AutoCommit { records, summary, query, consumed: true },
        RecordBufferView::Transaction => b,
    }
}

/// Whether the buffer gives out no more records: its transaction ended or
/// it has been consumed.
pub open spec fn is_finished<R, S, Q>(b: RecordBufferView<R, S, Q>) -> bool {
    match b {
        RecordBufferView::AutoCommit { consumed, .. } => consumed,
        RecordBufferView::Transaction => true,
    }
}

/// What asking a buffer for its next record does: the buffer afterwards,
/// and the answer.
pub open spec fn next_step<R, S, Q>(b: RecordBufferView<R, S, Q>) -> (
    RecordBufferView<R, S, Q>,
    Result<Option<R>, TestKitErrorView>,
) {
    match b {
        RecordBufferView::Transaction => (b, Err(out_of_scope_view())),
        RecordBufferView::AutoCommit { records, consumed, .. } => {
            if consumed {
                (b, Err(consumed_view()))
            } else if records.len() == 0 {
                (b, Ok(None))
            } else {
                (
                    with_records(b, records.drop_first()),
                    match records[0] {
                        Ok(r) => Ok(Some(r)),
                        Err(e) => Err(e@),
                    },
                )
            }
        },
    }
}

/// Why a request for the single record of a result failed, with the error
/// taken by its view.
pub enum SingleRecordErrorView {
    NoRecords,
    TooManyRecords,
    Failed(TestKitErrorView),
}

/// What asking a buffer for its single record does: the buffer afterwards,
/// and the answer.
pub open spec fn single_step<R, S, Q>(b: RecordBufferView<R, S, Q>) -> (
    RecordBufferView<R, S, Q>,
    Result<R, SingleRecordErrorView>,
) {
    match b {
        RecordBufferView::Transaction => (b, Err(SingleRecordErrorView::Failed(out_of_scope_view()))),
        RecordBufferView::AutoCommit { records, consumed, .. } => {
            if consumed {
                (b, Err(SingleRecordErrorView::Failed(consumed_view())))
            } else if records.len() == 0 {
                (marked_consumed(b), Err(SingleRecordErrorView::NoRecords))
            } else {
                let rest = records.drop_first();
                match records[0] {
                    Err(e) => (
                        marked_consumed(with_records(b, rest)),
                        Err(SingleRecordErrorView::Failed(e@)),
                    ),
                    Ok(r) => if rest.len() == 0 {
                        (marked_consumed(with_records(b, rest)), Ok(r))
                    } else {
                        (
                            marked_consumed(with_records(b, records_after_drop(rest))),
                            match first_error(rest) {
                                Some(e) => Err(SingleRecordErrorView::Failed(e@)),
                                None => Err(SingleRecordErrorView::TooManyRecords),
                            },
                        )
                    },
                }
            }
        },
    }
}

/// The buffer after a request for the summary of its result.
pub open spec fn consume_state<R, S, Q>(b: RecordBufferView<R, S, Q>) -> RecordBufferView<R, S, Q> {
    match b {
        RecordBufferView::Transaction => b,
        RecordBufferView::AutoCommit { records, .. } =>
            marked_consumed(with_records(b, records_after_drop(records))),
    }
}

/// Whether `res` is what a request for the summary of the result buffered
/// in `b` answers: the out-of-scope error once its transaction ended; else
/// the first buffered failure; else, without a summary, the error for a
/// failed stream; else a clone of the summary and of the query.
pub open spec fn consume_answers<R, S: Clone, Q: Clone>(
    b: RecordBufferView<R, S, Q>,
    res: Result<(S, Q), TestKitError>,
) -> bool {
    match b {
        RecordBufferView::Transaction => res matches Err(e) && e@ == out_of_scope_view(),
        RecordBufferView::AutoCommit { records, summary, query, .. } => match first_error(records) {
            Some(e) => res == Err::<(S, Q), TestKitError>(e),
            None => match summary {
                None => res matches Err(e) && e@ == failed_stream_error(),
                Some(s) => res matches Ok((s2, q2)) && cloned(s, s2) && cloned(query, q2),
            },
        },
    }
}

/// The buffer after the records and the summary a stream yielded were put
/// into it: the records go after those already there.
pub open spec fn stream_buffered<R, S, Q>(
    b: RecordBufferView<R, S, Q>,
    streamed: Seq<Result<R, TestKitError>>,
    stream_summary: Option<S>,
) -> RecordBufferView<R, S, Q> {
    match b {
        RecordBufferView::AutoCommit { records, query, consumed, .. } =>
            RecordBufferView::AutoCommit {
                records: records + streamed,
                summary: stream_summary,
                query,
                consumed,
            },
        RecordBufferView::Transaction => b,
    }
}

/// The buffer after consuming its stream gave `outcome`: the summary is
/// kept, or the failure is buffered as the last record.
pub open spec fn stream_consumed<R, S, Q>(
    b: RecordBufferView<R, S, Q>,
    outcome: Result<Option<S>, TestKitError>,
) -> RecordBufferView<R, S, Q> {
    match b {
        RecordBufferView::AutoCommit { records, summary, query, consumed } => match outcome {
            Ok(s) => RecordBufferView::AutoCommit { records, summary: s, query, consumed },
            Err(e) => RecordBufferView::AutoCommit {
                records: records.push(Err(e)),
                summary,
                query,
                consumed,
            },
        },
        RecordBufferView::Transaction => b,
    }
}

/// The view of an answer to a request for the single record.
pub open spec fn single_view<R>(r: Result<R, SingleRecordError>) -> Result<R, SingleRecordErrorView> {
    match r {
        Ok(x) => Ok(x),
        Err(SingleRecordError::NoRecords) => Err(SingleRecordErrorView::NoRecords),
        Err(SingleRecordError::TooManyRecords) => Err(SingleRecordErrorView::TooManyRecords),
        Err(SingleRecordError::Failed(e)) => Err(SingleRecordErrorView::Failed(e@)),
    }
}

/// The buffer after `n` requests for its next record.
pub open spec fn after_next_n<R, S, Q>(b: RecordBufferView<R, S, Q>, n: nat) -> RecordBufferView<
    R,
    S,
    Q,
>
    decreases n,
{
    if n == 0 {
        b
    } else {
        next_step(after_next_n(b, (n - 1) as nat)).0
    }
}

/// The records a buffer holds (none once its transaction has ended).
pub open spec fn buffered<R, S, Q>(b: RecordBufferView<R, S, Q>) -> Seq<Result<R, TestKitError>> {
    match b {
        RecordBufferView::AutoCommit { records, .. } => records,
        RecordBufferView::Transaction => Seq::empty(),
    }
}

/// Records come out of a buffer in the order they went in: the `i`-th
/// request for the next record of a buffer that has not been consumed gives
/// its `i`-th record (or that record's failure), and once all are given out
/// the answer is `None`.
pub proof fn lemma_next_reads_records_in_order<R, S, Q>(b: RecordBufferView<R, S, Q>, i: nat)
    requires
        b is AutoCommit,
        !is_finished(b),
        i <= buffered(b).len(),
    ensures
        after_next_n(b, i) == with_records(b, buffered(b).skip(i as int)),
        i < buffered(b).len() ==> next_step(after_next_n(b, i)).1 == match buffered(b)[i as int] {
            Ok(r) => Ok::<Option<R>, TestKitErrorView>(Some(r)),
            Err(e) => Err(e@),
        },
        i == buffered(b).len() ==> next_step(after_next_n(b, i)).1 == Ok::<
            Option<R>,
            TestKitErrorView,
        >(None),
    decreases i,
{
    if i == 0 {
        assert(buffered(b).skip(0) =~= buffered(b));
    } else {
        lemma_next_reads_records_in_order(b, (i - 1) as nat);
        assert(buffered(b).skip(i - 1).drop_first() =~= buffered(b).skip(i as int));
    }
}

/// A buffer whose transaction has ended, or that has been consumed, stays as
/// it is and answers every request for a record with an error: the
/// out-of-scope error or the consumed error.
pub proof fn lemma_finished_buffer_stays<R, S, Q>(b: RecordBufferView<R, S, Q>)
    requires
        is_finished(b),
    ensures
        next_step(b).0 == b,
        single_step(b).0 == b,
        b is Transaction ==> next_step(b).1 == Err::<Option<R>, TestKitErrorView>(out_of_scope_view()),
        b is Transaction ==> single_step(b).1 == Err::<R, SingleRecordErrorView>(
            SingleRecordErrorView::Failed(out_of_scope_view()),
        ),
        b is AutoCommit ==> next_step(b).1 == Err::<Option<R>, TestKitErrorView>(consumed_view()),
        b is AutoCommit ==> single_step(b).1 == Err::<R, SingleRecordErrorView>(
            SingleRecordErrorView::Failed(consumed_view()),
        ),
{
}

/// Asking for the single record or for the summary consumes a buffer.
pub proof fn lemma_single_and_consume_finish<R, S, Q>(b: RecordBufferView<R, S, Q>)
    ensures
        is_finished(single_step(b).0),
        is_finished(consume_state(b)),
{
}

/// Asking for the summary twice answers the same: the buffer does not change
/// the second time, and the failure it reports (if any) stays the same.
pub proof fn lemma_consume_twice<R, S, Q>(b: RecordBufferView<R, S, Q>)
    ensures
        consume_state(consume_state(b)) == consume_state(b),
        first_error(buffered(consume_state(b))) == first_error(buffered(b)),
{
    let r = buffered(b);
    match first_error(r) {
        Some(e) => {
            let one = seq![Err::<R, TestKitError>(e)];
            assert(one.drop_first() =~= Seq::<Result<R, TestKitError>>::empty());
            assert(first_error(one) == Some(e));
        },
        None => {
            assert(first_error(Seq::<Result<R, TestKitError>>::empty()) is None);
        },
    }
}

/// The answer to a request for the next record of a result that is still
/// streamed, given what its stream yields next.
pub open spec fn streamed_answer<R>(read: Option<Result<R, TestKitError>>) -> Result<
    Option<R>,
    TestKitErrorView,
> {
    match read {
        None => Ok(None),
        Some(Ok(r)) => Ok(Some(r)),
        Some(Err(e)) => Err(e@),
    }
}

/// The answer to a request for the next record of a result that is still
/// streamed, given what its stream yields next.
pub fn stream_read<R>(read: Option<Result<R, TestKitError>>) -> (res: Result<Option<R>, TestKitError>)
    ensures
        result_view(res) == streamed_answer(read),
        match read {
            None => res == Ok::<Option<R>, TestKitError>(None),
            Some(Ok(r)) => res == Ok::<Option<R>, TestKitError>(Some(r)),
            Some(Err(e)) => res == Err::<Option<R>, TestKitError>(e),
        },
{
    match read {
        None => Ok(None),
        Some(Ok(r)) => Ok(Some(r)),
        Some(Err(e)) => Err(e),
    }
}

/// Reading a result from its buffer answers as reading it from its stream
/// would have: once the records `streamed` and the summary a stream yielded
/// are put into a new buffer of an auto-commit result, the `i`-th request
/// for the next record answers what the stream's `i`-th read answers, then
/// `None`; and where no record failed, the summary request then hands out
/// the stream's summary with the query.
pub proof fn lemma_buffered_reads_match_streamed_reads<R, S: Clone, Q: Clone>(
    query: Q,
    streamed: Seq<Result<R, TestKitError>>,
    stream_summary: Option<S>,
    i: nat,
)
    requires
        i <= streamed.len(),
    ensures
        ({
            let b = stream_buffered(
                RecordBufferView::<R, S, Q>::AutoCommit {
                    records: Seq::empty(),
                    summary: None,
                    query,
                    consumed: false,
                },
                streamed,
                stream_summary,
            );
            &&& i < streamed.len() ==> next_step(after_next_n(b, i)).1 == streamed_answer(
                Some(streamed[i as int]),
            )
            &&& i == streamed.len() ==> next_step(after_next_n(b, i)).1 == streamed_answer::<R>(
                None,
            )
            &&& i == streamed.len() ==> after_next_n(b, i) == (RecordBufferView::<R, S, Q>::AutoCommit {
                records: Seq::empty(),
                summary: stream_summary,
                query,
                consumed: false,
            })
        }),
{
    let b = stream_buffered(
        RecordBufferView::<R, S, Q>::AutoCommit {
            records: Seq::empty(),
            summary: None,
            query,
            consumed: false,
        },
        streamed,
        stream_summary,
    );
    assert(buffered(b) =~= streamed);
    lemma_next_reads_records_in_order(b, i);
    if i == streamed.len() {
        assert(streamed.skip(i as int) =~= Seq::<Result<R, TestKitError>>::empty());
    }
}

/// The summary request of a buffer whose records hold no failure and that
/// has a summary hands out clones of that summary and of the query.
pub proof fn lemma_summary_of_clean_buffer<R, S: Clone, Q: Clone>(
    query: Q,
    s: S,
    res: Result<(S, Q), TestKitError>,
)
    ensures
        consume_answers(
            RecordBufferView::<R, S, Q>::AutoCommit {
                records: Seq::empty(),
                summary: Some(s),
                query,
                consumed: false,
            },
            res,
        ) <==> (res matches Ok((s2, q2)) && cloned(s, s2) && cloned(query, q2)),
{
}

/// Asking a buffer for its summary twice answers alike: both answers fail,
/// with the same error (the very same where it is a buffered failure), or
/// both hand out clones of the same summary and query.
pub proof fn lemma_consume_twice_answers_alike<R, S: Clone, Q: Clone>(
    b: RecordBufferView<R, S, Q>,
    first: Result<(S, Q), TestKitError>,
    second: Result<(S, Q), TestKitError>,
)
    requires
        consume_answers(b, first),
        consume_answers(consume_state(b), second),
    ensures
        first is Ok <==> second is Ok,
        first matches Err(e1) ==> second matches Err(e2) && e1@ == e2@,
        first_error(buffered(b)) is Some ==> first == second,
        first matches Ok((s1, q1)) ==> second matches Ok((s2, q2)) && b matches RecordBufferView::AutoCommit {
            summary: Some(s),
            query,
            ..
        } && cloned(s, s1) && cloned(s, s2) && cloned(query, q1) && cloned(query, q2),
{
    lemma_consume_twice(b);
}

/// The single record of a result is given out exactly when the result
/// holds exactly one record, read without failure, and has not been
/// consumed; then it is that record. With two or more records the answer is
/// "too many records" exactly when none of them failed (else a failure);
/// with none, it is "no records".
pub proof fn lemma_single_gives_the_only_record<R, S, Q>(b: RecordBufferView<R, S, Q>)
    ensures
        single_step(b).1 is Ok <==> (b is AutoCommit && !is_finished(b) && buffered(b).len() == 1
            && buffered(b)[0] is Ok),
        single_step(b).1 is Ok ==> buffered(b)[0] == Ok::<R, TestKitError>(single_step(b).1->Ok_0),
        b is AutoCommit && !is_finished(b) && buffered(b).len() >= 2 ==> {
            &&& single_step(b).1 is Err
            &&& (single_step(b).1 == Err::<R, SingleRecordErrorView>(
                SingleRecordErrorView::TooManyRecords,
            ) <==> first_error(buffered(b)) is None)
        },
        b is AutoCommit && !is_finished(b) && buffered(b).len() == 0 ==> single_step(b).1 == Err::<
            R,
            SingleRecordErrorView,
        >(SingleRecordErrorView::NoRecords),
        is_finished(single_step(b).0),
{
    let r = buffered(b);
    if b is AutoCommit && !is_finished(b) && r.len() >= 1 {
        let rest = r.drop_first();
        if r[0] is Ok {
            assert(first_error(r) == first_error(rest));
        }
    }
}

/// A summary request hands out the summary only when the result's
/// transaction has not ended, no buffered record failed and the stream gave
/// a summary; a buffered failure is reported instead, the first one. Once
/// asked, the buffer is consumed and holds at most that failure.
pub proof fn lemma_consume_reports_summary_or_first_failure<R, S: Clone, Q: Clone>(
    b: RecordBufferView<R, S, Q>,
    res: Result<(S, Q), TestKitError>,
)
    requires
        consume_answers(b, res),
    ensures
        res is Ok <==> (b is AutoCommit && first_error(buffered(b)) is None
            && b->AutoCommit_summary is Some),
        b is AutoCommit && first_error(buffered(b)) is Some ==> res == Err::<(S, Q), TestKitError>(
            first_error(buffered(b))->0,
        ),
        is_finished(consume_state(b)),
        buffered(consume_state(b)).len() <= 1,
        buffered(consume_state(b)).len() == 1 ==> buffered(consume_state(b))[0] == Err::<
            R,
            TestKitError,
        >(first_error(buffered(b))->0),
{
}

/// Why a request for the single record of a result failed.
#[derive(Debug, PartialEq, Eq)]
pub enum SingleRecordError {
    /// The result held no record.
    NoRecords,
    /// The result held more than one record.
    TooManyRecords,
    /// Reading the records failed.
    Failed(TestKitError),
}

impl<R, S, Q> RecordBuffer<R, S, Q> {
    /// A buffer for the result of an auto-commit query, empty so far.
    pub fn new_auto_commit(query: Q) -> (b: Self)
        ensures
            b@ == (RecordBufferView::<R, S, Q>::AutoCommit {
                records: Seq::empty(),
                summary: None,
                query,
                consumed: false,
            }),
    {
        RecordBuffer::AutoCommit { records: VecDeque::new(), summary: None, query, consumed: false }
    }

    /// A buffer for a result whose transaction has ended.
    pub fn new_transaction() -> (b: Self)
        ensures
            b@ == RecordBufferView::<R, S, Q>::Transaction,
    {
        RecordBuffer::Transaction
    }

    /// The next buffered record.
    ///
    /// A buffer whose transaction has ended answers with the out-of-scope
    /// error, a consumed one with the consumed error; otherwise the front
    /// record leaves the buffer: `None` when there is none left, its failure
    /// when reading it failed.
    pub fn next(&mut self) -> (res: Result<Option<R>, TestKitError>)
        ensures
            (final(self)@, result_view(res)) == next_step(old(self)@),

    {
        match self {
            RecordBuffer::AutoCommit { records, consumed, .. } => {
                if *consumed {
                    Err(result_consumed_error())
                } else {
                    match records.pop_front() {
                        None => Ok(None),
                        Some(Ok(r)) => Ok(Some(r)),
                        Some(Err(e)) => Err(e),
                    }
                }
            },
            RecordBuffer::Transaction => Err(result_out_of_scope_error()),
        }
    }

    /// The one record of the result; the buffer is consumed afterwards.
    ///
    /// Fails when the result holds no record, or more than one (the others
    /// are dropped then, up to the first failure, which is reported in their
    /// place), or when its first record is a failure.
    pub fn single(&mut self) -> (res: Result<R, SingleRecordError>)
        ensures
            (final(self)@, single_view(res)) == single_step(old(self)@),

    {
        match self {
            RecordBuffer::AutoCommit { records, consumed, .. } => {
                if *consumed {
                    Err(SingleRecordError::Failed(result_consumed_error()))
                } else {
                    *consumed = true;
                    match records.pop_front() {
                        None => Err(SingleRecordError::NoRecords),
                        Some(Ok(record)) => {
                            if records.len() > 0 {
                                match Self::drop_buffered_records(records) {
                                    Err(e) => Err(SingleRecordError::Failed(e)),
                                    Ok(()) => Err(SingleRecordError::TooManyRecords),
                                }
                            } else {
                                Ok(record)
                            }
                        },
                        Some(Err(e)) => Err(SingleRecordError::Failed(e)),
                    }
                }
            },
            RecordBuffer::Transaction => Err(SingleRecordError::Failed(result_out_of_scope_error())),
        }
    }

    /// Appends the records and the summary that a stream yielded when the
    /// session moved on without reading them (only a buffer of an
    /// auto-commit result can hold them).
    pub fn buffer_record_stream(&mut self, streamed: Vec<Result<R, TestKitError>>, stream_summary: Option<S>)
        requires
            old(self)@ is AutoCommit,
        ensures
            final(self)@ == stream_buffered(old(self)@, streamed@, stream_summary),

    {
        match self {
            RecordBuffer::AutoCommit { records, summary, .. } => {
                let ghost start = records@;
                let ghost all = streamed@;
                let mut streamed = streamed;
                while streamed.len() > 0
                    invariant
                        start + all == records@ + streamed@,
                    decreases streamed.len(),
                {
                    let ghost before = streamed@;
                    let rec = streamed.remove(0);
                    records.push_back(rec);
                    assert(before =~= seq![rec] + streamed@);
                    assert(records@ + streamed@ =~= (records@.drop_last()) + before);
                }
                assert(streamed@ =~= Seq::<Result<R, TestKitError>>::empty());
                assert(records@ =~= start + all);
                *summary = stream_summary;
            },
            RecordBuffer::Transaction => {},
        }
    }

    /// Drops the buffered records up to the first failure. The failure, if
    /// there is one, stays buffered alone and is returned.
    pub fn drop_buffered_records(records: &mut VecDeque<Result<R, TestKitError>>) -> (res: Result<
        (),
        TestKitError,
    >)
        ensures
            final(records)@ == records_after_drop(old(records)@),
            match first_error(old(records)@) {
                Some(e) => res == Err::<(), TestKitError>(e),
                None => res is Ok,
            },
    {
        let ghost initial = records@;
        let mut found: Option<TestKitError> = None;
        while records.len() > 0
            invariant_except_break
                first_error(initial) == first_error(records@),
                found is None,
            ensures
                match found {
                    Some(e) => first_error(initial) == Some(e),
                    None => first_error(initial) is None && records@.len() == 0,
                },
            decreases records@.len(),
        {
            let ghost before = records@;
            match records.pop_front() {
                Some(Ok(_)) => {
                    assert(records@ == before.drop_first());
                },
                Some(Err(e)) => {
                    found = Some(e);
                    break;
                },
                None => {},
            }
        }
        match found {
            Some(e) => {
                records.clear();
                records.push_back(Err(e.clone()));
                assert(records@ =~= seq![Err::<R, TestKitError>(e)]);
                Err(e)
            },
            None => {
                assert(records@ =~= Seq::<Result<R, TestKitError>>::empty());
                Ok(())
            },
        }
    }
    /// Prepares to consume the stream of an auto-commit result that the
    /// session still reads: the buffered records are dropped up to the first
    /// failure. Returns whether the stream is to be consumed, which is when
    /// no failure was buffered.
    pub fn begin_consume_record_stream(&mut self) -> (consume_stream: bool)
        requires
            old(self)@ is AutoCommit,
        ensures
            final(self)@ == with_records(old(self)@, records_after_drop(buffered(old(self)@))),
            consume_stream == (first_error(buffered(old(self)@)) is None),

    {
        match self {
            RecordBuffer::AutoCommit { records, .. } => Self::drop_buffered_records(records).is_ok(),
            RecordBuffer::Transaction => false,
        }
    }

    /// Takes in what consuming the stream gave: its summary, or the failure,
    /// which is buffered as the last record.
    pub fn end_consume_record_stream(&mut self, outcome: Result<Option<S>, TestKitError>)
        requires
            old(self)@ is AutoCommit,
        ensures
            final(self)@ == stream_consumed(old(self)@, outcome),

    {
        match self {
            RecordBuffer::AutoCommit { records, summary, .. } => {
                match outcome {
                    Ok(s) => {
                        *summary = s;
                    },
                    Err(e) => {
                        records.push_back(Err(e));
                    },
                }
            },
            RecordBuffer::Transaction => {},
        }
    }
}

impl<R, S: Clone, Q: Clone> RecordBuffer<R, S, Q> {
    /// The summary of the result, with its query; the buffer is consumed
    /// afterwards and its records are dropped up to the first failure, which
    /// is reported instead. A result whose query failed before its summary
    /// came has no summary to give.
    pub fn consume(&mut self) -> (res: Result<(S, Q), TestKitError>)
        ensures
            final(self)@ == consume_state(old(self)@),
            consume_answers(old(self)@, res),
    {
        match self {
            RecordBuffer::AutoCommit { records, summary, consumed, query } => {
                *consumed = true;
                match Self::drop_buffered_records(records) {
                    Err(e) => Err(e),
                    Ok(()) => match summary {
                        None => Err(
                            TestKitError::backend_err_text(
                                "cannot receive summary of a failed record stream",
                            ),
                        ),
                        Some(s) => Ok((s.clone(), query.clone())),
                    },
                }
            },
            RecordBuffer::Transaction => Err(result_out_of_scope_error()),
        }
    }

}

} // verus!
