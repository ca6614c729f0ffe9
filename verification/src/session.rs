use vstd::prelude::*;
use std::collections::HashMap;
use crate::errors::{
    TestKitError, TestKitErrorView, client_only_error, decimal, text_with_id,
    transaction_out_of_scope_error,
};
use crate::ids::{BackendId, IdGenerator};
use crate::tracker::{TransactionFunctionStateTracker, TransactionFunctionError};
use crate::errors::with_error_id;
use crate::scope::{TransactionScope, StreamEntry};
use crate::record_buffer::{
    RecordBuffer, RecordBufferView, SingleRecordError, next_step, single_step, consume_state,
    result_view, single_view, first_error, buffered, out_of_scope_view,
    consume_answers, SingleRecordErrorView, stream_buffered, lemma_finished_buffer_stays, stream_consumed, with_records,
    records_after_drop,
};

verus! {

broadcast use vstd::std_specs::hash::group_hash_axioms;

/// Whether a transaction the session started has failed.
#[derive(Debug, Clone, Copy, PartialEq, Eq, Structural)]
pub enum TxFailState {
    Failed,
    Passed,
}

/// Which error the frontend refers to when it asks a transaction function
/// to roll back and retry.
#[derive(Debug, Clone, Copy, PartialEq, Eq, Structural)]
pub enum BackendErrorId {
    /// An error the backend reported, by its identifier.
    BackendError(BackendId),
    /// An error raised by the frontend itself.
    ClientError,
}

/// A request of the frontend to a session, as far as the session logic
/// reads it: its kind and the identifiers it names. (The query texts,
/// parameters, metadata and timeouts are carried by the caller.)
#[derive(Debug, Clone, Copy, PartialEq, Eq, Structural)]
pub enum Command {
    AutoCommit,
    BeginTransaction,
    TransactionFunction,
    RetryablePositive,
    RetryableNegative { error_id: BackendErrorId },
    TransactionRun { transaction_id: BackendId },
    CommitTransaction { transaction_id: BackendId },
    RollbackTransaction { transaction_id: BackendId },
    CloseTransaction { transaction_id: BackendId },
    ResultNext { result_id: BackendId },
    ResultSingle { result_id: BackendId },
    ResultConsume { result_id: BackendId },
    LastBookmarks,
    Close,
}

/// An answer of the session that the library computes.
#[derive(Debug)]
pub enum Reply<R, S, Q> {
    /// The command is answered with an error.
    Error { to: Command, error: TestKitError },
    /// The command (which has nothing to give back) succeeded.
    Done { to: Command },
    /// The answer to a request for the next record of a result.
    Record(Result<Option<R>, TestKitError>),
    /// The answer to a request for the single record of a result.
    Single(Result<R, SingleRecordError>),
    /// The answer to a request for the summary of a result, with its query.
    Summary(Result<(S, Q), TestKitError>),
}

/// The error of a transaction that has been closed.
pub open spec fn tx_out_of_scope_view() -> TestKitErrorView {
    client_only_error("TransactionOutOfScope"@, "The transaction has been closed"@, false)
}

/// The error of a session asked to start a transaction while it runs one.
pub open spec fn session_busy_view() -> TestKitErrorView {
    client_only_error("SessionError"@, "Session is already executing a transaction"@, false)
}

/// The error for a transaction the session does not know.
pub open spec fn tx_not_found_view() -> TestKitErrorView {
    TestKitErrorView::BackendError { msg: "transaction not found"@ }
}

/// The error for a result the session does not know.
pub open spec fn unknown_result_view(id: BackendId) -> TestKitErrorView {
    TestKitErrorView::BackendError {
        msg: "unknown result id "@ + decimal(id as nat) + " in session"@,
    }
}

/// Whether the reply is an answer to `command` with an error whose view is `e`.
pub open spec fn is_error_reply<R, S, Q>(
    reply: Reply<R, S, Q>,
    command: Command,
    e: TestKitErrorView,
) -> bool {
    reply matches Reply::Error { to, error } && to == command && error@ == e
}

/// What the session holds: a buffer for every result it no longer streams,
/// and the state of every transaction it started.
pub struct SessionView<R, S, Q> {
    pub holders: Map<BackendId, RecordBufferView<R, S, Q>>,
    pub known: Map<BackendId, TxFailState>,
}

/// The state a session keeps across the requests of the frontend.
pub struct Session<R, S, Q> {
    record_holders: HashMap<BackendId, RecordBuffer<R, S, Q>>,
    known_transactions: HashMap<BackendId, TxFailState>,
}

impl<R, S, Q> View for Session<R, S, Q> {
    type V = SessionView<R, S, Q>;

    closed spec fn view(&self) -> SessionView<R, S, Q> {
        SessionView {
            holders: self.record_holders@.map_values(|b: RecordBuffer<R, S, Q>| b@),
            known: self.known_transactions@,
        }
    }
}

/// Every identifier the session knows is below `bound`.
pub open spec fn session_ids_below<R, S, Q>(s: SessionView<R, S, Q>, bound: nat) -> bool {
    &&& forall|i: BackendId| #[trigger] s.holders.contains_key(i) ==> i < bound
    &&& forall|i: BackendId| #[trigger] s.known.contains_key(i) ==> i < bound
}

/// What a request about a transaction answers when that transaction is not
/// the one the session runs: `Ok` where it succeeds, else the error.
pub open spec fn default_outcome(
    known: Map<BackendId, TxFailState>,
    command: Command,
) -> Result<(), TestKitErrorView> {
    match command {
        Command::TransactionRun { transaction_id } | Command::CommitTransaction {
            transaction_id,
        } => if known.contains_key(transaction_id) {
            Err(tx_out_of_scope_view())
        } else {
            Err(tx_not_found_view())
        },
        Command::RollbackTransaction { transaction_id } => if !known.contains_key(
            transaction_id,
        ) {
            Err(tx_not_found_view())
        } else if known[transaction_id] == TxFailState::Failed {
            Ok(())
        } else {
            Err(tx_out_of_scope_view())
        },
        Command::CloseTransaction { transaction_id } => if known.contains_key(transaction_id) {
            Ok(())
        } else {
            Err(tx_not_found_view())
        },
        _ => Err(tx_not_found_view()),
    }
}

/// Whether the command is about a transaction by its identifier.
pub open spec fn is_transaction_command(command: Command) -> bool {
    ||| command is TransactionRun
    ||| command is CommitTransaction
    ||| command is RollbackTransaction
    ||| command is CloseTransaction
}

/// Whether the command is about a result by its identifier.
pub open spec fn is_result_command(command: Command) -> bool {
    ||| command is ResultNext
    ||| command is ResultSingle
    ||| command is ResultConsume
}

/// The result a result command names.
pub open spec fn result_id_of(command: Command) -> BackendId {
    match command {
        Command::ResultNext { result_id } => result_id,
        Command::ResultSingle { result_id } => result_id,
        Command::ResultConsume { result_id } => result_id,
        _ => 0,
    }
}

/// The reply, read as a success or an error (by view).
pub open spec fn reply_outcome<R, S, Q>(reply: Reply<R, S, Q>) -> Result<(), TestKitErrorView> {
    match reply {
        Reply::Error { error, .. } => Err(error@),
        _ => Ok(()),
    }
}

/// Whether `reply` answers `command` with the error `e`: in the form a
/// result request is answered in, or as an error answer to the command.
pub open spec fn answers_with_error<R, S, Q>(
    command: Command,
    e: TestKitError,
    reply: Reply<R, S, Q>,
) -> bool {
    match command {
        Command::ResultNext { .. } => reply == Reply::<R, S, Q>::Record(Err(e)),
        Command::ResultSingle { .. } => reply == Reply::<R, S, Q>::Single(
            Err(SingleRecordError::Failed(e)),
        ),
        Command::ResultConsume { .. } => reply == Reply::<R, S, Q>::Summary(Err(e)),
        _ => reply == Reply::<R, S, Q>::Error { to: command, error: e },
    }
}

/// Whether `reply` answers `command` in the form `command` is answered in:
/// a record request with a record answer, a single-record request with a
/// single-record answer, a summary request with a summary answer, any other
/// request with an answer addressed to it.
pub open spec fn answers_request<R, S, Q>(command: Command, reply: Reply<R, S, Q>) -> bool {
    match reply {
        Reply::Error { to, .. } => to == command && !is_result_command(command),
        Reply::Done { to } => to == command && !is_result_command(command),
        Reply::Record(_) => command is ResultNext,
        Reply::Single(_) => command is ResultSingle,
        Reply::Summary(_) => command is ResultConsume,
    }
}

/// Every answer the session computes for a request answers that request in
/// its own form: an error answer, an answer from the buffers, and an
/// answer to a request about another transaction.
pub proof fn lemma_answers_fit_their_request<R, S: Clone, Q: Clone>(
    holders: Map<BackendId, RecordBufferView<R, S, Q>>,
    command: Command,
    e: TestKitError,
    reply: Reply<R, S, Q>,
)
    ensures
        answers_with_error(command, e, reply) ==> answers_request(command, reply),
        is_result_command(command) && answers_from_holders(holders, command, reply)
            ==> answers_request(command, reply),
        is_transaction_command(command) && ((reply matches Reply::Error { to, .. } && to == command)
            || (reply matches Reply::Done { to } && to == command)) ==> answers_request(
            command,
            reply,
        ),
{
}

/// The answer to `command` with the error `error`.
pub fn reply_error<R, S, Q>(command: Command, error: TestKitError) -> (reply: Reply<R, S, Q>)
    ensures
        answers_with_error(command, error, reply),
        answers_request(command, reply),
{
    match command {
        Command::ResultNext { .. } => Reply::Record(Err(error)),
        Command::ResultSingle { .. } => Reply::Single(Err(SingleRecordError::Failed(error))),
        Command::ResultConsume { .. } => Reply::Summary(Err(error)),
        _ => Reply::Error { to: command, error },
    }
}

impl<R, S, Q> Session<R, S, Q> {
    /// A session that holds no result and knows no transaction.
    pub fn new() -> (s: Self)
        ensures
            s@.holders == Map::<BackendId, RecordBufferView<R, S, Q>>::empty(),
            s@.known == Map::<BackendId, TxFailState>::empty(),
    {
        let s = Session { record_holders: HashMap::new(), known_transactions: HashMap::new() };
        assert(s@.holders =~= Map::<BackendId, RecordBufferView<R, S, Q>>::empty());
        s
    }

    /// The state of the transaction `id`, if the session started it.
    pub fn transaction_state(&self, id: BackendId) -> (st: Option<TxFailState>)
        ensures
            self@.known.contains_key(id) ==> st == Some(self@.known[id]),
            !self@.known.contains_key(id) ==> st is None,
    {
        match self.known_transactions.get(&id) {
            Some(st) => Some(*st),
            None => None,
        }
    }

    /// The error for a request about the transaction `transaction_id`,
    /// which is not the one the session runs.
    pub fn scope_error(&self, transaction_id: BackendId) -> (e: TestKitError)
        ensures
            self@.known.contains_key(transaction_id) ==> e@ == tx_out_of_scope_view(),
            !self@.known.contains_key(transaction_id) ==> e@ == tx_not_found_view(),
    {
        match self.known_transactions.get(&transaction_id) {
            Some(_) => transaction_out_of_scope_error(),
            None => TestKitError::backend_err_text("transaction not found"),
        }
    }

    /// The answer to a request about a transaction that is not the one the
    /// session runs: running a query in it or committing it fails; rolling
    /// it back succeeds only where it failed; closing it succeeds where the
    /// session knows it.
    pub fn default_response(&self, command: Command) -> (reply: Reply<R, S, Q>)
        requires
            is_transaction_command(command),
        ensures
            reply is Error || reply is Done,
            answers_request(command, reply),
            reply matches Reply::Error { to, .. } ==> to == command,
            reply matches Reply::Done { to } ==> to == command,
            reply_outcome(reply) == default_outcome(self@.known, command),
    {
        match command {
            Command::TransactionRun { transaction_id } | Command::CommitTransaction {
                transaction_id,
            } => Reply::Error { to: command, error: self.scope_error(transaction_id) },
            Command::RollbackTransaction { transaction_id } => {
                match self.known_transactions.get(&transaction_id) {
                    Some(TxFailState::Passed) => Reply::Error {
                        to: command,
                        error: transaction_out_of_scope_error(),
                    },
                    Some(TxFailState::Failed) => Reply::Done { to: command },
                    None => Reply::Error {
                        to: command,
                        error: TestKitError::backend_err_text("transaction not found"),
                    },
                }
            },
            Command::CloseTransaction { transaction_id } => {
                match self.known_transactions.get(&transaction_id) {
                    Some(_) => Reply::Done { to: command },
                    None => Reply::Error {
                        to: command,
                        error: TestKitError::backend_err_text("transaction not found"),
                    },
                }
            },
            _ => Reply::Error {
                to: command,
                error: TestKitError::backend_err_text("transaction not found"),
            },
        }
    }
}

/// The buffers after the request `command` for a result was answered from
/// them.
pub open spec fn holders_after_answer<R, S, Q>(
    holders: Map<BackendId, RecordBufferView<R, S, Q>>,
    command: Command,
) -> Map<BackendId, RecordBufferView<R, S, Q>> {
    let id = result_id_of(command);
    if !holders.contains_key(id) {
        holders
    } else {
        let b = holders[id];
        match command {
            Command::ResultNext { .. } => holders.insert(id, next_step(b).0),
            Command::ResultSingle { .. } => holders.insert(id, single_step(b).0),
            _ => holders.insert(id, consume_state(b)),
        }
    }
}

/// Whether `reply` is what the buffers answer to the request `command` for
/// a result: the error for an unknown result where there is no buffer for
/// it; else what the buffer answers.
pub open spec fn answers_from_holders<R, S: Clone, Q: Clone>(
    holders: Map<BackendId, RecordBufferView<R, S, Q>>,
    command: Command,
    reply: Reply<R, S, Q>,
) -> bool {
    let id = result_id_of(command);
    if !holders.contains_key(id) {
        match command {
            Command::ResultNext { .. } => reply matches Reply::Record(Err(e)) && e@
                == unknown_result_view(id),
            Command::ResultSingle { .. } => reply matches Reply::Single(
                Err(SingleRecordError::Failed(e)),
            ) && e@ == unknown_result_view(id),
            _ => reply matches Reply::Summary(Err(e)) && e@ == unknown_result_view(id),
        }
    } else {
        let b = holders[id];
        match command {
            Command::ResultNext { .. } => reply matches Reply::Record(res) && result_view(res)
                == next_step(b).1,
            Command::ResultSingle { .. } => reply matches Reply::Single(res) && single_view(res)
                == single_step(b).1,
            _ => reply matches Reply::Summary(res) && consume_answers(b, res),
        }
    }
}

impl<R, S: Clone, Q: Clone> Session<R, S, Q> {
    /// Answers a request for a result the session no longer streams, from
    /// its buffer.
    pub fn answer_from_holders(&mut self, command: Command) -> (reply: Reply<R, S, Q>)
        requires
            is_result_command(command),
        ensures
            final(self)@.known == old(self)@.known,
            final(self)@.holders == holders_after_answer(old(self)@.holders, command),
            answers_from_holders(old(self)@.holders, command, reply),
            answers_request(command, reply),
    {
        let id = match command {
            Command::ResultNext { result_id } => result_id,
            Command::ResultSingle { result_id } => result_id,
            Command::ResultConsume { result_id } => result_id,
            _ => 0,
        };
        let ghost old_holders = self.record_holders@;
        match self.record_holders.remove(&id) {
            None => {
                let error = TestKitError::backend_err(text_with_id("unknown result id ", id, " in session"));
                match command {
                    Command::ResultNext { .. } => Reply::Record(Err(error)),
                    Command::ResultSingle { .. } => Reply::Single(Err(SingleRecordError::Failed(error))),
                    _ => Reply::Summary(Err(error)),
                }
            },
            Some(buffer) => {
                let mut buffer = buffer;
                let reply = match command {
                    Command::ResultNext { .. } => Reply::Record(buffer.next()),
                    Command::ResultSingle { .. } => Reply::Single(buffer.single()),
                    _ => Reply::Summary(buffer.consume()),
                };
                self.record_holders.insert(id, buffer);
                proof {
                    assert(self@.holders =~= holders_after_answer(
                        old_holders.map_values(|b: RecordBuffer<R, S, Q>| b@),
                        command,
                    ));
                }
                reply
            },
        }
    }
}

impl<R, S, Q> Session<R, S, Q> {
    /// Makes a buffer, under a fresh identifier, for the result of an
    /// auto-commit query that the session starts to stream.
    pub fn start_auto_commit_result(&mut self, generator: &mut IdGenerator, query: Q) -> (id:
        BackendId)
        requires
            old(generator)@ < usize::MAX,
        ensures
            id == old(generator)@,
            final(generator)@ == old(generator)@ + 1,
            final(self)@.known == old(self)@.known,
            final(self)@.holders == old(self)@.holders.insert(
                id,
                RecordBufferView::AutoCommit {
                    records: Seq::empty(),
                    summary: None,
                    query,
                    consumed: false,
                },
            ),
    {
        let id = generator.next_id();
        self.record_holders.insert(id, RecordBuffer::new_auto_commit(query));
        proof {
            assert(self@.holders =~= old(self)@.holders.insert(
                id,
                RecordBufferView::AutoCommit {
                    records: Seq::empty(),
                    summary: None,
                    query,
                    consumed: false,
                },
            ));
        }
        id
    }

    /// Puts what the stream of the auto-commit result `id` yielded into its
    /// buffer, when the session moves on without reading it.
    pub fn buffer_result_stream(
        &mut self,
        id: BackendId,
        streamed: Vec<Result<R, TestKitError>>,
        stream_summary: Option<S>,
    )
        requires
            old(self)@.holders.contains_key(id),
            old(self)@.holders[id] is AutoCommit,
        ensures
            final(self)@.known == old(self)@.known,
            final(self)@.holders == old(self)@.holders.insert(
                id,
                stream_buffered(old(self)@.holders[id], streamed@, stream_summary),
            ),
    {
        let ghost old_holders = self.record_holders@;
        let mut buffer = self.record_holders.remove(&id).unwrap();
        buffer.buffer_record_stream(streamed, stream_summary);
        self.record_holders.insert(id, buffer);
        proof {
            assert(self@.holders =~= old(self)@.holders.insert(
                id,
                stream_buffered(old(self)@.holders[id], streamed@, stream_summary),
            ));
        }
    }

    /// Prepares to consume the stream of the auto-commit result `id`: its
    /// buffered records are dropped up to the first failure. Returns whether
    /// the stream is to be consumed: when no failure was buffered.
    pub fn begin_consume_result_stream(&mut self, id: BackendId) -> (consume_stream: bool)
        requires
            old(self)@.holders.contains_key(id),
            old(self)@.holders[id] is AutoCommit,
        ensures
            final(self)@.known == old(self)@.known,
            final(self)@.holders == old(self)@.holders.insert(
                id,
                with_records(
                    old(self)@.holders[id],
                    records_after_drop(buffered(old(self)@.holders[id])),
                ),
            ),
            consume_stream == (first_error(buffered(old(self)@.holders[id])) is None),
    {
        let mut buffer = self.record_holders.remove(&id).unwrap();
        let consume_stream = buffer.begin_consume_record_stream();
        self.record_holders.insert(id, buffer);
        proof {
            assert(self@.holders =~= old(self)@.holders.insert(
                id,
                with_records(
                    old(self)@.holders[id],
                    records_after_drop(buffered(old(self)@.holders[id])),
                ),
            ));
        }
        consume_stream
    }

    /// Takes in what consuming the stream of the auto-commit result `id`
    /// gave.
    pub fn end_consume_result_stream(&mut self, id: BackendId, outcome: Result<Option<S>, TestKitError>)
        requires
            old(self)@.holders.contains_key(id),
            old(self)@.holders[id] is AutoCommit,
        ensures
            final(self)@.known == old(self)@.known,
            final(self)@.holders == old(self)@.holders.insert(
                id,
                stream_consumed(old(self)@.holders[id], outcome),
            ),
    {
        let mut buffer = self.record_holders.remove(&id).unwrap();
        buffer.end_consume_record_stream(outcome);
        self.record_holders.insert(id, buffer);
        proof {
            assert(self@.holders =~= old(self)@.holders.insert(
                id,
                stream_consumed(old(self)@.holders[id], outcome),
            ));
        }
    }

    /// Whether the session holds a buffer for the auto-commit result `id`.
    pub fn holds_auto_commit(&self, id: BackendId) -> (r: bool)
        ensures
            r == (self@.holders.contains_key(id) && self@.holders[id] is AutoCommit),
    {
        match self.record_holders.get(&id) {
            Some(RecordBuffer::AutoCommit { .. }) => true,
            _ => false,
        }
    }

    /// Registers a transaction that starts, under a fresh identifier, as
    /// one that has not failed.
    pub fn begin_transaction(&mut self, generator: &mut IdGenerator) -> (id: BackendId)
        requires
            old(generator)@ < usize::MAX,
        ensures
            id == old(generator)@,
            final(generator)@ == old(generator)@ + 1,
            final(self)@.holders == old(self)@.holders,
            final(self)@.known == old(self)@.known.insert(id, TxFailState::Passed),
    {
        let id = generator.next_id();
        self.known_transactions.insert(id, TxFailState::Passed);
        id
    }

    /// Marks the transaction `id` as failed.
    pub fn mark_failed(&mut self, id: BackendId)
        ensures
            final(self)@.holders == old(self)@.holders,
            final(self)@.known == old(self)@.known.insert(id, TxFailState::Failed),
    {
        self.known_transactions.insert(id, TxFailState::Failed);
    }
}

/// The buffers once the transaction whose results are `streams` ended: each
/// of those results is out of scope.
pub open spec fn holders_after_scope<R, S, Q>(
    holders: Map<BackendId, RecordBufferView<R, S, Q>>,
    streams: Map<BackendId, StreamEntry<S, Q>>,
) -> Map<BackendId, RecordBufferView<R, S, Q>> {
    holders.union_prefer_right(
        Map::new(|k: BackendId| streams.contains_key(k), |k: BackendId| RecordBufferView::Transaction),
    )
}

impl<R, S, Q> Session<R, S, Q> {
    /// Ends the scope of a transaction: every one of its results is now out
    /// of scope.
    pub fn end_transaction_scope(&mut self, scope: TransactionScope<S, Q>)
        ensures
            final(self)@.known == old(self)@.known,
            final(self)@.holders == holders_after_scope(old(self)@.holders, scope@.streams),
    {
        let ghost streams = scope@.streams;
        let ids = scope.into_result_ids();
        let mut k: usize = 0;
        while k < ids.len()
            invariant
                k <= ids@.len(),
                self@.known == old(self)@.known,
                self@.holders == old(self)@.holders.union_prefer_right(
                    Map::new(|j: BackendId| ids@.subrange(0, k as int).contains(j), |j: BackendId| RecordBufferView::<R, S, Q>::Transaction),
                ),
            decreases ids@.len() - k,
        {
            let id = ids[k];
            let ghost prev = self@.holders;
            self.record_holders.insert(id, RecordBuffer::new_transaction());
            proof {
                assert(self@.holders =~= prev.insert(id, RecordBufferView::<R, S, Q>::Transaction));
                let prefix = ids@.subrange(0, k as int);
                let longer = ids@.subrange(0, k + 1);
                assert(longer =~= prefix.push(id));
                assert forall|j: BackendId| longer.contains(j) <==> (prefix.contains(j) || j == id) by {
                    if longer.contains(j) {
                        let w = choose|w: int| 0 <= w < longer.len() && longer[w] == j;
                        if w < prefix.len() {
                            assert(prefix[w] == j);
                        }
                    }
                    if prefix.contains(j) {
                        let w = choose|w: int| 0 <= w < prefix.len() && prefix[w] == j;
                        assert(longer[w] == j);
                    }
                    if j == id {
                        assert(longer[k as int] == j);
                    }
                }
                assert(self@.holders =~= old(self)@.holders.union_prefer_right(
                    Map::new(|j: BackendId| ids@.subrange(0, k + 1).contains(j), |j: BackendId| RecordBufferView::<R, S, Q>::Transaction),
                ));
            }
            k = k + 1;
        }
        proof {
            assert(ids@.subrange(0, ids@.len() as int) =~= ids@);
            assert(self@.holders =~= holders_after_scope(old(self)@.holders, streams));
        }
    }
}

/// Whether the transaction `id` has failed.
pub open spec fn tx_has_failed(known: Map<BackendId, TxFailState>, id: BackendId) -> bool {
    known.contains_key(id) && known[id] == TxFailState::Failed
}

/// A failed transaction stays failed: registering a new transaction under
/// a fresh identifier, or marking any transaction failed, keeps it failed;
/// and registering keeps the identifiers the session knows below the
/// generator's next one.
pub proof fn lemma_failed_transaction_stays_failed<R, S, Q>(
    s: SessionView<R, S, Q>,
    next: nat,
    i: BackendId,
    other: BackendId,
)
    requires
        session_ids_below(s, next),
        next < usize::MAX,
        tx_has_failed(s.known, i),
    ensures
        tx_has_failed(s.known.insert(next as BackendId, TxFailState::Passed), i),
        tx_has_failed(s.known.insert(other, TxFailState::Failed), i),
        session_ids_below(
            SessionView { holders: s.holders, known: s.known.insert(next as BackendId, TxFailState::Passed) },
            next + 1,
        ),
{
}

/// Once a transaction ended, each of its results is out of scope: asking
/// for its next record, its single record or its summary answers with the
/// out-of-scope error and changes nothing; the buffers of other results
/// stay as they were.
pub proof fn lemma_ended_transaction_results_out_of_scope<R, S, Q>(
    holders: Map<BackendId, RecordBufferView<R, S, Q>>,
    streams: Map<BackendId, StreamEntry<S, Q>>,
    r: BackendId,
)
    ensures
        streams.contains_key(r) ==> {
            let after = holders_after_scope(holders, streams);
            &&& after.contains_key(r)
            &&& after[r] == RecordBufferView::<R, S, Q>::Transaction
            &&& next_step(after[r]) == (after[r], Err::<Option<R>, TestKitErrorView>(out_of_scope_view()))
            &&& single_step(after[r]) == (
                after[r],
                Err::<R, SingleRecordErrorView>(SingleRecordErrorView::Failed(out_of_scope_view())),
            )
            &&& consume_state(after[r]) == after[r]
        },
        !streams.contains_key(r) ==> {
            &&& holders_after_scope(holders, streams).contains_key(r) == holders.contains_key(r)
            &&& holders.contains_key(r) ==> holders_after_scope(holders, streams)[r] == holders[r]
        },
{
    if streams.contains_key(r) {
        lemma_finished_buffer_stays(RecordBufferView::<R, S, Q>::Transaction);
    }
}

/// A transaction the session knows can always be closed; it can be rolled
/// back exactly when it failed; running a query in it or committing it is
/// refused as out of scope. A transaction it does not know is not found.
pub proof fn lemma_default_outcomes(known: Map<BackendId, TxFailState>, t: BackendId)
    ensures
        known.contains_key(t) ==> {
            &&& default_outcome(known, Command::CloseTransaction { transaction_id: t }) is Ok
            &&& (default_outcome(known, Command::RollbackTransaction { transaction_id: t }) is Ok
                <==> tx_has_failed(known, t))
            &&& default_outcome(known, Command::TransactionRun { transaction_id: t }) == Err::<
                (),
                TestKitErrorView,
            >(tx_out_of_scope_view())
            &&& default_outcome(known, Command::CommitTransaction { transaction_id: t }) == Err::<
                (),
                TestKitErrorView,
            >(tx_out_of_scope_view())
        },
        !known.contains_key(t) ==> {
            &&& default_outcome(known, Command::CloseTransaction { transaction_id: t }) == Err::<
                (),
                TestKitErrorView,
            >(tx_not_found_view())
            &&& default_outcome(known, Command::RollbackTransaction { transaction_id: t }) == Err::<
                (),
                TestKitErrorView,
            >(tx_not_found_view())
            &&& default_outcome(known, Command::TransactionRun { transaction_id: t }) == Err::<
                (),
                TestKitErrorView,
            >(tx_not_found_view())
            &&& default_outcome(known, Command::CommitTransaction { transaction_id: t }) == Err::<
                (),
                TestKitErrorView,
            >(tx_not_found_view())
        },
{
}

impl<R, S: Clone, Q: Clone> Session<R, S, Q> {
    /// Answers a request for the summary of a result while a transaction
    /// runs: with the summary the result already has in the transaction's
    /// scope, else from the result's buffer.
    pub fn report_summary(&mut self, scope: &TransactionScope<S, Q>, result_id: BackendId) -> (reply:
        Reply<R, S, Q>)
        ensures
            scope@.streams.contains_key(result_id) && scope@.streams[result_id].summary is Some ==> {
                &&& final(self)@ == old(self)@
                &&& reply matches Reply::Summary(Ok((s, q))) && cloned(
                    scope@.streams[result_id].summary->0,
                    s,
                ) && cloned(scope@.streams[result_id].query, q)
            },
            !(scope@.streams.contains_key(result_id) && scope@.streams[result_id].summary is Some)
                ==> {
                &&& final(self)@.known == old(self)@.known
                &&& final(self)@.holders == holders_after_answer(
                    old(self)@.holders,
                    Command::ResultConsume { result_id },
                )
                &&& answers_from_holders(
                    old(self)@.holders,
                    Command::ResultConsume { result_id },
                    reply,
                )
            },
    {
        match scope.summary(result_id) {
            Some(found) => Reply::Summary(Ok(found)),
            None => self.answer_from_holders(Command::ResultConsume { result_id }),
        }
    }

    /// Takes in what consuming the stream of the result `result_id` of the
    /// running transaction gave, and answers the request for its summary:
    /// the summary is kept and handed out; a failure fails the transaction
    /// and is the answer. Either way the stream is gone.
    pub fn stream_consumed(
        &mut self,
        scope: &mut TransactionScope<S, Q>,
        result_id: BackendId,
        outcome: Result<S, TestKitError>,
    ) -> (reply: Reply<R, S, Q>)
        requires
            old(scope)@.streams.contains_key(result_id),
        ensures
            final(scope)@.id == old(scope)@.id,
            final(self)@.holders == old(self)@.holders,
            match outcome {
                Ok(summary) => {
                    &&& final(scope)@.streams == old(scope)@.streams.insert(
                        result_id,
                        StreamEntry {
                            open: false,
                            summary: Some(summary),
                            query: old(scope)@.streams[result_id].query,
                        },
                    )
                    &&& final(self)@.known == old(self)@.known
                    &&& reply matches Reply::Summary(Ok((s, q))) && cloned(summary, s) && cloned(
                        old(scope)@.streams[result_id].query,
                        q,
                    )
                },
                Err(e) => {
                    &&& final(scope)@.streams == old(scope)@.streams.insert(
                        result_id,
                        StreamEntry {
                            open: false,
                            summary: None,
                            query: old(scope)@.streams[result_id].query,
                        },
                    )
                    &&& final(self)@.known == old(self)@.known.insert(
                        old(scope)@.id,
                        TxFailState::Failed,
                    )
                    &&& reply == Reply::<R, S, Q>::Summary(Err(e))
                },
            },
    {
        match outcome {
            Ok(summary) => {
                scope.close_stream(result_id, Some(summary));
                Reply::Summary(Ok(scope.summary(result_id).unwrap()))
            },
            Err(e) => {
                scope.close_stream(result_id, None);
                self.mark_failed(scope.id());
                Reply::Summary(Err(e))
            },
        }
    }
}

impl<R, S, Q> Session<R, S, Q> {
    /// Takes in how running a query in the transaction of `scope` went: a
    /// query that succeeded gets its result, under a fresh identifier, with
    /// an open stream; a failure fails the transaction and is handed back.
    pub fn query_outcome(
        &mut self,
        scope: &mut TransactionScope<S, Q>,
        generator: &mut IdGenerator,
        outcome: Result<Q, TestKitError>,
    ) -> (res: Result<BackendId, TestKitError>)
        requires
            old(generator)@ < usize::MAX,
            crate::scope::scope_ids_below(old(scope)@, old(generator)@),
        ensures
            final(scope)@.id == old(scope)@.id,
            final(self)@.holders == old(self)@.holders,
            crate::scope::scope_ids_below(final(scope)@, final(generator)@),
            match outcome {
                Ok(query) => {
                    &&& res == Ok::<BackendId, TestKitError>(old(generator)@ as BackendId)
                    &&& final(generator)@ == old(generator)@ + 1
                    &&& final(scope)@.streams == old(scope)@.streams.insert(
                        old(generator)@ as BackendId,
                        StreamEntry { open: true, summary: None, query },
                    )
                    &&& final(self)@.known == old(self)@.known
                },
                Err(e) => {
                    &&& res == Err::<BackendId, TestKitError>(e)
                    &&& final(generator)@ == old(generator)@
                    &&& final(scope)@.streams == old(scope)@.streams
                    &&& final(self)@.known == old(self)@.known.insert(
                        old(scope)@.id,
                        TxFailState::Failed,
                    )
                },
            },
    {
        match outcome {
            Ok(query) => Ok(scope.add_stream(generator, query)),
            Err(e) => {
                self.mark_failed(scope.id());
                Err(e)
            },
        }
    }
}

impl<R, S, Q> Session<R, S, Q> {
    /// Takes in a record read from a stream of the running transaction
    /// `tx_id` and gives the answer: a failure fails the transaction.
    pub fn record_read(&mut self, tx_id: BackendId, read: Option<Result<R, TestKitError>>) -> (res:
        Result<Option<R>, TestKitError>)
        ensures
            final(self)@.holders == old(self)@.holders,
            match read {
                None => res == Ok::<Option<R>, TestKitError>(None) && final(self)@.known == old(
                    self,
                )@.known,
                Some(Ok(r)) => res == Ok::<Option<R>, TestKitError>(Some(r)) && final(self)@.known
                    == old(self)@.known,
                Some(Err(e)) => res == Err::<Option<R>, TestKitError>(e) && final(self)@.known
                    == old(self)@.known.insert(tx_id, TxFailState::Failed),
            },
    {
        match read {
            None => Ok(None),
            Some(Ok(r)) => Ok(Some(r)),
            Some(Err(e)) => {
                self.mark_failed(tx_id);
                Err(e)
            },
        }
    }

    /// Takes in the single record read from a stream of the running
    /// transaction `tx_id` and gives the answer: a failure to read fails the
    /// transaction; finding no record, or more than one, does not.
    pub fn single_read(
        &mut self,
        tx_id: BackendId,
        read: Result<Result<R, TestKitError>, SingleRecordError>,
    ) -> (res: Result<R, SingleRecordError>)
        ensures
            final(self)@.holders == old(self)@.holders,
            match read {
                Ok(Err(e)) => res == Err::<R, SingleRecordError>(SingleRecordError::Failed(e))
                    && final(self)@.known == old(self)@.known.insert(tx_id, TxFailState::Failed),
                Ok(Ok(r)) => res == Ok::<R, SingleRecordError>(r) && final(self)@.known == old(
                    self,
                )@.known,
                Err(kind) => res == Err::<R, SingleRecordError>(kind) && final(self)@.known == old(
                    self,
                )@.known,
            },
    {
        match read {
            Ok(Ok(r)) => Ok(r),
            Ok(Err(e)) => {
                self.mark_failed(tx_id);
                Err(SingleRecordError::Failed(e))
            },
            Err(kind) => Err(kind),
        }
    }

    /// The driver failed in the attempt of a transaction function that runs
    /// as transaction `tx_id`: the transaction has failed, and the error is
    /// reported through the attempt's tracker, which keeps it under a fresh
    /// identifier. `reported` is the error as the frontend sees it.
    pub fn attempt_failed<E>(
        &mut self,
        tracker: &mut TransactionFunctionStateTracker<E>,
        generator: &mut IdGenerator,
        tx_id: BackendId,
        error: E,
        reported: TestKitError,
    ) -> (res: TestKitError)
        requires
            old(generator)@ < usize::MAX,
        ensures
            final(self)@.holders == old(self)@.holders,
            final(self)@.known == old(self)@.known.insert(tx_id, TxFailState::Failed),
            final(generator)@ == old(generator)@ + 1,
            final(tracker)@.failed,
            final(tracker)@.errors == old(tracker)@.errors.insert(
                old(generator)@ as BackendId,
                TransactionFunctionError::Neo4j(error),
            ),
            res@ == with_error_id(reported@, old(generator)@ as BackendId),
    {
        self.mark_failed(tx_id);
        tracker.wrap_neo4j_error(generator, error, reported)
    }
}

/// How a driver call in a transaction went, as far as the transaction's
/// failure goes: it succeeded; a single-record request found no record or
/// more than one; or the driver failed.
pub enum DriverOutcome {
    Succeeded,
    Missed,
    Failed,
}

/// The transactions' states after a driver call in transaction `tx` went
/// as `outcome`: only a driver failure fails the transaction.
pub open spec fn known_after_outcome(
    known: Map<BackendId, TxFailState>,
    tx: BackendId,
    outcome: DriverOutcome,
) -> Map<BackendId, TxFailState> {
    match outcome {
        DriverOutcome::Failed => known.insert(tx, TxFailState::Failed),
        _ => known,
    }
}

/// The transactions' states after the driver calls of transaction `tx`
/// went as `outcomes`, in order.
pub open spec fn known_after_outcomes(
    known: Map<BackendId, TxFailState>,
    tx: BackendId,
    outcomes: Seq<DriverOutcome>,
) -> Map<BackendId, TxFailState>
    decreases outcomes.len(),
{
    if outcomes.len() == 0 {
        known
    } else {
        known_after_outcome(
            known_after_outcomes(known, tx, outcomes.drop_last()),
            tx,
            outcomes.last(),
        )
    }
}

/// A transaction is marked failed exactly when a driver call in it failed:
/// registered as not failed and then taken through the outcomes of its
/// driver calls (a single-record request that finds no record or more than
/// one is no failure), it has failed exactly when one of them was a
/// failure. Afterwards, with the transaction no longer running, a rollback
/// of it succeeds exactly then, a close always succeeds, and a query or a
/// commit is refused as out of scope.
pub proof fn lemma_transaction_failed_iff_driver_failed(
    known: Map<BackendId, TxFailState>,
    tx: BackendId,
    outcomes: Seq<DriverOutcome>,
)
    ensures
        ({
            let after = known_after_outcomes(known.insert(tx, TxFailState::Passed), tx, outcomes);
            &&& after.contains_key(tx)
            &&& (tx_has_failed(after, tx) <==> exists|i: int|
                0 <= i < outcomes.len() && #[trigger] outcomes[i] is Failed)
            &&& (default_outcome(after, Command::RollbackTransaction { transaction_id: tx }) is Ok
                <==> exists|i: int| 0 <= i < outcomes.len() && #[trigger] outcomes[i] is Failed)
            &&& default_outcome(after, Command::CloseTransaction { transaction_id: tx }) is Ok
            &&& default_outcome(after, Command::CommitTransaction { transaction_id: tx }) == Err::<
                (),
                TestKitErrorView,
            >(tx_out_of_scope_view())
            &&& default_outcome(after, Command::TransactionRun { transaction_id: tx }) == Err::<
                (),
                TestKitErrorView,
            >(tx_out_of_scope_view())
        }),
    decreases outcomes.len(),
{
    let start = known.insert(tx, TxFailState::Passed);
    let after = known_after_outcomes(start, tx, outcomes);
    if outcomes.len() > 0 {
        let prefix = outcomes.drop_last();
        lemma_transaction_failed_iff_driver_failed(known, tx, prefix);
        assert forall|i: int| 0 <= i < prefix.len() implies prefix[i] == outcomes[i] by {}
        if outcomes.last() is Failed {
            assert(outcomes[outcomes.len() - 1] is Failed);
        } else {
            assert((exists|i: int| 0 <= i < outcomes.len() && #[trigger] outcomes[i] is Failed)
                ==> (exists|i: int| 0 <= i < prefix.len() && #[trigger] prefix[i] is Failed)) by {
                if exists|i: int| 0 <= i < outcomes.len() && #[trigger] outcomes[i] is Failed {
                    let i = choose|i: int| 0 <= i < outcomes.len() && #[trigger] outcomes[i] is Failed;
                    assert(i < prefix.len());
                    assert(prefix[i] is Failed);
                }
            }
            assert((exists|i: int| 0 <= i < prefix.len() && #[trigger] prefix[i] is Failed)
                ==> (exists|i: int| 0 <= i < outcomes.len() && #[trigger] outcomes[i] is Failed)) by {
                if exists|i: int| 0 <= i < prefix.len() && #[trigger] prefix[i] is Failed {
                    let i = choose|i: int| 0 <= i < prefix.len() && #[trigger] prefix[i] is Failed;
                    assert(outcomes[i] is Failed);
                }
            }
        }
    }
    lemma_default_outcomes(after, tx);
}

impl<R, S, Q> Session<R, S, Q> {
    /// Takes in how ending (committing or rolling back) the running
    /// transaction `tx_id` went, and hands it on: a failure fails the
    /// transaction.
    pub fn end_outcome<T, E>(&mut self, tx_id: BackendId, result: Result<T, E>) -> (res: Result<T, E>)
        ensures
            res == result,
            final(self)@.holders == old(self)@.holders,
            final(self)@.known == known_after_outcome(
                old(self)@.known,
                tx_id,
                if result is Err {
                    DriverOutcome::Failed
                } else {
                    DriverOutcome::Succeeded
                },
            ),
    {
        if result.is_err() {
            self.mark_failed(tx_id);
        }
        result
    }
}

/// Answering a request for a result from the buffers touches that result's
/// buffer alone, and none where the session has no buffer for it: every
/// other buffer, and which results have one, stay as they were.
pub proof fn lemma_answer_touches_only_its_buffer<R, S, Q>(
    holders: Map<BackendId, RecordBufferView<R, S, Q>>,
    command: Command,
    other: BackendId,
)
    requires
        is_result_command(command),
    ensures
        holders_after_answer(holders, command).dom() == holders.dom(),
        other != result_id_of(command) && holders.contains_key(other) ==> holders_after_answer(
            holders,
            command,
        )[other] == holders[other],
        !holders.contains_key(result_id_of(command)) ==> holders_after_answer(holders, command)
            == holders,
{
    let id = result_id_of(command);
    if holders.contains_key(id) {
        assert(holders_after_answer(holders, command).dom() =~= holders.dom());
    }
}

} // verus!
