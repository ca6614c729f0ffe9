use vstd::prelude::*;
use crate::errors::{
    TestKitError, TestKitErrorView, result_consumed_error, transaction_out_of_scope_error,
    session_already_executing_tx_error,
};
use crate::ids::BackendId;
use crate::record_buffer::consumed_view;
use crate::scope::{ScopeView, TransactionScope};
use crate::session::{
    Command, Session, TxFailState, tx_out_of_scope_view, session_busy_view,
};
use crate::tracker::{TransactionFunctionStateTracker, TransactionFunctionError, unknown_error_message};
use crate::session::{BackendErrorId, is_result_command, is_transaction_command, result_id_of};

verus! {

/// Why the session refuses a request.
#[derive(Debug, Clone, Copy, PartialEq, Eq, Structural)]
pub enum Rejection {
    /// A retry request outside a transaction function.
    RetryableOutsideFunction,
    /// A new transaction while one runs.
    SessionBusy,
    /// A request for the records of a result whose stream was consumed.
    ResultConsumed,
    /// A request in a transaction that can no longer serve it.
    TransactionOutOfScope,
    /// A commit inside a transaction function.
    CommitInFunction,
    /// A rollback inside a transaction function.
    RollbackInFunction,
    /// A close inside a transaction function.
    CloseInFunction,
}

/// The error a rejection answers with.
pub open spec fn rejection_view(r: Rejection) -> TestKitErrorView {
    match r {
        Rejection::RetryableOutsideFunction => TestKitErrorView::BackendError {
            msg: "retryable commands not supported outside transaction function"@,
        },
        Rejection::SessionBusy => session_busy_view(),
        Rejection::ResultConsumed => consumed_view(),
        Rejection::TransactionOutOfScope => tx_out_of_scope_view(),
        Rejection::CommitInFunction => TestKitErrorView::BackendError {
            msg: "explicit commit not supported in transaction function"@,
        },
        Rejection::RollbackInFunction => TestKitErrorView::BackendError {
            msg: "explicit rollback not supported in transaction function"@,
        },
        Rejection::CloseInFunction => TestKitErrorView::BackendError {
            msg: "explicit close not supported in transaction function"@,
        },
    }
}

/// The error a rejection answers with.
pub fn rejection_error(r: Rejection) -> (e: TestKitError)
    ensures
        e@ == rejection_view(r),
{
    match r {
        Rejection::RetryableOutsideFunction => TestKitError::backend_err_text(
            "retryable commands not supported outside transaction function",
        ),
        Rejection::SessionBusy => session_already_executing_tx_error(),
        Rejection::ResultConsumed => result_consumed_error(),
        Rejection::TransactionOutOfScope => transaction_out_of_scope_error(),
        Rejection::CommitInFunction => TestKitError::backend_err_text(
            "explicit commit not supported in transaction function",
        ),
        Rejection::RollbackInFunction => TestKitError::backend_err_text(
            "explicit rollback not supported in transaction function",
        ),
        Rejection::CloseInFunction => TestKitError::backend_err_text(
            "explicit close not supported in transaction function",
        ),
    }
}

/// What the session does with a request while no transaction and no
/// auto-commit stream is open.
#[derive(Debug, Clone, Copy, PartialEq, Eq, Structural)]
pub enum IdleStep {
    /// Start an auto-commit query.
    StartAutoCommit,
    /// Start an explicit transaction.
    StartTransaction,
    /// Start a transaction function.
    StartTransactionFunction,
    /// Answer with the error of the rejection.
    Reject(Rejection),
    /// Answer with the session's default response for another transaction.
    DefaultResponse,
    /// Answer from the buffer of the result.
    FromHolders,
    /// Answer with the session's last bookmarks.
    SessionBookmarks,
    /// Answer that the session closed, and stop.
    Close,
}

/// What the session does with a request while no transaction and no
/// auto-commit stream is open.
pub open spec fn idle_decision(command: Command) -> IdleStep {
    match command {
        Command::AutoCommit => IdleStep::StartAutoCommit,
        Command::BeginTransaction => IdleStep::StartTransaction,
        Command::TransactionFunction => IdleStep::StartTransactionFunction,
        Command::RetryablePositive | Command::RetryableNegative { .. } => IdleStep::Reject(
            Rejection::RetryableOutsideFunction,
        ),
        Command::TransactionRun { .. } | Command::CommitTransaction { .. }
        | Command::RollbackTransaction { .. } | Command::CloseTransaction { .. } =>
            IdleStep::DefaultResponse,
        Command::ResultNext { .. } | Command::ResultSingle { .. } | Command::ResultConsume {
            ..
        } => IdleStep::FromHolders,
        Command::LastBookmarks => IdleStep::SessionBookmarks,
        Command::Close => IdleStep::Close,
    }
}

/// What the session does with a request while no transaction and no
/// auto-commit stream is open.
pub fn idle_step(command: Command) -> (step: IdleStep)
    ensures
        step == idle_decision(command),
{
    match command {
        Command::AutoCommit => IdleStep::StartAutoCommit,
        Command::BeginTransaction => IdleStep::StartTransaction,
        Command::TransactionFunction => IdleStep::StartTransactionFunction,
        Command::RetryablePositive | Command::RetryableNegative { .. } => IdleStep::Reject(
            Rejection::RetryableOutsideFunction,
        ),
        Command::TransactionRun { .. } | Command::CommitTransaction { .. }
        | Command::RollbackTransaction { .. } | Command::CloseTransaction { .. } =>
            IdleStep::DefaultResponse,
        Command::ResultNext { .. } | Command::ResultSingle { .. } | Command::ResultConsume {
            ..
        } => IdleStep::FromHolders,
        Command::LastBookmarks => IdleStep::SessionBookmarks,
        Command::Close => IdleStep::Close,
    }
}

/// What the session does with a request while it streams the result of an
/// auto-commit query.
#[derive(Debug, Clone, Copy, PartialEq, Eq, Structural)]
pub enum AutoCommitStep {
    /// Answer with the next record of the stream.
    PullNext,
    /// Answer with the single record of the stream.
    PullSingle,
    /// Consume the stream into its buffer, answer with the summary from the
    /// buffer, and leave the auto-commit query.
    ConsumeAndAnswer,
    /// Answer from the buffer of the result.
    FromHolders,
    /// Answer with the session's default response for another transaction.
    DefaultResponse,
    /// Answer with the error of the rejection.
    Reject(Rejection),
    /// Keep the request for later, put what the stream still yields into its
    /// buffer, and leave the auto-commit query.
    BufferAndLeave,
    /// Keep the request for later, consume the stream into its buffer, and
    /// leave the auto-commit query.
    ConsumeAndLeave,
}

/// What the session does with a request while it streams the result
/// `stream_id` of an auto-commit query.
pub open spec fn auto_commit_decision(stream_id: BackendId, command: Command) -> AutoCommitStep {
    match command {
        Command::ResultNext { result_id } => if result_id == stream_id {
            AutoCommitStep::PullNext
        } else {
            AutoCommitStep::FromHolders
        },
        Command::ResultSingle { result_id } => if result_id == stream_id {
            AutoCommitStep::PullSingle
        } else {
            AutoCommitStep::FromHolders
        },
        Command::ResultConsume { result_id } => if result_id == stream_id {
            AutoCommitStep::ConsumeAndAnswer
        } else {
            AutoCommitStep::FromHolders
        },
        Command::TransactionRun { .. } | Command::CommitTransaction { .. }
        | Command::RollbackTransaction { .. } | Command::CloseTransaction { .. } =>
            AutoCommitStep::DefaultResponse,
        Command::RetryablePositive | Command::RetryableNegative { .. } => AutoCommitStep::Reject(
            Rejection::RetryableOutsideFunction,
        ),
        Command::AutoCommit | Command::TransactionFunction | Command::BeginTransaction
        | Command::LastBookmarks => AutoCommitStep::BufferAndLeave,
        Command::Close => AutoCommitStep::ConsumeAndLeave,
    }
}

/// What the session does with a request while it streams the result
/// `stream_id` of an auto-commit query.
pub fn auto_commit_step(stream_id: BackendId, command: Command) -> (step: AutoCommitStep)
    ensures
        step == auto_commit_decision(stream_id, command),
{
    match command {
        Command::ResultNext { result_id } => if result_id == stream_id {
            AutoCommitStep::PullNext
        } else {
            AutoCommitStep::FromHolders
        },
        Command::ResultSingle { result_id } => if result_id == stream_id {
            AutoCommitStep::PullSingle
        } else {
            AutoCommitStep::FromHolders
        },
        Command::ResultConsume { result_id } => if result_id == stream_id {
            AutoCommitStep::ConsumeAndAnswer
        } else {
            AutoCommitStep::FromHolders
        },
        Command::TransactionRun { .. } | Command::CommitTransaction { .. }
        | Command::RollbackTransaction { .. } | Command::CloseTransaction { .. } =>
            AutoCommitStep::DefaultResponse,
        Command::RetryablePositive | Command::RetryableNegative { .. } => AutoCommitStep::Reject(
            Rejection::RetryableOutsideFunction,
        ),
        Command::AutoCommit | Command::TransactionFunction | Command::BeginTransaction
        | Command::LastBookmarks => AutoCommitStep::BufferAndLeave,
        Command::Close => AutoCommitStep::ConsumeAndLeave,
    }
}

/// What the session does once an auto-commit query is over.
#[derive(Debug, Clone, Copy, PartialEq, Eq, Structural)]
pub enum AutoCommitEnd {
    /// Go on with the request kept for later, if any.
    Proceed,
    /// The query failed before its stream was read: answer the auto-commit
    /// request with the error.
    AnswerAutoCommitWithError,
    /// The query failed while its stream was read: answer the request kept
    /// for later with the error (it is not served otherwise), and stop the
    /// session where that request was to close it.
    AnswerKeptWithError { stop: bool },
}

/// What the session does once an auto-commit query is over: `started` tells
/// whether its stream was read, `failed` whether the query failed, `kept`
/// the request kept for later.
pub open spec fn auto_commit_end_decision(started: bool, failed: bool, kept: Option<Command>) -> AutoCommitEnd {
    if !failed {
        AutoCommitEnd::Proceed
    } else if !started {
        AutoCommitEnd::AnswerAutoCommitWithError
    } else {
        AutoCommitEnd::AnswerKeptWithError { stop: kept == Some(Command::Close) }
    }
}

/// What the session does once an auto-commit query is over. A query that
/// failed while its stream was read has always left a request for later.
pub fn auto_commit_end(started: bool, failed: bool, kept: Option<Command>) -> (end: AutoCommitEnd)
    requires
        failed && started ==> kept is Some,
    ensures
        end == auto_commit_end_decision(started, failed, kept),
{
    if !failed {
        AutoCommitEnd::Proceed
    } else if !started {
        AutoCommitEnd::AnswerAutoCommitWithError
    } else {
        let stop = match kept {
            Some(Command::Close) => true,
            _ => false,
        };
        AutoCommitEnd::AnswerKeptWithError { stop }
    }
}

/// What the session does with a request while it runs a transaction.
#[derive(Debug, Clone, Copy, PartialEq, Eq, Structural)]
pub enum TxStep {
    /// Answer with the session's default response for another transaction.
    DefaultResponse,
    /// Answer from the buffer of the result.
    FromHolders,
    /// Answer with the error of the rejection.
    Reject(Rejection),
    /// Answer with the error of the rejection, reported through the
    /// transaction function's tracker.
    RejectTracked(Rejection),
    /// Answer a query for another transaction with the session's scope
    /// error, reported through the transaction function's tracker.
    ScopeErrorTracked,
    /// Run the query in the transaction.
    Run,
    /// Answer with the next record of the result's stream.
    PullNext,
    /// Answer with the single record of the result's stream.
    PullSingle,
    /// Consume the result's stream, then answer with its summary.
    ConsumeStream,
    /// Answer with the summary the result already has.
    ReportSummary,
    /// Answer with the bookmarks the session had when the transaction began.
    BufferedBookmarks,
    /// Put the transaction's results out of scope, keep the request for
    /// later, and commit.
    Commit,
    /// Put the transaction's results out of scope, keep the request for
    /// later, and roll back.
    Rollback,
    /// Keep the request for later and leave the (failed) transaction at
    /// once; its results are dropped.
    Abandon,
    /// Keep the request for later, put the transaction's results out of
    /// scope, and leave the transaction.
    Leave,
}

/// Whether the transaction `id` has failed.
pub open spec fn has_failed(known: Map<BackendId, TxFailState>, id: BackendId) -> bool {
    known.contains_key(id) && known[id] == TxFailState::Failed
}

/// What the session does with a request while it runs the explicit
/// transaction whose results are in `scope`.
pub open spec fn transaction_decision<S, Q>(
    known: Map<BackendId, TxFailState>,
    scope: ScopeView<S, Q>,
    command: Command,
) -> TxStep {
    let id = scope.id;
    match command {
        Command::TransactionRun { transaction_id } => if transaction_id != id {
            TxStep::DefaultResponse
        } else {
            TxStep::Run
        },
        Command::ResultNext { result_id } => if !scope.streams.contains_key(result_id) {
            TxStep::FromHolders
        } else if !scope.streams[result_id].open {
            TxStep::Reject(Rejection::ResultConsumed)
        } else {
            TxStep::PullNext
        },
        Command::ResultSingle { result_id } => if !scope.streams.contains_key(result_id) {
            TxStep::FromHolders
        } else if !scope.streams[result_id].open {
            TxStep::Reject(Rejection::ResultConsumed)
        } else {
            TxStep::PullSingle
        },
        Command::ResultConsume { result_id } => if scope.streams.contains_key(result_id)
            && scope.streams[result_id].open {
            TxStep::ConsumeStream
        } else if scope.streams.contains_key(result_id)
            && scope.streams[result_id].summary is Some {
            TxStep::ReportSummary
        } else {
            TxStep::FromHolders
        },
        Command::CommitTransaction { transaction_id } => if transaction_id != id {
            TxStep::DefaultResponse
        } else {
            TxStep::Commit
        },
        Command::RollbackTransaction { transaction_id } | Command::CloseTransaction {
            transaction_id,
        } => if transaction_id != id {
            TxStep::DefaultResponse
        } else {
            TxStep::Rollback
        },
        Command::LastBookmarks => TxStep::BufferedBookmarks,
        Command::BeginTransaction | Command::TransactionFunction | Command::AutoCommit => if has_failed(
            known,
            id,
        ) {
            TxStep::Abandon
        } else {
            TxStep::Reject(Rejection::SessionBusy)
        },
        Command::RetryablePositive | Command::RetryableNegative { .. } => TxStep::Reject(
            Rejection::RetryableOutsideFunction,
        ),
        Command::Close => TxStep::Leave,
    }
}

/// What the session does with a request while it runs the explicit
/// transaction whose results are in `scope`.
pub fn transaction_step<R, S, Q>(
    session: &Session<R, S, Q>,
    scope: &TransactionScope<S, Q>,
    command: Command,
) -> (step: TxStep)
    ensures
        step == transaction_decision(session@.known, scope@, command),
{
    let id = scope.id();
    match command {
        Command::TransactionRun { transaction_id } => if transaction_id != id {
            TxStep::DefaultResponse
        } else {
            TxStep::Run
        },
        Command::ResultNext { result_id } => match scope.stream_state(result_id) {
            None => TxStep::FromHolders,
            Some(false) => TxStep::Reject(Rejection::ResultConsumed),
            Some(true) => TxStep::PullNext,
        },
        Command::ResultSingle { result_id } => match scope.stream_state(result_id) {
            None => TxStep::FromHolders,
            Some(false) => TxStep::Reject(Rejection::ResultConsumed),
            Some(true) => TxStep::PullSingle,
        },
        Command::ResultConsume { result_id } => {
            if scope.stream_state(result_id) == Some(true) {
                TxStep::ConsumeStream
            } else if scope.has_summary(result_id) {
                TxStep::ReportSummary
            } else {
                TxStep::FromHolders
            }
        },
        Command::CommitTransaction { transaction_id } => if transaction_id != id {
            TxStep::DefaultResponse
        } else {
            TxStep::Commit
        },
        Command::RollbackTransaction { transaction_id } | Command::CloseTransaction {
            transaction_id,
        } => if transaction_id != id {
            TxStep::DefaultResponse
        } else {
            TxStep::Rollback
        },
        Command::LastBookmarks => TxStep::BufferedBookmarks,
        Command::BeginTransaction | Command::TransactionFunction | Command::AutoCommit => {
            if session.transaction_state(id) == Some(TxFailState::Failed) {
                TxStep::Abandon
            } else {
                TxStep::Reject(Rejection::SessionBusy)
            }
        },
        Command::RetryablePositive | Command::RetryableNegative { .. } => TxStep::Reject(
            Rejection::RetryableOutsideFunction,
        ),
        Command::Close => TxStep::Leave,
    }
}

/// What the session does once an explicit transaction is over.
#[derive(Debug, Clone, Copy, PartialEq, Eq, Structural)]
pub enum TransactionEnd {
    /// The transaction never began: answer the request to begin it with the
    /// error.
    AnswerBeginWithError,
    /// Answer the query kept for later with the error.
    AnswerRunWithError,
    /// Answer the commit, rollback or close kept for later with the outcome.
    AnswerKeptWithOutcome,
    /// Answer the close of the session with the outcome, and stop.
    CloseWithOutcome,
    /// Go on with the request kept for later.
    Proceed,
}

/// Whether an explicit transaction can be over in this way: `started`
/// tells whether it began, `failed` whether it ended in an error, `kept`
/// the request kept for later.
pub open spec fn transaction_end_possible(started: bool, failed: bool, kept: Option<Command>) -> bool {
    if !started {
        failed
    } else {
        match kept {
            Some(Command::TransactionRun { .. }) => failed,
            Some(Command::CommitTransaction { .. }) | Some(Command::RollbackTransaction { .. })
            | Some(Command::CloseTransaction { .. }) | Some(Command::Close) => true,
            Some(Command::BeginTransaction) | Some(Command::TransactionFunction) | Some(
                Command::AutoCommit,
            ) => !failed,
            _ => false,
        }
    }
}

/// What the session does once an explicit transaction is over.
pub open spec fn transaction_end_decision(started: bool, kept: Option<Command>) -> TransactionEnd {
    if !started {
        TransactionEnd::AnswerBeginWithError
    } else {
        match kept {
            Some(Command::TransactionRun { .. }) => TransactionEnd::AnswerRunWithError,
            Some(Command::Close) => TransactionEnd::CloseWithOutcome,
            Some(Command::BeginTransaction) | Some(Command::TransactionFunction) | Some(
                Command::AutoCommit,
            ) => TransactionEnd::Proceed,
            _ => TransactionEnd::AnswerKeptWithOutcome,
        }
    }
}

/// Whether an explicit transaction can be over in this way.
pub fn can_end_transaction(started: bool, failed: bool, kept: Option<Command>) -> (r: bool)
    ensures
        r == transaction_end_possible(started, failed, kept),
{
    if !started {
        failed
    } else {
        match kept {
            Some(Command::TransactionRun { .. }) => failed,
            Some(Command::CommitTransaction { .. }) | Some(Command::RollbackTransaction { .. })
            | Some(Command::CloseTransaction { .. }) | Some(Command::Close) => true,
            Some(Command::BeginTransaction) | Some(Command::TransactionFunction) | Some(
                Command::AutoCommit,
            ) => !failed,
            _ => false,
        }
    }
}

/// What the session does once an explicit transaction is over.
pub fn transaction_end(started: bool, failed: bool, kept: Option<Command>) -> (end: TransactionEnd)
    requires
        transaction_end_possible(started, failed, kept),
    ensures
        end == transaction_end_decision(started, kept),
{
    if !started {
        TransactionEnd::AnswerBeginWithError
    } else {
        match kept {
            Some(Command::TransactionRun { .. }) => TransactionEnd::AnswerRunWithError,
            Some(Command::Close) => TransactionEnd::CloseWithOutcome,
            Some(Command::BeginTransaction) | Some(Command::TransactionFunction) | Some(
                Command::AutoCommit,
            ) => TransactionEnd::Proceed,
            _ => TransactionEnd::AnswerKeptWithOutcome,
        }
    }
}

/// What the session does with a request while it runs an attempt of a
/// transaction function whose results are in `scope`; `failed` tells
/// whether the driver failed in the attempt.
pub open spec fn function_decision<S, Q>(scope: ScopeView<S, Q>, failed: bool, command: Command) -> TxStep {
    let id = scope.id;
    match command {
        Command::TransactionRun { transaction_id } => if transaction_id != id {
            TxStep::ScopeErrorTracked
        } else if failed {
            TxStep::RejectTracked(Rejection::TransactionOutOfScope)
        } else {
            TxStep::Run
        },
        Command::ResultNext { result_id } => if !scope.streams.contains_key(result_id) {
            TxStep::FromHolders
        } else if !scope.streams[result_id].open {
            TxStep::Reject(Rejection::ResultConsumed)
        } else if failed {
            TxStep::RejectTracked(Rejection::TransactionOutOfScope)
        } else {
            TxStep::PullNext
        },
        Command::ResultSingle { result_id } => if !scope.streams.contains_key(result_id) {
            TxStep::FromHolders
        } else if !scope.streams[result_id].open {
            TxStep::Reject(Rejection::ResultConsumed)
        } else if failed {
            TxStep::RejectTracked(Rejection::TransactionOutOfScope)
        } else {
            TxStep::PullSingle
        },
        Command::ResultConsume { result_id } => if scope.streams.contains_key(result_id) && failed {
            TxStep::Reject(Rejection::TransactionOutOfScope)
        } else if scope.streams.contains_key(result_id) && scope.streams[result_id].open {
            TxStep::ConsumeStream
        } else if scope.streams.contains_key(result_id)
            && scope.streams[result_id].summary is Some {
            TxStep::ReportSummary
        } else {
            TxStep::FromHolders
        },
        Command::CommitTransaction { transaction_id } => if transaction_id != id {
            TxStep::DefaultResponse
        } else {
            TxStep::Reject(Rejection::CommitInFunction)
        },
        Command::RollbackTransaction { transaction_id } => if transaction_id != id {
            TxStep::DefaultResponse
        } else {
            TxStep::Reject(Rejection::RollbackInFunction)
        },
        Command::CloseTransaction { transaction_id } => if transaction_id != id {
            TxStep::DefaultResponse
        } else {
            TxStep::Reject(Rejection::CloseInFunction)
        },
        Command::LastBookmarks => TxStep::BufferedBookmarks,
        Command::BeginTransaction | Command::TransactionFunction | Command::AutoCommit =>
            TxStep::Reject(Rejection::SessionBusy),
        Command::RetryablePositive => TxStep::Commit,
        Command::RetryableNegative { .. } => TxStep::Rollback,
        Command::Close => TxStep::Leave,
    }
}

/// What the session does with a request while it runs an attempt of a
/// transaction function whose results are in `scope`.
pub fn function_step<E, S, Q>(
    scope: &TransactionScope<S, Q>,
    tracker: &TransactionFunctionStateTracker<E>,
    command: Command,
) -> (step: TxStep)
    ensures
        step == function_decision(scope@, tracker@.failed, command),
{
    let id = scope.id();
    let failed = tracker.failed();
    match command {
        Command::TransactionRun { transaction_id } => if transaction_id != id {
            TxStep::ScopeErrorTracked
        } else if failed {
            TxStep::RejectTracked(Rejection::TransactionOutOfScope)
        } else {
            TxStep::Run
        },
        Command::ResultNext { result_id } => match scope.stream_state(result_id) {
            None => TxStep::FromHolders,
            Some(false) => TxStep::Reject(Rejection::ResultConsumed),
            Some(true) => if failed {
                TxStep::RejectTracked(Rejection::TransactionOutOfScope)
            } else {
                TxStep::PullNext
            },
        },
        Command::ResultSingle { result_id } => match scope.stream_state(result_id) {
            None => TxStep::FromHolders,
            Some(false) => TxStep::Reject(Rejection::ResultConsumed),
            Some(true) => if failed {
                TxStep::RejectTracked(Rejection::TransactionOutOfScope)
            } else {
                TxStep::PullSingle
            },
        },
        Command::ResultConsume { result_id } => {
            let st = scope.stream_state(result_id);
            if st.is_some() && failed {
                TxStep::Reject(Rejection::TransactionOutOfScope)
            } else if st == Some(true) {
                TxStep::ConsumeStream
            } else if scope.has_summary(result_id) {
                TxStep::ReportSummary
            } else {
                TxStep::FromHolders
            }
        },
        Command::CommitTransaction { transaction_id } => if transaction_id != id {
            TxStep::DefaultResponse
        } else {
            TxStep::Reject(Rejection::CommitInFunction)
        },
        Command::RollbackTransaction { transaction_id } => if transaction_id != id {
            TxStep::DefaultResponse
        } else {
            TxStep::Reject(Rejection::RollbackInFunction)
        },
        Command::CloseTransaction { transaction_id } => if transaction_id != id {
            TxStep::DefaultResponse
        } else {
            TxStep::Reject(Rejection::CloseInFunction)
        },
        Command::LastBookmarks => TxStep::BufferedBookmarks,
        Command::BeginTransaction | Command::TransactionFunction | Command::AutoCommit =>
            TxStep::Reject(Rejection::SessionBusy),
        Command::RetryablePositive => TxStep::Commit,
        Command::RetryableNegative { .. } => TxStep::Rollback,
        Command::Close => TxStep::Leave,
    }
}

/// How an attempt of a transaction function that the frontend rolled back
/// ends: with the error the frontend names, which the tracker kept. A
/// driver error (`Err`) leaves the retry to the driver's policy; any other
/// error (`Ok(Err(..))`) ends the transaction function with it.
pub fn rollback_outcome<E>(tracker: TransactionFunctionStateTracker<E>, error_id: BackendErrorId) -> (res:
    Result<Result<(), TestKitError>, E>)
    ensures
        match error_id {
            BackendErrorId::BackendError(id) => if tracker@.errors.contains_key(id) {
                match tracker@.errors[id] {
                    TransactionFunctionError::TestKit(e) => res == Ok::<
                        Result<(), TestKitError>,
                        E,
                    >(Err(e)),
                    TransactionFunctionError::Neo4j(e) => res == Err::<Result<(), TestKitError>, E>(
                        e,
                    ),
                }
            } else {
                res matches Ok(Err(e)) && e@ == (TestKitErrorView::BackendError {
                    msg: unknown_error_message(id),
                })
            },
            BackendErrorId::ClientError => res matches Ok(Err(e)) && e@ == (
            TestKitErrorView::FrontendError { msg: "Client said no!"@ }),
        },
{
    match error_id {
        BackendErrorId::BackendError(id) => match tracker.into_error(id) {
            TransactionFunctionError::TestKit(e) => Ok(Err(e)),
            TransactionFunctionError::Neo4j(e) => Err(e),
        },
        BackendErrorId::ClientError => Ok(Err(TestKitError::frontend_err_text("Client said no!"))),
    }
}

/// What the session does once a transaction function is over: answer the
/// request kept for later with the outcome, or, where that request was to
/// close the session, answer it and stop.
#[derive(Debug, Clone, Copy, PartialEq, Eq, Structural)]
pub enum FunctionEnd {
    AnswerKept,
    CloseWithOutcome,
}

/// Whether a transaction function can be over with `kept` kept for later.
pub open spec fn function_end_possible(kept: Option<Command>) -> bool {
    match kept {
        Some(Command::RetryablePositive) | Some(Command::RetryableNegative { .. }) | Some(
            Command::TransactionFunction,
        ) | Some(Command::Close) => true,
        _ => false,
    }
}

/// Whether a transaction function can be over with `kept` kept for later.
pub fn can_end_function(kept: Option<Command>) -> (r: bool)
    ensures
        r == function_end_possible(kept),
{
    match kept {
        Some(Command::RetryablePositive) | Some(Command::RetryableNegative { .. }) | Some(
            Command::TransactionFunction,
        ) | Some(Command::Close) => true,
        _ => false,
    }
}

/// Whether an attempt of a transaction function can begin with `kept` kept
/// for later: the request that started the transaction function or asked
/// for a retry.
pub open spec fn attempt_start_possible(kept: Option<Command>) -> bool {
    match kept {
        Some(Command::RetryablePositive) | Some(Command::RetryableNegative { .. }) | Some(
            Command::TransactionFunction,
        ) => true,
        _ => false,
    }
}

/// Whether an attempt of a transaction function can begin with `kept` kept
/// for later.
pub fn can_start_attempt(kept: Option<Command>) -> (r: bool)
    ensures
        r == attempt_start_possible(kept),
{
    match kept {
        Some(Command::RetryablePositive) | Some(Command::RetryableNegative { .. }) | Some(
            Command::TransactionFunction,
        ) => true,
        _ => false,
    }
}

/// What the session does once a transaction function is over.
pub fn function_end(kept: Option<Command>) -> (end: FunctionEnd)
    requires
        function_end_possible(kept),
    ensures
        end == (if kept == Some(Command::Close) {
            FunctionEnd::CloseWithOutcome
        } else {
            FunctionEnd::AnswerKept
        }),
{
    match kept {
        Some(Command::Close) => FunctionEnd::CloseWithOutcome,
        _ => FunctionEnd::AnswerKept,
    }
}

/// A retry request is refused whenever no transaction function runs:
/// while the session is idle, streams an auto-commit result, or runs an
/// explicit transaction.
pub proof fn lemma_retry_refused_outside_function<S, Q>(
    stream_id: BackendId,
    known: Map<BackendId, TxFailState>,
    scope: ScopeView<S, Q>,
    command: Command,
)
    requires
        command is RetryablePositive || command is RetryableNegative,
    ensures
        idle_decision(command) == IdleStep::Reject(Rejection::RetryableOutsideFunction),
        auto_commit_decision(stream_id, command) == AutoCommitStep::Reject(
            Rejection::RetryableOutsideFunction,
        ),
        transaction_decision(known, scope, command) == TxStep::Reject(
            Rejection::RetryableOutsideFunction,
        ),
{
}

/// While a transaction runs, a new transaction or auto-commit query is
/// refused as long as the running transaction has not failed; after it
/// failed, the session leaves it to serve the request. Inside a
/// transaction function it is always refused.
pub proof fn lemma_busy_session_refuses_new_work<S, Q>(
    known: Map<BackendId, TxFailState>,
    scope: ScopeView<S, Q>,
    failed: bool,
    command: Command,
)
    requires
        command is BeginTransaction || command is TransactionFunction || command is AutoCommit,
    ensures
        transaction_decision(known, scope, command) == if has_failed(known, scope.id) {
            TxStep::Abandon
        } else {
            TxStep::Reject(Rejection::SessionBusy)
        },
        function_decision(scope, failed, command) == TxStep::Reject(Rejection::SessionBusy),
{
}

/// Once the driver failed in an attempt of a transaction function, the
/// attempt serves no more work: a query in it, and a record of one of its
/// open results, are refused as out of scope (through the tracker), and so
/// is the summary of any of its results.
pub proof fn lemma_failed_attempt_refuses_work<S, Q>(scope: ScopeView<S, Q>, r: BackendId)
    ensures
        function_decision(scope, true, Command::TransactionRun { transaction_id: scope.id })
            == TxStep::RejectTracked(Rejection::TransactionOutOfScope),
        scope.streams.contains_key(r) && scope.streams[r].open ==> {
            &&& function_decision(scope, true, Command::ResultNext { result_id: r })
                == TxStep::RejectTracked(Rejection::TransactionOutOfScope)
            &&& function_decision(scope, true, Command::ResultSingle { result_id: r })
                == TxStep::RejectTracked(Rejection::TransactionOutOfScope)
        },
        scope.streams.contains_key(r) ==> function_decision(
            scope,
            true,
            Command::ResultConsume { result_id: r },
        ) == TxStep::Reject(Rejection::TransactionOutOfScope),
{
}

/// A request about another transaction than the running one gets the
/// session's default response, whatever the session is doing (inside a
/// transaction function, a query for another transaction gets the scope
/// error through the tracker).
pub proof fn lemma_other_transaction_gets_default_response<S, Q>(
    stream_id: BackendId,
    known: Map<BackendId, TxFailState>,
    scope: ScopeView<S, Q>,
    failed: bool,
    command: Command,
)
    requires
        command is TransactionRun || command is CommitTransaction || command is RollbackTransaction
            || command is CloseTransaction,
        match command {
            Command::TransactionRun { transaction_id } => transaction_id != scope.id,
            Command::CommitTransaction { transaction_id } => transaction_id != scope.id,
            Command::RollbackTransaction { transaction_id } => transaction_id != scope.id,
            Command::CloseTransaction { transaction_id } => transaction_id != scope.id,
            _ => false,
        },
    ensures
        idle_decision(command) == IdleStep::DefaultResponse,
        auto_commit_decision(stream_id, command) == AutoCommitStep::DefaultResponse,
        transaction_decision(known, scope, command) == TxStep::DefaultResponse,
        command is TransactionRun ==> function_decision(scope, failed, command)
            == TxStep::ScopeErrorTracked,
        !(command is TransactionRun) ==> function_decision(scope, failed, command)
            == TxStep::DefaultResponse,
{
}

/// Whether, in a transaction or a transaction function, the step keeps the
/// request for later and ends the transaction; every other step answers
/// the request once, in its own form, and stays in the transaction.
pub open spec fn tx_step_keeps_request(step: TxStep) -> bool {
    ||| step is Commit
    ||| step is Rollback
    ||| step is Abandon
    ||| step is Leave
}

/// Whether, while an auto-commit result streams, the step keeps the
/// request for later and ends the auto-commit query.
pub open spec fn auto_commit_step_keeps_request(step: AutoCommitStep) -> bool {
    step is BufferAndLeave || step is ConsumeAndLeave
}

/// A request is kept only to end the mode the session is in, and every way
/// a mode ends either answers the kept request once (in its own form, with
/// the mode's outcome) or hands it back to be decided again once the
/// session is idle. While idle, only a request to start an auto-commit
/// query, a transaction or a transaction function starts a mode; every
/// other request is answered at once (a close, which also stops the
/// session, included).
pub proof fn lemma_requests_answered_or_kept<S, Q>(
    stream_id: BackendId,
    known: Map<BackendId, TxFailState>,
    scope: ScopeView<S, Q>,
    failed: bool,
    command: Command,
)
    ensures
        (idle_decision(command) is StartAutoCommit || idle_decision(command) is StartTransaction
            || idle_decision(command) is StartTransactionFunction) <==> (command is AutoCommit
            || command is BeginTransaction || command is TransactionFunction),
        auto_commit_step_keeps_request(auto_commit_decision(stream_id, command)) <==> (
        command is AutoCommit || command is TransactionFunction || command is BeginTransaction
            || command is LastBookmarks || command is Close),
        tx_step_keeps_request(transaction_decision(known, scope, command)) ==> (
        command is CommitTransaction || command is RollbackTransaction
            || command is CloseTransaction || command is BeginTransaction
            || command is TransactionFunction || command is AutoCommit || command is Close),
        tx_step_keeps_request(function_decision(scope, failed, command)) <==> (
        command is RetryablePositive || command is RetryableNegative || command is Close),
        // a transaction that ends by a commit, rollback or close answers that request
        (command is CommitTransaction || command is RollbackTransaction
            || command is CloseTransaction) ==> transaction_end_decision(true, Some(command))
            == TransactionEnd::AnswerKeptWithOutcome,
        command is Close ==> transaction_end_decision(true, Some(command))
            == TransactionEnd::CloseWithOutcome,
        // a new start that left a failed transaction is decided again when idle
        (command is BeginTransaction || command is TransactionFunction || command is AutoCommit)
            ==> transaction_end_decision(true, Some(command)) == TransactionEnd::Proceed,
        // a transaction that never began answers the request to begin it
        transaction_end_decision(false, Some(command)) == TransactionEnd::AnswerBeginWithError,
        // an auto-commit query that failed while streaming answers the kept request
        auto_commit_end_decision(true, true, Some(command)) == (AutoCommitEnd::AnswerKeptWithError {
            stop: command == Command::Close,
        }),
        // one that failed before streaming answers the auto-commit request itself
        auto_commit_end_decision(false, true, Some(command)) == AutoCommitEnd::AnswerAutoCommitWithError,
        // one that went through hands the kept request back
        auto_commit_end_decision(true, false, Some(command)) == AutoCommitEnd::Proceed,
{
}

/// While idle, every request for a result (its next record, its single
/// record, its summary) is answered from the result's buffer, whichever of
/// the three it is; a request about a transaction gets the default
/// response; only the three starting requests start a mode; the bookmarks
/// come from the session and a close closes it.
pub proof fn lemma_idle_serves_results_from_buffers(command: Command)
    ensures
        is_result_command(command) ==> idle_decision(command) == IdleStep::FromHolders,
        idle_decision(Command::ResultNext { result_id: result_id_of(command) })
            == idle_decision(Command::ResultSingle { result_id: result_id_of(command) }),
        idle_decision(Command::ResultSingle { result_id: result_id_of(command) })
            == idle_decision(Command::ResultConsume { result_id: result_id_of(command) }),
        is_transaction_command(command) ==> idle_decision(command) == IdleStep::DefaultResponse,
        command is AutoCommit <==> idle_decision(command) == IdleStep::StartAutoCommit,
        command is BeginTransaction <==> idle_decision(command) == IdleStep::StartTransaction,
        command is TransactionFunction <==> idle_decision(command)
            == IdleStep::StartTransactionFunction,
        command is LastBookmarks <==> idle_decision(command) == IdleStep::SessionBookmarks,
        command is Close <==> idle_decision(command) == IdleStep::Close,
{
}

/// While an auto-commit result streams, a request for another result is
/// answered from that result's buffer, and a request for the streamed
/// result reads the stream: the next record with `PullNext`, the single
/// record with `PullSingle`, the summary by consuming the stream.
pub proof fn lemma_auto_commit_reads_its_stream(stream_id: BackendId, command: Command)
    requires
        is_result_command(command),
    ensures
        result_id_of(command) != stream_id ==> auto_commit_decision(stream_id, command)
            == AutoCommitStep::FromHolders,
        result_id_of(command) == stream_id ==> auto_commit_decision(stream_id, command) == match command {
            Command::ResultNext { .. } => AutoCommitStep::PullNext,
            Command::ResultSingle { .. } => AutoCommitStep::PullSingle,
            _ => AutoCommitStep::ConsumeAndAnswer,
        },
{
}

/// Leaving an auto-commit stream keeps its unread records readable: every
/// request that ends the auto-commit query other than a close buffers what
/// the stream still yields; only a close consumes the stream (dropping its
/// unread records).
pub proof fn lemma_leaving_auto_commit_buffers_records(stream_id: BackendId, command: Command)
    ensures
        (command is AutoCommit || command is BeginTransaction || command is TransactionFunction
            || command is LastBookmarks) ==> auto_commit_decision(stream_id, command)
            == AutoCommitStep::BufferAndLeave,
        auto_commit_decision(stream_id, command) == AutoCommitStep::ConsumeAndLeave <==> command
            is Close,
        auto_commit_step_keeps_request(auto_commit_decision(stream_id, command)) && !(command
            is Close) ==> auto_commit_decision(stream_id, command) == AutoCommitStep::BufferAndLeave,
{
}

/// Inside a transaction, requests for a result are decided alike, whichever
/// of the three they are: a result that is not one of the transaction's is
/// answered from the session's buffers; a result whose stream is open is
/// read from its stream (the next record, the single record, or the
/// summary by consuming it); a result whose stream was taken refuses
/// records as consumed, and gives the summary it has, else answers from the
/// buffers. The same holds inside an attempt of a transaction function that
/// has not failed.
pub proof fn lemma_transaction_results_decided_alike<S, Q>(
    known: Map<BackendId, TxFailState>,
    scope: ScopeView<S, Q>,
    r: BackendId,
)
    ensures
        !scope.streams.contains_key(r) ==> {
            &&& transaction_decision(known, scope, Command::ResultNext { result_id: r })
                == TxStep::FromHolders
            &&& transaction_decision(known, scope, Command::ResultSingle { result_id: r })
                == TxStep::FromHolders
            &&& transaction_decision(known, scope, Command::ResultConsume { result_id: r })
                == TxStep::FromHolders
        },
        scope.streams.contains_key(r) && scope.streams[r].open ==> {
            &&& transaction_decision(known, scope, Command::ResultNext { result_id: r })
                == TxStep::PullNext
            &&& transaction_decision(known, scope, Command::ResultSingle { result_id: r })
                == TxStep::PullSingle
            &&& transaction_decision(known, scope, Command::ResultConsume { result_id: r })
                == TxStep::ConsumeStream
        },
        scope.streams.contains_key(r) && !scope.streams[r].open ==> {
            &&& transaction_decision(known, scope, Command::ResultNext { result_id: r })
                == TxStep::Reject(Rejection::ResultConsumed)
            &&& transaction_decision(known, scope, Command::ResultSingle { result_id: r })
                == TxStep::Reject(Rejection::ResultConsumed)
            &&& transaction_decision(known, scope, Command::ResultConsume { result_id: r })
                == if scope.streams[r].summary is Some {
                TxStep::ReportSummary
            } else {
                TxStep::FromHolders
            }
        },
        forall|c: Command|
            is_result_command(c) && result_id_of(c) == r ==> #[trigger] function_decision(
                scope,
                false,
                c,
            ) == transaction_decision(known, scope, c),
{
    assert forall|c: Command|
        is_result_command(c) && result_id_of(c) == r implies #[trigger] function_decision(
        scope,
        false,
        c,
    ) == transaction_decision(known, scope, c) by {}
}

/// Inside an attempt of a transaction function, whether the driver failed
/// in it decides every request for a result the attempt still streams: a
/// failed attempt refuses it as out of scope; one that has not failed reads
/// the stream. Results that are not the attempt's are answered from the
/// buffers either way.
pub proof fn lemma_attempt_reads_open_streams_unless_failed<S, Q>(
    scope: ScopeView<S, Q>,
    failed: bool,
    r: BackendId,
)
    ensures
        scope.streams.contains_key(r) && scope.streams[r].open ==> {
            &&& function_decision(scope, failed, Command::ResultNext { result_id: r }) == if failed {
                TxStep::RejectTracked(Rejection::TransactionOutOfScope)
            } else {
                TxStep::PullNext
            }
            &&& function_decision(scope, failed, Command::ResultSingle { result_id: r }) == if failed {
                TxStep::RejectTracked(Rejection::TransactionOutOfScope)
            } else {
                TxStep::PullSingle
            }
            &&& function_decision(scope, failed, Command::ResultConsume { result_id: r }) == if failed {
                TxStep::Reject(Rejection::TransactionOutOfScope)
            } else {
                TxStep::ConsumeStream
            }
        },
        !scope.streams.contains_key(r) ==> {
            &&& function_decision(scope, failed, Command::ResultNext { result_id: r })
                == TxStep::FromHolders
            &&& function_decision(scope, failed, Command::ResultSingle { result_id: r })
                == TxStep::FromHolders
            &&& function_decision(scope, failed, Command::ResultConsume { result_id: r })
                == TxStep::FromHolders
        },
{
}

/// Inside a transaction, a request that ends the running transaction ends
/// it: a commit of it commits, a rollback or a close of it rolls back, and
/// a close of the session leaves it. Inside a transaction function the
/// frontend cannot end the transaction itself: committing, rolling back or
/// closing it is refused, and the attempt ends only by a retry request (a
/// positive one commits, a negative one rolls back) or by a close of the
/// session. Either way the bookmarks are those from the start of the
/// transaction.
pub proof fn lemma_ending_the_transaction<S, Q>(
    known: Map<BackendId, TxFailState>,
    scope: ScopeView<S, Q>,
    failed: bool,
    error_id: BackendErrorId,
)
    ensures
        transaction_decision(known, scope, Command::CommitTransaction { transaction_id: scope.id })
            == TxStep::Commit,
        transaction_decision(known, scope, Command::RollbackTransaction { transaction_id: scope.id })
            == TxStep::Rollback,
        transaction_decision(known, scope, Command::CloseTransaction { transaction_id: scope.id })
            == TxStep::Rollback,
        transaction_decision(known, scope, Command::Close) == TxStep::Leave,
        transaction_decision(known, scope, Command::LastBookmarks) == TxStep::BufferedBookmarks,
        transaction_decision(known, scope, Command::TransactionRun { transaction_id: scope.id })
            == TxStep::Run,
        function_decision(scope, failed, Command::CommitTransaction { transaction_id: scope.id })
            == TxStep::Reject(Rejection::CommitInFunction),
        function_decision(scope, failed, Command::RollbackTransaction { transaction_id: scope.id })
            == TxStep::Reject(Rejection::RollbackInFunction),
        function_decision(scope, failed, Command::CloseTransaction { transaction_id: scope.id })
            == TxStep::Reject(Rejection::CloseInFunction),
        function_decision(scope, failed, Command::RetryablePositive) == TxStep::Commit,
        function_decision(scope, failed, Command::RetryableNegative { error_id }) == TxStep::Rollback,
        function_decision(scope, failed, Command::Close) == TxStep::Leave,
        function_decision(scope, failed, Command::LastBookmarks) == TxStep::BufferedBookmarks,
        function_decision(scope, false, Command::TransactionRun { transaction_id: scope.id })
            == TxStep::Run,
{
}

} // verus!
