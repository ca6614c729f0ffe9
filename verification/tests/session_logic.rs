use testkit_backend::errors::{
    result_consumed_error, result_out_of_scope_error, session_already_executing_tx_error,
    transaction_out_of_scope_error, TestKitError,
};
use testkit_backend::ids::IdGenerator;
use testkit_backend::record_buffer::SingleRecordError;
use testkit_backend::scope::TransactionScope;
use testkit_backend::session::{BackendErrorId, Command, Reply, Session, TxFailState};
use testkit_backend::steps::{
    auto_commit_end, auto_commit_step, function_end, function_step, idle_step, rejection_error,
    rollback_outcome, transaction_end, transaction_step, AutoCommitEnd, AutoCommitStep,
    FunctionEnd, IdleStep, Rejection, TransactionEnd, TxStep,
};
use testkit_backend::tracker::{TransactionFunctionError, TransactionFunctionStateTracker};

type S = Session<u32, String, String>;

fn not_found() -> TestKitError {
    TestKitError::backend_err("transaction not found".to_string())
}

fn unit(reply: Reply<u32, String, String>) -> Result<(), TestKitError> {
    match reply {
        Reply::Error { error, .. } => Err(error),
        Reply::Done { .. } => Ok(()),
        other => panic!("unexpected reply {other:?}"),
    }
}

fn advanced(n: usize) -> IdGenerator {
    let mut g = IdGenerator::new();
    for _ in 0..n {
        g.next_id();
    }
    g
}

#[test]
fn default_responses_follow_transaction_state() {
    let mut g = IdGenerator::new();
    let mut s = S::new();
    let passed = s.begin_transaction(&mut g);
    let failed = s.begin_transaction(&mut g);
    s.mark_failed(failed);
    let unknown = 99;

    for t in [passed, failed] {
        assert_eq!(unit(s.default_response(Command::TransactionRun { transaction_id: t })), Err(transaction_out_of_scope_error()));
        assert_eq!(unit(s.default_response(Command::CommitTransaction { transaction_id: t })), Err(transaction_out_of_scope_error()));
        assert_eq!(unit(s.default_response(Command::CloseTransaction { transaction_id: t })), Ok(()));
    }
    assert_eq!(unit(s.default_response(Command::RollbackTransaction { transaction_id: passed })), Err(transaction_out_of_scope_error()));
    assert_eq!(unit(s.default_response(Command::RollbackTransaction { transaction_id: failed })), Ok(()));
    for c in [
        Command::TransactionRun { transaction_id: unknown },
        Command::CommitTransaction { transaction_id: unknown },
        Command::RollbackTransaction { transaction_id: unknown },
        Command::CloseTransaction { transaction_id: unknown },
    ] {
        assert_eq!(unit(s.default_response(c)), Err(not_found()));
    }
    assert_eq!(s.scope_error(passed), transaction_out_of_scope_error());
    assert_eq!(s.scope_error(unknown), not_found());
}

#[test]
fn failed_transaction_stays_failed() {
    let mut g = IdGenerator::new();
    let mut s = S::new();
    let t = s.begin_transaction(&mut g);
    assert_eq!(s.transaction_state(t), Some(TxFailState::Passed));
    s.mark_failed(t);
    let u = s.begin_transaction(&mut g);
    assert_ne!(t, u);
    assert_eq!(s.transaction_state(t), Some(TxFailState::Failed));
    assert_eq!(s.transaction_state(u), Some(TxFailState::Passed));
}

#[test]
fn unknown_result_is_reported_with_its_id() {
    let mut s = S::new();
    let expected = TestKitError::backend_err("unknown result id 17 in session".to_string());
    match s.answer_from_holders(Command::ResultNext { result_id: 17 }) {
        Reply::Record(r) => assert_eq!(r, Err(expected.clone())),
        other => panic!("{other:?}"),
    }
    match s.answer_from_holders(Command::ResultSingle { result_id: 17 }) {
        Reply::Single(r) => assert_eq!(r, Err(SingleRecordError::Failed(expected.clone()))),
        other => panic!("{other:?}"),
    }
    match s.answer_from_holders(Command::ResultConsume { result_id: 17 }) {
        Reply::Summary(r) => assert_eq!(r, Err(expected)),
        other => panic!("{other:?}"),
    }
}

#[test]
fn auto_commit_result_is_served_from_its_buffer() {
    let mut g = advanced(3);
    let mut s = S::new();
    let id = s.start_auto_commit_result(&mut g, "Q".to_string());
    assert_eq!(id, 3);
    s.buffer_result_stream(id, vec![Ok(10), Ok(20)], Some("sum".to_string()));
    match s.answer_from_holders(Command::ResultNext { result_id: id }) {
        Reply::Record(r) => assert_eq!(r, Ok(Some(10))),
        other => panic!("{other:?}"),
    }
    match s.answer_from_holders(Command::ResultConsume { result_id: id }) {
        Reply::Summary(r) => assert_eq!(r, Ok(("sum".to_string(), "Q".to_string()))),
        other => panic!("{other:?}"),
    }
    match s.answer_from_holders(Command::ResultNext { result_id: id }) {
        Reply::Record(r) => assert_eq!(r, Err(result_consumed_error())),
        other => panic!("{other:?}"),
    }
}

#[test]
fn auto_commit_stream_consumed_on_leave() {
    let mut g = IdGenerator::new();
    let mut s = S::new();
    let id = s.start_auto_commit_result(&mut g, "Q".to_string());
    assert!(s.begin_consume_result_stream(id));
    s.end_consume_result_stream(id, Ok(Some("sum".to_string())));
    match s.answer_from_holders(Command::ResultSingle { result_id: id }) {
        Reply::Single(r) => assert_eq!(r, Err(SingleRecordError::NoRecords)),
        other => panic!("{other:?}"),
    }
}

#[test]
fn ended_transaction_results_are_out_of_scope() {
    let mut g = IdGenerator::new();
    let mut s = S::new();
    let t = s.begin_transaction(&mut g);
    let mut scope: TransactionScope<String, String> = TransactionScope::new(t);
    let r1 = scope.add_stream(&mut g, "A".to_string());
    let r2 = scope.add_stream(&mut g, "B".to_string());
    assert_eq!((r1, r2), (1, 2));
    s.end_transaction_scope(scope);
    for r in [r1, r2] {
        match s.answer_from_holders(Command::ResultNext { result_id: r }) {
            Reply::Record(x) => assert_eq!(x, Err(result_out_of_scope_error())),
            other => panic!("{other:?}"),
        }
        match s.answer_from_holders(Command::ResultConsume { result_id: r }) {
            Reply::Summary(x) => assert_eq!(x, Err(result_out_of_scope_error())),
            other => panic!("{other:?}"),
        }
    }
}

#[test]
fn scope_tracks_streams_and_summaries() {
    let mut g = IdGenerator::new();
    let mut scope: TransactionScope<String, String> = TransactionScope::new(100);
    assert_eq!(scope.id(), 100);
    let r = scope.add_stream(&mut g, "Q".to_string());
    assert_eq!(scope.stream_state(r), Some(true));
    assert!(!scope.has_summary(r));
    assert_eq!(scope.summary(r), None);
    scope.close_stream(r, Some("sum".to_string()));
    assert_eq!(scope.stream_state(r), Some(false));
    assert_eq!(scope.summary(r), Some(("sum".to_string(), "Q".to_string())));
    assert_eq!(scope.stream_state(r + 1), None);
    assert_eq!(scope.into_result_ids(), vec![r]);
}

#[test]
fn idle_steps() {
    assert_eq!(idle_step(Command::AutoCommit), IdleStep::StartAutoCommit);
    assert_eq!(idle_step(Command::BeginTransaction), IdleStep::StartTransaction);
    assert_eq!(idle_step(Command::TransactionFunction), IdleStep::StartTransactionFunction);
    assert_eq!(idle_step(Command::RetryablePositive), IdleStep::Reject(Rejection::RetryableOutsideFunction));
    assert_eq!(idle_step(Command::CommitTransaction { transaction_id: 1 }), IdleStep::DefaultResponse);
    assert_eq!(idle_step(Command::ResultConsume { result_id: 1 }), IdleStep::FromHolders);
    assert_eq!(idle_step(Command::LastBookmarks), IdleStep::SessionBookmarks);
    assert_eq!(idle_step(Command::Close), IdleStep::Close);
}

#[test]
fn auto_commit_steps() {
    assert_eq!(auto_commit_step(5, Command::ResultNext { result_id: 5 }), AutoCommitStep::PullNext);
    assert_eq!(auto_commit_step(5, Command::ResultNext { result_id: 4 }), AutoCommitStep::FromHolders);
    assert_eq!(auto_commit_step(5, Command::ResultSingle { result_id: 5 }), AutoCommitStep::PullSingle);
    assert_eq!(auto_commit_step(5, Command::ResultConsume { result_id: 5 }), AutoCommitStep::ConsumeAndAnswer);
    assert_eq!(auto_commit_step(5, Command::ResultConsume { result_id: 6 }), AutoCommitStep::FromHolders);
    assert_eq!(auto_commit_step(5, Command::RollbackTransaction { transaction_id: 5 }), AutoCommitStep::DefaultResponse);
    assert_eq!(
        auto_commit_step(5, Command::RetryableNegative { error_id: BackendErrorId::ClientError }),
        AutoCommitStep::Reject(Rejection::RetryableOutsideFunction)
    );
    assert_eq!(auto_commit_step(5, Command::LastBookmarks), AutoCommitStep::BufferAndLeave);
    assert_eq!(auto_commit_step(5, Command::AutoCommit), AutoCommitStep::BufferAndLeave);
    assert_eq!(auto_commit_step(5, Command::Close), AutoCommitStep::ConsumeAndLeave);
}

#[test]
fn auto_commit_ends() {
    assert_eq!(auto_commit_end(true, false, Some(Command::AutoCommit)), AutoCommitEnd::Proceed);
    assert_eq!(auto_commit_end(false, false, None), AutoCommitEnd::Proceed);
    assert_eq!(auto_commit_end(false, true, None), AutoCommitEnd::AnswerAutoCommitWithError);
    assert_eq!(auto_commit_end(true, true, Some(Command::LastBookmarks)), AutoCommitEnd::AnswerKeptWithError { stop: false });
    assert_eq!(auto_commit_end(true, true, Some(Command::Close)), AutoCommitEnd::AnswerKeptWithError { stop: true });
}

#[test]
fn explicit_transaction_steps() {
    let mut g = IdGenerator::new();
    let mut s = S::new();
    let t = s.begin_transaction(&mut g);
    let mut scope: TransactionScope<String, String> = TransactionScope::new(t);
    let r = scope.add_stream(&mut g, "Q".to_string());
    let other = r + 10;
    assert_eq!(transaction_step(&s, &scope, Command::TransactionRun { transaction_id: t }), TxStep::Run);
    assert_eq!(transaction_step(&s, &scope, Command::TransactionRun { transaction_id: other }), TxStep::DefaultResponse);
    assert_eq!(transaction_step(&s, &scope, Command::ResultNext { result_id: r }), TxStep::PullNext);
    assert_eq!(transaction_step(&s, &scope, Command::ResultSingle { result_id: r }), TxStep::PullSingle);
    assert_eq!(transaction_step(&s, &scope, Command::ResultNext { result_id: other }), TxStep::FromHolders);
    assert_eq!(transaction_step(&s, &scope, Command::ResultConsume { result_id: r }), TxStep::ConsumeStream);
    assert_eq!(transaction_step(&s, &scope, Command::CommitTransaction { transaction_id: t }), TxStep::Commit);
    assert_eq!(transaction_step(&s, &scope, Command::RollbackTransaction { transaction_id: t }), TxStep::Rollback);
    assert_eq!(transaction_step(&s, &scope, Command::CloseTransaction { transaction_id: t }), TxStep::Rollback);
    assert_eq!(transaction_step(&s, &scope, Command::CloseTransaction { transaction_id: other }), TxStep::DefaultResponse);
    assert_eq!(transaction_step(&s, &scope, Command::LastBookmarks), TxStep::BufferedBookmarks);
    assert_eq!(transaction_step(&s, &scope, Command::BeginTransaction), TxStep::Reject(Rejection::SessionBusy));
    assert_eq!(transaction_step(&s, &scope, Command::RetryablePositive), TxStep::Reject(Rejection::RetryableOutsideFunction));
    assert_eq!(transaction_step(&s, &scope, Command::Close), TxStep::Leave);

    scope.close_stream(r, Some("sum".to_string()));
    assert_eq!(transaction_step(&s, &scope, Command::ResultNext { result_id: r }), TxStep::Reject(Rejection::ResultConsumed));
    assert_eq!(transaction_step(&s, &scope, Command::ResultConsume { result_id: r }), TxStep::ReportSummary);

    s.mark_failed(t);
    assert_eq!(transaction_step(&s, &scope, Command::AutoCommit), TxStep::Abandon);
    assert_eq!(transaction_step(&s, &scope, Command::TransactionFunction), TxStep::Abandon);
}

#[test]
fn explicit_transaction_ends() {
    assert_eq!(transaction_end(false, true, None), TransactionEnd::AnswerBeginWithError);
    assert_eq!(transaction_end(true, true, Some(Command::TransactionRun { transaction_id: 1 })), TransactionEnd::AnswerRunWithError);
    assert_eq!(transaction_end(true, false, Some(Command::CommitTransaction { transaction_id: 1 })), TransactionEnd::AnswerKeptWithOutcome);
    assert_eq!(transaction_end(true, true, Some(Command::RollbackTransaction { transaction_id: 1 })), TransactionEnd::AnswerKeptWithOutcome);
    assert_eq!(transaction_end(true, false, Some(Command::Close)), TransactionEnd::CloseWithOutcome);
    assert_eq!(transaction_end(true, false, Some(Command::BeginTransaction)), TransactionEnd::Proceed);
}

#[test]
fn function_steps() {
    let mut g = IdGenerator::new();
    let mut scope: TransactionScope<String, String> = TransactionScope::new(0);
    g.next_id();
    let r = scope.add_stream(&mut g, "Q".to_string());
    let mut tracker: TransactionFunctionStateTracker<String> = TransactionFunctionStateTracker::new();
    assert_eq!(function_step(&scope, &tracker, Command::TransactionRun { transaction_id: 0 }), TxStep::Run);
    assert_eq!(function_step(&scope, &tracker, Command::TransactionRun { transaction_id: 7 }), TxStep::ScopeErrorTracked);
    assert_eq!(function_step(&scope, &tracker, Command::ResultNext { result_id: r }), TxStep::PullNext);
    assert_eq!(function_step(&scope, &tracker, Command::ResultConsume { result_id: r }), TxStep::ConsumeStream);
    assert_eq!(function_step(&scope, &tracker, Command::CommitTransaction { transaction_id: 0 }), TxStep::Reject(Rejection::CommitInFunction));
    assert_eq!(function_step(&scope, &tracker, Command::RollbackTransaction { transaction_id: 0 }), TxStep::Reject(Rejection::RollbackInFunction));
    assert_eq!(function_step(&scope, &tracker, Command::CloseTransaction { transaction_id: 0 }), TxStep::Reject(Rejection::CloseInFunction));
    assert_eq!(function_step(&scope, &tracker, Command::CloseTransaction { transaction_id: 9 }), TxStep::DefaultResponse);
    assert_eq!(function_step(&scope, &tracker, Command::BeginTransaction), TxStep::Reject(Rejection::SessionBusy));
    assert_eq!(function_step(&scope, &tracker, Command::RetryablePositive), TxStep::Commit);
    assert_eq!(function_step(&scope, &tracker, Command::RetryableNegative { error_id: BackendErrorId::ClientError }), TxStep::Rollback);
    assert_eq!(function_step(&scope, &tracker, Command::Close), TxStep::Leave);

    let _ = tracker.wrap_neo4j_error(&mut g, "driver failure".to_string(), transaction_out_of_scope_error());
    assert_eq!(function_step(&scope, &tracker, Command::TransactionRun { transaction_id: 0 }), TxStep::RejectTracked(Rejection::TransactionOutOfScope));
    assert_eq!(function_step(&scope, &tracker, Command::ResultNext { result_id: r }), TxStep::RejectTracked(Rejection::TransactionOutOfScope));
    assert_eq!(function_step(&scope, &tracker, Command::ResultSingle { result_id: r }), TxStep::RejectTracked(Rejection::TransactionOutOfScope));
    assert_eq!(function_step(&scope, &tracker, Command::ResultConsume { result_id: r }), TxStep::Reject(Rejection::TransactionOutOfScope));
    assert_eq!(function_step(&scope, &tracker, Command::ResultConsume { result_id: r + 5 }), TxStep::FromHolders);
}

#[test]
fn function_ends() {
    assert_eq!(function_end(Some(Command::RetryablePositive)), FunctionEnd::AnswerKept);
    assert_eq!(function_end(Some(Command::TransactionFunction)), FunctionEnd::AnswerKept);
    assert_eq!(function_end(Some(Command::Close)), FunctionEnd::CloseWithOutcome);
}

#[test]
fn rejection_errors() {
    assert_eq!(rejection_error(Rejection::SessionBusy), session_already_executing_tx_error());
    assert_eq!(rejection_error(Rejection::ResultConsumed), result_consumed_error());
    assert_eq!(rejection_error(Rejection::TransactionOutOfScope), transaction_out_of_scope_error());
    assert_eq!(
        rejection_error(Rejection::RetryableOutsideFunction),
        TestKitError::backend_err("retryable commands not supported outside transaction function".to_string())
    );
    assert_eq!(
        rejection_error(Rejection::CommitInFunction),
        TestKitError::backend_err("explicit commit not supported in transaction function".to_string())
    );
    assert_eq!(
        rejection_error(Rejection::RollbackInFunction),
        TestKitError::backend_err("explicit rollback not supported in transaction function".to_string())
    );
    assert_eq!(
        rejection_error(Rejection::CloseInFunction),
        TestKitError::backend_err("explicit close not supported in transaction function".to_string())
    );
}

#[test]
fn wrapped_driver_error_is_handed_back_by_id() {
    let mut g = advanced(10);
    let mut tracker: TransactionFunctionStateTracker<String> = TransactionFunctionStateTracker::new();
    assert!(!tracker.failed());
    let reported = TestKitError::DriverError {
        error_type: "Neo4jError".to_string(),
        msg: "boom".to_string(),
        code: None,
        id: None,
        retryable: true,
    };
    let e = tracker.wrap_neo4j_error(&mut g, "boom".to_string(), reported);
    assert!(tracker.failed());
    assert_eq!(e.get_id(), Some(10));
    // a later backend error gets its own id and does not disturb the first
    let later = tracker.wrap_testkit_error(&mut g, transaction_out_of_scope_error());
    assert_eq!(later.get_id(), Some(11));
    match tracker.into_error(10) {
        TransactionFunctionError::Neo4j(d) => assert_eq!(d, "boom"),
        other => panic!("{other:?}"),
    }
}

#[test]
fn wrapped_testkit_error_is_handed_back_by_id() {
    let mut g = IdGenerator::new();
    let mut tracker: TransactionFunctionStateTracker<String> = TransactionFunctionStateTracker::new();
    let e = tracker.wrap_testkit_error(&mut g, result_consumed_error());
    assert!(!tracker.failed());
    let mut expected = result_consumed_error();
    expected.set_id(0);
    assert_eq!(e, expected);
    // an error that cannot carry an id is neither numbered nor kept
    let b = tracker.wrap_testkit_error(&mut g, TestKitError::backend_err("b".to_string()));
    assert_eq!(b, TestKitError::backend_err("b".to_string()));
    assert_eq!(g.peek(), 1);
    match tracker.into_error(0) {
        TransactionFunctionError::TestKit(k) => assert_eq!(k, expected),
        other => panic!("{other:?}"),
    }
}

#[test]
fn unknown_error_id_is_a_backend_error() {
    let tracker: TransactionFunctionStateTracker<String> = TransactionFunctionStateTracker::new();
    match tracker.into_error(42) {
        TransactionFunctionError::TestKit(k) => {
            assert_eq!(k, TestKitError::backend_err("Unknown error with id 42 found".to_string()))
        }
        other => panic!("{other:?}"),
    }
}

#[test]
fn rollback_outcomes() {
    let mut g = IdGenerator::new();
    let mut tracker: TransactionFunctionStateTracker<String> = TransactionFunctionStateTracker::new();
    let e = tracker.wrap_neo4j_error(&mut g, "driver".to_string(), result_consumed_error());
    let id = e.get_id().unwrap();
    assert_eq!(rollback_outcome(tracker, BackendErrorId::BackendError(id)), Err("driver".to_string()));

    let mut tracker: TransactionFunctionStateTracker<String> = TransactionFunctionStateTracker::new();
    let k = tracker.wrap_testkit_error(&mut g, transaction_out_of_scope_error());
    let kid = k.get_id().unwrap();
    assert_eq!(rollback_outcome(tracker, BackendErrorId::BackendError(kid)), Ok(Err(k)));

    let tracker: TransactionFunctionStateTracker<String> = TransactionFunctionStateTracker::new();
    assert_eq!(
        rollback_outcome(tracker, BackendErrorId::ClientError),
        Ok(Err(TestKitError::frontend_err("Client said no!".to_string())))
    );
    let tracker: TransactionFunctionStateTracker<String> = TransactionFunctionStateTracker::new();
    assert_eq!(
        rollback_outcome(tracker, BackendErrorId::BackendError(3)),
        Ok(Err(TestKitError::backend_err("Unknown error with id 3 found".to_string())))
    );
}
