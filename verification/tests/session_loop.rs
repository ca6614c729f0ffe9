use testkit_backend::ids::IdGenerator;
use testkit_backend::run::{LoopMode, SessionLoop};
use testkit_backend::scope::TransactionScope;
use testkit_backend::session::{BackendErrorId, Command, Session};
use testkit_backend::steps::{AutoCommitEnd, AutoCommitStep, FunctionEnd, IdleStep, TransactionEnd, TxStep};
use testkit_backend::tracker::TransactionFunctionStateTracker;

type S = Session<u32, String, String>;

#[test]
fn idle_requests_are_answered_and_close_stops() {
    let mut lp = SessionLoop::new();
    let (c, step) = lp.idle_next(Some(Command::ResultNext { result_id: 3 }));
    assert_eq!((c, step), (Command::ResultNext { result_id: 3 }, IdleStep::FromHolders));
    assert_eq!(lp.mode(), LoopMode::Idle);
    let (_, step) = lp.idle_next(Some(Command::Close));
    assert_eq!(step, IdleStep::Close);
    assert_eq!(lp.mode(), LoopMode::Stopped);
}

#[test]
fn auto_commit_keeps_the_request_that_ends_it() {
    let mut lp = SessionLoop::new();
    let (_, step) = lp.idle_next(Some(Command::AutoCommit));
    assert_eq!(step, IdleStep::StartAutoCommit);
    assert_eq!(lp.mode(), LoopMode::StartingAutoCommit);
    lp.auto_commit_started(7);
    assert_eq!(lp.auto_commit_next(Command::ResultNext { result_id: 7 }), AutoCommitStep::PullNext);
    assert_eq!(lp.auto_commit_next(Command::BeginTransaction), AutoCommitStep::BufferAndLeave);
    assert_eq!(lp.kept(), Some(Command::BeginTransaction));
    assert_eq!(lp.auto_commit_over(false), AutoCommitEnd::Proceed);
    assert_eq!(lp.mode(), LoopMode::Idle);
    // the kept request is decided again when idle
    let (c, step) = lp.idle_next(None);
    assert_eq!((c, step), (Command::BeginTransaction, IdleStep::StartTransaction));
    assert_eq!(lp.transaction_over(true), TransactionEnd::AnswerBeginWithError);
    assert_eq!(lp.mode(), LoopMode::Idle);
}

#[test]
fn auto_commit_failing_while_streaming_answers_kept_close() {
    let mut lp = SessionLoop::new();
    lp.idle_next(Some(Command::AutoCommit));
    lp.auto_commit_started(1);
    assert_eq!(lp.auto_commit_next(Command::Close), AutoCommitStep::ConsumeAndLeave);
    assert_eq!(lp.auto_commit_over(true), AutoCommitEnd::AnswerKeptWithError { stop: true });
    assert_eq!(lp.mode(), LoopMode::Stopped);
    assert_eq!(lp.kept(), None);
}

#[test]
fn explicit_transaction_commit_is_answered_at_the_end() {
    let mut g = IdGenerator::new();
    let mut s = S::new();
    let mut lp = SessionLoop::new();
    lp.idle_next(Some(Command::BeginTransaction));
    let t = s.begin_transaction(&mut g);
    lp.transaction_started();
    let scope: TransactionScope<String, String> = TransactionScope::new(t);
    assert_eq!(lp.transaction_next(&s, &scope, Command::TransactionRun { transaction_id: t }), TxStep::Run);
    assert_eq!(lp.mode(), LoopMode::Transaction);
    assert_eq!(lp.transaction_next(&s, &scope, Command::CommitTransaction { transaction_id: t }), TxStep::Commit);
    assert_eq!(lp.mode(), LoopMode::EndingTransaction);
    assert_eq!(lp.transaction_over(false), TransactionEnd::AnswerKeptWithOutcome);
    assert_eq!(lp.kept(), None);
    assert_eq!(lp.mode(), LoopMode::Idle);
}

#[test]
fn transaction_function_retries_then_closes() {
    let mut g = IdGenerator::new();
    let mut lp = SessionLoop::new();
    let (_, step) = lp.idle_next(Some(Command::TransactionFunction));
    assert_eq!(step, IdleStep::StartTransactionFunction);
    assert_eq!(lp.kept(), Some(Command::TransactionFunction));
    assert_eq!(lp.attempt_started(), Command::TransactionFunction);
    let scope: TransactionScope<String, String> = TransactionScope::new(g.next_id());
    let tracker: TransactionFunctionStateTracker<&str> = TransactionFunctionStateTracker::new();
    let negative = Command::RetryableNegative { error_id: BackendErrorId::ClientError };
    assert_eq!(lp.attempt_next(&scope, &tracker, negative), TxStep::Rollback);
    assert_eq!(lp.mode(), LoopMode::EndingAttempt);
    // a retry answers the kept retry request
    assert_eq!(lp.attempt_started(), negative);
    assert_eq!(lp.attempt_next(&scope, &tracker, Command::Close), TxStep::Leave);
    assert_eq!(lp.function_over(), FunctionEnd::CloseWithOutcome);
    assert_eq!(lp.mode(), LoopMode::Stopped);
}
