use testkit_backend::errors::{result_consumed_error, result_out_of_scope_error, TestKitError};
use testkit_backend::tracker::{TransactionFunctionError, TransactionFunctionStateTracker};
use testkit_backend::ids::IdGenerator;
use testkit_backend::record_buffer::SingleRecordError;
use testkit_backend::scope::TransactionScope;
use testkit_backend::session::{reply_error, Command, Reply, Session, TxFailState};
use testkit_backend::steps::{
    can_end_function, can_end_transaction, can_start_attempt, transaction_step, Rejection, TxStep,
};

type S = Session<u32, String, String>;
type Scope = TransactionScope<String, String>;

fn failure(msg: &str) -> TestKitError {
    TestKitError::backend_err(msg.to_string())
}

#[test]
fn reply_error_takes_the_form_of_the_request() {
    let e = failure("e");
    match reply_error::<u32, String, String>(Command::ResultNext { result_id: 1 }, e.clone()) {
        Reply::Record(r) => assert_eq!(r, Err(e.clone())),
        other => panic!("{other:?}"),
    }
    match reply_error::<u32, String, String>(Command::ResultSingle { result_id: 1 }, e.clone()) {
        Reply::Single(r) => assert_eq!(r, Err(SingleRecordError::Failed(e.clone()))),
        other => panic!("{other:?}"),
    }
    match reply_error::<u32, String, String>(Command::ResultConsume { result_id: 1 }, e.clone()) {
        Reply::Summary(r) => assert_eq!(r, Err(e.clone())),
        other => panic!("{other:?}"),
    }
    match reply_error::<u32, String, String>(Command::BeginTransaction, e.clone()) {
        Reply::Error { to, error } => {
            assert_eq!(to, Command::BeginTransaction);
            assert_eq!(error, e);
        }
        other => panic!("{other:?}"),
    }
}

#[test]
fn query_in_transaction_gets_a_fresh_result() {
    let mut g = IdGenerator::new();
    let mut s = S::new();
    let t = s.begin_transaction(&mut g);
    let mut scope = Scope::new(t);
    assert_eq!(s.query_outcome(&mut scope, &mut g, Ok("Q".to_string())), Ok(1));
    assert_eq!(scope.stream_state(1), Some(true));
    assert_eq!(s.transaction_state(t), Some(TxFailState::Passed));
}

#[test]
fn failed_query_fails_the_transaction() {
    let mut g = IdGenerator::new();
    let mut s = S::new();
    let t = s.begin_transaction(&mut g);
    let mut scope = Scope::new(t);
    assert_eq!(s.query_outcome(&mut scope, &mut g, Err(failure("bad query"))), Err(failure("bad query")));
    assert_eq!(g.peek(), 1);
    assert_eq!(s.transaction_state(t), Some(TxFailState::Failed));
    // the session leaves a failed transaction when a new one is asked for
    assert_eq!(transaction_step(&s, &scope, Command::BeginTransaction), TxStep::Abandon);
}

#[test]
fn consumed_stream_reports_its_summary() {
    let mut g = IdGenerator::new();
    let mut s = S::new();
    let t = s.begin_transaction(&mut g);
    let mut scope = Scope::new(t);
    let r = s.query_outcome(&mut scope, &mut g, Ok("Q".to_string())).unwrap();
    match s.stream_consumed(&mut scope, r, Ok("sum".to_string())) {
        Reply::Summary(x) => assert_eq!(x, Ok(("sum".to_string(), "Q".to_string()))),
        other => panic!("{other:?}"),
    }
    assert_eq!(transaction_step(&s, &scope, Command::ResultConsume { result_id: r }), TxStep::ReportSummary);
    match s.report_summary(&scope, r) {
        Reply::Summary(x) => assert_eq!(x, Ok(("sum".to_string(), "Q".to_string()))),
        other => panic!("{other:?}"),
    }
    assert_eq!(transaction_step(&s, &scope, Command::ResultNext { result_id: r }), TxStep::Reject(Rejection::ResultConsumed));
}

#[test]
fn failed_consumption_fails_the_transaction() {
    let mut g = IdGenerator::new();
    let mut s = S::new();
    let t = s.begin_transaction(&mut g);
    let mut scope = Scope::new(t);
    let r = s.query_outcome(&mut scope, &mut g, Ok("Q".to_string())).unwrap();
    match s.stream_consumed(&mut scope, r, Err(failure("lost"))) {
        Reply::Summary(x) => assert_eq!(x, Err(failure("lost"))),
        other => panic!("{other:?}"),
    }
    assert_eq!(s.transaction_state(t), Some(TxFailState::Failed));
    assert_eq!(scope.stream_state(r), Some(false));
    // without a summary the request goes to the buffers, which do not know the result yet
    match s.report_summary(&scope, r) {
        Reply::Summary(x) => assert_eq!(x, Err(failure(&format!("unknown result id {r} in session")))),
        other => panic!("{other:?}"),
    }
    s.end_transaction_scope(scope);
    match s.report_summary(&Scope::new(t), r) {
        Reply::Summary(x) => assert_eq!(x, Err(result_out_of_scope_error())),
        other => panic!("{other:?}"),
    }
}

#[test]
fn auto_commit_buffer_is_recognised() {
    let mut g = IdGenerator::new();
    let mut s = S::new();
    let id = s.start_auto_commit_result(&mut g, "Q".to_string());
    assert!(s.holds_auto_commit(id));
    assert!(!s.holds_auto_commit(id + 1));
    let t = s.begin_transaction(&mut g);
    let mut scope = Scope::new(t);
    let r = scope.add_stream(&mut g, "Q".to_string());
    s.end_transaction_scope(scope);
    assert!(!s.holds_auto_commit(r));
}

#[test]
fn end_checks() {
    assert!(can_end_transaction(false, true, None));
    assert!(!can_end_transaction(false, false, None));
    assert!(!can_end_transaction(true, false, Some(Command::TransactionRun { transaction_id: 0 })));
    assert!(!can_end_transaction(true, true, Some(Command::AutoCommit)));
    assert!(!can_end_transaction(true, false, None));
    assert!(can_end_transaction(true, true, Some(Command::Close)));
    assert!(can_end_function(Some(Command::Close)));
    assert!(!can_end_function(Some(Command::LastBookmarks)));
    assert!(!can_end_function(None));
    assert!(can_start_attempt(Some(Command::TransactionFunction)));
    assert!(!can_start_attempt(Some(Command::Close)));
}

#[test]
fn failed_record_read_fails_the_transaction() {
    let mut g = IdGenerator::new();
    let mut s = S::new();
    let t = s.begin_transaction(&mut g);
    assert_eq!(s.record_read(t, Some(Ok(5))), Ok(Some(5)));
    assert_eq!(s.record_read(t, None), Ok(None));
    assert_eq!(s.transaction_state(t), Some(TxFailState::Passed));
    assert_eq!(s.record_read(t, Some(Err(failure("broken")))), Err(failure("broken")));
    assert_eq!(s.transaction_state(t), Some(TxFailState::Failed));
}

#[test]
fn single_read_fails_the_transaction_only_on_a_read_failure() {
    let mut g = IdGenerator::new();
    let mut s = S::new();
    let t = s.begin_transaction(&mut g);
    assert_eq!(s.single_read(t, Ok(Ok(1))), Ok(1));
    assert_eq!(s.single_read(t, Err(SingleRecordError::NoRecords)), Err(SingleRecordError::NoRecords));
    assert_eq!(s.single_read(t, Err(SingleRecordError::TooManyRecords)), Err(SingleRecordError::TooManyRecords));
    assert_eq!(s.transaction_state(t), Some(TxFailState::Passed));
    assert_eq!(s.single_read(t, Ok(Err(failure("x")))), Err(SingleRecordError::Failed(failure("x"))));
    assert_eq!(s.transaction_state(t), Some(TxFailState::Failed));
}

#[test]
fn attempt_failure_is_kept_by_the_tracker() {
    let mut g = IdGenerator::new();
    let mut s = S::new();
    let t = s.begin_transaction(&mut g);
    let mut tracker: TransactionFunctionStateTracker<&'static str> = TransactionFunctionStateTracker::new();
    let e = s.attempt_failed(&mut tracker, &mut g, t, "driver", result_consumed_error());
    assert_eq!(e.get_id(), Some(1));
    assert!(tracker.failed());
    assert_eq!(s.transaction_state(t), Some(TxFailState::Failed));
    match tracker.into_error(1) {
        TransactionFunctionError::Neo4j(d) => assert_eq!(d, "driver"),
        other => panic!("{other:?}"),
    }
}
