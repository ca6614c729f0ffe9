use testkit_backend::attempt::{DriverError, SingleReadFailure};
use testkit_backend::errors::{result_consumed_error, TestKitError};
use testkit_backend::ids::IdGenerator;
use testkit_backend::record_buffer::{stream_read, RecordBuffer};
use testkit_backend::scope::TransactionScope;
use testkit_backend::session::{Command, Reply, Session, TxFailState};
use testkit_backend::tracker::{TransactionFunctionError, TransactionFunctionStateTracker};

type S = Session<u32, String, String>;
type Tracker = TransactionFunctionStateTracker<&'static str>;

fn failure(msg: &str) -> TestKitError {
    TestKitError::backend_err(msg.to_string())
}

fn driver(error: &'static str) -> DriverError<&'static str> {
    DriverError { error, reported: result_consumed_error() }
}

fn with_id(id: usize) -> TestKitError {
    let mut e = result_consumed_error();
    e.set_id(id);
    e
}

#[test]
fn ending_a_transaction_fails_it_only_on_error() {
    let mut g = IdGenerator::new();
    let mut s = S::new();
    let t = s.begin_transaction(&mut g);
    assert_eq!(s.end_outcome::<(), &str>(t, Ok(())), Ok(()));
    assert_eq!(s.transaction_state(t), Some(TxFailState::Passed));
    assert_eq!(s.end_outcome::<(), &str>(t, Err("commit failed")), Err("commit failed"));
    assert_eq!(s.transaction_state(t), Some(TxFailState::Failed));
    // a failed transaction can then be rolled back, but not committed
    match s.default_response(Command::RollbackTransaction { transaction_id: t }) {
        Reply::Done { to } => assert_eq!(to, Command::RollbackTransaction { transaction_id: t }),
        other => panic!("{other:?}"),
    }
}

#[test]
fn attempt_record_read_reports_driver_failures() {
    let mut g = IdGenerator::new();
    let mut s = S::new();
    let t = s.begin_transaction(&mut g);
    let mut tracker = Tracker::new();
    assert_eq!(s.attempt_record_read(&mut tracker, &mut g, t, Some(Ok(4))), Ok(Some(4)));
    assert_eq!(s.attempt_record_read(&mut tracker, &mut g, t, None), Ok(None));
    assert!(!tracker.failed());
    assert_eq!(s.transaction_state(t), Some(TxFailState::Passed));
    assert_eq!(s.attempt_record_read(&mut tracker, &mut g, t, Some(Err(driver("lost")))), Err(with_id(1)));
    assert!(tracker.failed());
    assert_eq!(s.transaction_state(t), Some(TxFailState::Failed));
    match tracker.into_error(1) {
        TransactionFunctionError::Neo4j(e) => assert_eq!(e, "lost"),
        other => panic!("{other:?}"),
    }
}

#[test]
fn attempt_single_miss_fails_attempt_not_transaction() {
    let mut g = IdGenerator::new();
    let mut s = S::new();
    let t = s.begin_transaction(&mut g);
    let mut tracker = Tracker::new();
    assert_eq!(s.attempt_single_read(&mut tracker, &mut g, t, Ok(8)), Ok(8));
    let r = s.attempt_single_read(&mut tracker, &mut g, t, Err(SingleReadFailure::Missed(driver("none"))));
    assert_eq!(r, Err(with_id(1)));
    assert!(tracker.failed());
    assert_eq!(s.transaction_state(t), Some(TxFailState::Passed));
    let r = s.attempt_single_read(&mut tracker, &mut g, t, Err(SingleReadFailure::Failed(driver("io"))));
    assert_eq!(r, Err(with_id(2)));
    assert_eq!(s.transaction_state(t), Some(TxFailState::Failed));
}

#[test]
fn attempt_query_outcome_draws_one_id() {
    let mut g = IdGenerator::new();
    let mut s = S::new();
    let t = s.begin_transaction(&mut g);
    let mut scope: TransactionScope<String, String> = TransactionScope::new(t);
    let mut tracker = Tracker::new();
    assert_eq!(s.attempt_query_outcome(&mut scope, &mut tracker, &mut g, Ok("Q".to_string())), Ok(1));
    assert_eq!(scope.stream_state(1), Some(true));
    assert_eq!(s.attempt_query_outcome(&mut scope, &mut tracker, &mut g, Err(driver("syntax"))), Err(with_id(2)));
    assert_eq!(g.peek(), 3);
    assert_eq!(s.transaction_state(t), Some(TxFailState::Failed));
    assert!(tracker.failed());
}

#[test]
fn attempt_stream_consumed_reports_through_tracker() {
    let mut g = IdGenerator::new();
    let mut s = S::new();
    let t = s.begin_transaction(&mut g);
    let mut scope: TransactionScope<String, String> = TransactionScope::new(t);
    let mut tracker = Tracker::new();
    let a = scope.add_stream(&mut g, "A".to_string());
    let b = scope.add_stream(&mut g, "B".to_string());
    match s.attempt_stream_consumed(&mut scope, &mut tracker, &mut g, a, Ok("sum".to_string())) {
        Reply::Summary(r) => assert_eq!(r, Ok(("sum".to_string(), "A".to_string()))),
        other => panic!("{other:?}"),
    }
    assert!(!tracker.failed());
    match s.attempt_stream_consumed(&mut scope, &mut tracker, &mut g, b, Err(driver("gone"))) {
        Reply::Summary(r) => assert_eq!(r, Err(with_id(3))),
        other => panic!("{other:?}"),
    }
    assert!(tracker.failed());
    assert_eq!(s.transaction_state(t), Some(TxFailState::Failed));
}

#[test]
fn tracker_fails_only_after_a_driver_error() {
    let mut g = IdGenerator::new();
    let mut tracker = Tracker::new();
    tracker.wrap_testkit_error(&mut g, failure("a"));
    tracker.wrap_testkit_error(&mut g, result_consumed_error());
    assert!(!tracker.failed());
    tracker.wrap_neo4j_error(&mut g, "d", result_consumed_error());
    assert!(tracker.failed());
    tracker.wrap_testkit_error(&mut g, result_consumed_error());
    assert!(tracker.failed());
}

#[test]
fn buffered_reads_match_streamed_reads() {
    let streamed: Vec<Result<u32, TestKitError>> = vec![Ok(1), Err(failure("x")), Ok(3)];
    let direct: Vec<_> = streamed
        .iter()
        .cloned()
        .map(|r| stream_read(Some(r)))
        .chain(std::iter::once(stream_read::<u32>(None)))
        .collect();
    let mut b: RecordBuffer<u32, String, String> = RecordBuffer::new_auto_commit("Q".to_string());
    b.buffer_record_stream(streamed, Some("sum".to_string()));
    let from_buffer: Vec<_> = (0..4).map(|_| b.next()).collect();
    assert_eq!(direct, from_buffer);
}

#[test]
fn consume_twice_gives_equal_answers() {
    let mut b: RecordBuffer<u32, String, String> = RecordBuffer::new_auto_commit("Q".to_string());
    b.buffer_record_stream(vec![Ok(1)], None);
    let first = b.consume();
    assert_eq!(first, b.consume());
    let mut c: RecordBuffer<u32, String, String> = RecordBuffer::new_auto_commit("Q".to_string());
    c.buffer_record_stream(vec![Ok(1), Err(failure("f"))], Some("s".to_string()));
    let first = c.consume();
    assert_eq!(first, Err(failure("f")));
    assert_eq!(first, c.consume());
}
