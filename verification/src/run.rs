use vstd::prelude::*;
use crate::ids::BackendId;
use crate::scope::TransactionScope;
use crate::session::{Command, Session};
use crate::steps::{
    AutoCommitEnd, AutoCommitStep, FunctionEnd, IdleStep, TransactionEnd, TxStep,
    auto_commit_decision, auto_commit_end, auto_commit_end_decision, auto_commit_step,
    auto_commit_step_keeps_request, attempt_start_possible, function_decision, function_end,
    function_end_possible, function_step, idle_decision, idle_step, transaction_decision,
    transaction_end, transaction_end_decision, transaction_end_possible, transaction_step,
    tx_step_keeps_request,
};
use crate::tracker::TransactionFunctionStateTracker;

verus! {

/// Where the session loop stands.
#[derive(Debug, Clone, Copy, PartialEq, Eq, Structural)]
pub enum LoopMode {
    /// No transaction and no auto-commit stream is open.
    Idle,
    /// An auto-commit query was asked for; its stream has not begun.
    StartingAutoCommit,
    /// The stream of the auto-commit result `stream_id` is read.
    AutoCommit { stream_id: BackendId },
    /// The auto-commit query is ending.
    EndingAutoCommit,
    /// A transaction was asked for; it has not begun.
    StartingTransaction,
    /// An explicit transaction runs.
    Transaction,
    /// The explicit transaction is ending.
    EndingTransaction,
    /// A transaction function was asked for; no attempt has begun.
    StartingFunction,
    /// An attempt of the transaction function runs.
    Attempt,
    /// The attempt is over; another may begin, or the function ends.
    EndingAttempt,
    /// The session closed.
    Stopped,
}

/// What the session loop holds: where it stands, the request kept for
/// later, the request that started a mode and waits for its answer, and, as
/// a record, the requests read so far and the requests answered so far, in
/// order.
pub struct LoopView {
    pub mode: LoopMode,
    pub kept: Option<Command>,
    pub starting: Option<Command>,
    pub received: Seq<Command>,
    pub answered: Seq<Command>,
}

/// The request read but not answered yet, if any: the one kept for later,
/// or the one that started a mode.
pub open spec fn unanswered(v: LoopView) -> Option<Command> {
    if v.kept is Some {
        v.kept
    } else {
        v.starting
    }
}

/// How a loop's state hangs together: at most one request is unanswered,
/// and it is the last one read; every other request read was answered
/// once, in the order read; a stopped loop has answered everything, the
/// last request being the close.
pub open spec fn loop_inv(v: LoopView) -> bool {
    &&& !(v.kept is Some && v.starting is Some)
    &&& match unanswered(v) {
        Some(c) => v.received.len() > 0 && v.received.last() == c && v.answered
            == v.received.drop_last(),
        None => v.answered == v.received,
    }
    &&& match v.mode {
        LoopMode::Idle => v.starting is None,
        LoopMode::StartingAutoCommit => v.kept is None && v.starting == Some(Command::AutoCommit),
        LoopMode::AutoCommit { .. } => v.kept is None && v.starting is None,
        LoopMode::EndingAutoCommit => v.starting is None,
        LoopMode::StartingTransaction => v.kept is None && v.starting == Some(
            Command::BeginTransaction,
        ),
        LoopMode::Transaction => v.kept is None && v.starting is None,
        LoopMode::EndingTransaction => v.starting is None,
        LoopMode::StartingFunction => v.starting is None && v.kept == Some(
            Command::TransactionFunction,
        ),
        LoopMode::Attempt => v.kept is None && v.starting is None,
        LoopMode::EndingAttempt => v.starting is None,
        LoopMode::Stopped => v.kept is None && v.starting is None && v.received.len() > 0
            && v.received.last() == Command::Close,
    }
}

/// The requests read after `v`'s, with `c` read now, unless it is the
/// kept one.
pub open spec fn read_now(v: LoopView, incoming: Option<Command>) -> Seq<Command> {
    match incoming {
        Some(c) => v.received.push(c),
        None => v.received,
    }
}

/// The session loop: which mode the session is in, which request it keeps
/// for later, and which request waits for the answer to the start of its
/// mode. It decides each request through the steps of its mode; the caller
/// does the driver work and sends one answer for each request the loop
/// marks answered.
pub struct SessionLoop {
    mode: LoopMode,
    kept: Option<Command>,
    starting: Option<Command>,
    received: Ghost<Seq<Command>>,
    answered: Ghost<Seq<Command>>,
}

impl View for SessionLoop {
    type V = LoopView;

    closed spec fn view(&self) -> LoopView {
        LoopView {
            mode: self.mode,
            kept: self.kept,
            starting: self.starting,
            received: self.received@,
            answered: self.answered@,
        }
    }
}

/// Once the loop holds together, each request read is answered exactly
/// once and in the order read, except the last one while it waits (kept
/// for later, or starting a mode); a stopped loop has answered every
/// request, and its last request was the close.
pub proof fn lemma_one_answer_per_request(v: LoopView)
    requires
        loop_inv(v),
    ensures
        v.answered == v.received || (v.received.len() > 0 && v.answered
            == v.received.drop_last() && unanswered(v) == Some(v.received.last())),
        unanswered(v) is None ==> v.answered == v.received,
        v.mode is Stopped ==> v.answered == v.received && v.received.last() == Command::Close,
{
}

/// Answering the last request read answers everything read.
proof fn lemma_answer_last(s: Seq<Command>)
    requires
        s.len() > 0,
    ensures
        s.drop_last().push(s.last()) == s,
{
    assert(s.drop_last().push(s.last()) =~= s);
}

impl SessionLoop {
    /// A loop that is idle and has read nothing.
    pub fn new() -> (l: Self)
        ensures
            l@.mode == LoopMode::Idle,
            l@.kept is None,
            l@.starting is None,
            l@.received == Seq::<Command>::empty(),
            l@.answered == Seq::<Command>::empty(),
            loop_inv(l@),
    {
        SessionLoop {
            mode: LoopMode::Idle,
            kept: None,
            starting: None,
            received: Ghost(Seq::empty()),
            answered: Ghost(Seq::empty()),
        }
    }

    /// Where the loop stands.
    pub fn mode(&self) -> (m: LoopMode)
        ensures
            m == self@.mode,
    {
        self.mode
    }

    /// The request kept for later, if any.
    pub fn kept(&self) -> (k: Option<Command>)
        ensures
            k == self@.kept,
    {
        self.kept
    }

    /// Takes the request to decide: the kept one, if any, else `incoming`.
    fn take(&mut self, incoming: Option<Command>) -> (c: Command)
        requires
            incoming is None <==> old(self)@.kept is Some,
        ensures
            c == match incoming {
                Some(i) => i,
                None => old(self)@.kept->0,
            },
            final(self)@.kept is None,
            final(self)@.mode == old(self)@.mode,
            final(self)@.starting == old(self)@.starting,
            final(self)@.received == read_now(old(self)@, incoming),
            final(self)@.answered == old(self)@.answered,
    {
        match incoming {
            Some(i) => {
                self.received = Ghost(self.received@.push(i));
                i
            },
            None => self.kept.take().unwrap(),
        }
    }

    /// Decides a request while idle: the kept request if there is one,
    /// else `incoming`, read now. A request that starts a mode waits for the
    /// answer to that start (a transaction function keeps it for its first
    /// attempt); a close is answered and stops the loop; any other request
    /// is answered now.
    pub fn idle_next(&mut self, incoming: Option<Command>) -> (res: (Command, IdleStep))
        requires
            loop_inv(old(self)@),
            old(self)@.mode == LoopMode::Idle,
            incoming is None <==> old(self)@.kept is Some,
        ensures
            loop_inv(final(self)@),
            res.0 == match incoming {
                Some(i) => i,
                None => old(self)@.kept->0,
            },
            res.1 == idle_decision(res.0),
            final(self)@.received == read_now(old(self)@, incoming),
            match res.1 {
                IdleStep::StartAutoCommit => final(self)@.mode == LoopMode::StartingAutoCommit
                    && final(self)@.answered == old(self)@.answered,
                IdleStep::StartTransaction => final(self)@.mode == LoopMode::StartingTransaction
                    && final(self)@.answered == old(self)@.answered,
                IdleStep::StartTransactionFunction => final(self)@.mode
                    == LoopMode::StartingFunction && final(self)@.answered == old(self)@.answered,
                IdleStep::Close => final(self)@.mode == LoopMode::Stopped && final(self)@.answered
                    == old(self)@.answered.push(res.0),
                _ => final(self)@.mode == LoopMode::Idle && final(self)@.answered == old(self)@.answered.push(res.0),
            },
    {
        proof {
            if old(self)@.received.len() > 0 {
                lemma_answer_last(old(self)@.received);
            }
        }
        let c = self.take(incoming);
        let step = idle_step(c);
        match step {
            IdleStep::StartAutoCommit => {
                self.mode = LoopMode::StartingAutoCommit;
                self.starting = Some(c);
            },
            IdleStep::StartTransaction => {
                self.mode = LoopMode::StartingTransaction;
                self.starting = Some(c);
            },
            IdleStep::StartTransactionFunction => {
                self.mode = LoopMode::StartingFunction;
                self.kept = Some(c);
            },
            IdleStep::Close => {
                self.mode = LoopMode::Stopped;
                self.answered = Ghost(self.answered@.push(c));
            },
            _ => {
                self.answered = Ghost(self.answered@.push(c));
            },
        }
        proof {
            assert(old(self)@.received.push(c).drop_last() =~= old(self)@.received);
        }
        (c, step)
    }

    /// The stream of the auto-commit result `stream_id` began: the request
    /// for the auto-commit query is answered now.
    pub fn auto_commit_started(&mut self, stream_id: BackendId)
        requires
            loop_inv(old(self)@),
            old(self)@.mode == LoopMode::StartingAutoCommit,
        ensures
            loop_inv(final(self)@),
            final(self)@.mode == (LoopMode::AutoCommit { stream_id }),
            final(self)@.received == old(self)@.received,
            final(self)@.answered == old(self)@.answered.push(Command::AutoCommit),
    {
        proof {
            if old(self)@.received.len() > 0 {
                lemma_answer_last(old(self)@.received);
            }
        }
        self.mode = LoopMode::AutoCommit { stream_id };
        self.starting = None;
        self.answered = Ghost(self.answered@.push(Command::AutoCommit));
    }

    /// Decides the request `incoming`, read while an auto-commit stream is
    /// read: a request that ends the query is kept for later (unless it is
    /// the summary request of the stream, which is answered); any other is
    /// answered now.
    pub fn auto_commit_next(&mut self, incoming: Command) -> (step: AutoCommitStep)
        requires
            loop_inv(old(self)@),
            old(self)@.mode is AutoCommit,
        ensures
            loop_inv(final(self)@),
            step == auto_commit_decision(old(self)@.mode->stream_id, incoming),
            final(self)@.received == old(self)@.received.push(incoming),
            auto_commit_step_keeps_request(step) ==> final(self)@.mode
                == LoopMode::EndingAutoCommit && final(self)@.kept == Some(incoming)
                && final(self)@.answered == old(self)@.answered,
            step is ConsumeAndAnswer ==> final(self)@.mode == LoopMode::EndingAutoCommit
                && final(self)@.answered == old(self)@.answered.push(incoming),
            !auto_commit_step_keeps_request(step) && !(step is ConsumeAndAnswer) ==> final(self)@.mode == old(self)@.mode && final(self)@.answered == old(self)@.answered.push(
                incoming,
            ),
    {
        proof {
            if old(self)@.received.len() > 0 {
                lemma_answer_last(old(self)@.received);
            }
        }
        let stream_id = match self.mode {
            LoopMode::AutoCommit { stream_id } => stream_id,
            _ => 0,
        };
        self.received = Ghost(self.received@.push(incoming));
        let step = auto_commit_step(stream_id, incoming);
        match step {
            AutoCommitStep::BufferAndLeave | AutoCommitStep::ConsumeAndLeave => {
                self.mode = LoopMode::EndingAutoCommit;
                self.kept = Some(incoming);
            },
            AutoCommitStep::ConsumeAndAnswer => {
                self.mode = LoopMode::EndingAutoCommit;
                self.answered = Ghost(self.answered@.push(incoming));
            },
            _ => {
                self.answered = Ghost(self.answered@.push(incoming));
            },
        }
        proof {
            assert(old(self)@.received.push(incoming).drop_last() =~= old(self)@.received);
        }
        step
    }

    /// The auto-commit query is over; `failed` tells whether it ended in an
    /// error. A query whose stream never began has failed; one that failed
    /// after its stream began has kept a request.
    pub fn auto_commit_over(&mut self, failed: bool) -> (end: AutoCommitEnd)
        requires
            loop_inv(old(self)@),
            old(self)@.mode == LoopMode::StartingAutoCommit || old(self)@.mode
                == LoopMode::EndingAutoCommit,
            old(self)@.mode == LoopMode::StartingAutoCommit ==> failed,
            old(self)@.mode == LoopMode::EndingAutoCommit && failed ==> old(self)@.kept is Some,
        ensures
            loop_inv(final(self)@),
            end == auto_commit_end_decision(
                old(self)@.mode == LoopMode::EndingAutoCommit,
                failed,
                old(self)@.kept,
            ),
            final(self)@.received == old(self)@.received,
            match end {
                AutoCommitEnd::Proceed => final(self)@.mode == LoopMode::Idle && final(self)@.kept
                    == old(self)@.kept && final(self)@.answered == old(self)@.answered,
                AutoCommitEnd::AnswerAutoCommitWithError => final(self)@.mode == LoopMode::Idle
                    && final(self)@.answered == old(self)@.answered.push(Command::AutoCommit),
                AutoCommitEnd::AnswerKeptWithError { stop } => final(self)@.mode == (if stop {
                    LoopMode::Stopped
                } else {
                    LoopMode::Idle
                }) && final(self)@.kept is None && final(self)@.answered == old(self)@.answered.push(old(self)@.kept->0),
            },
    {
        proof {
            if old(self)@.received.len() > 0 {
                lemma_answer_last(old(self)@.received);
            }
        }
        let started = match self.mode {
            LoopMode::EndingAutoCommit => true,
            _ => false,
        };
        let end = auto_commit_end(started, failed, self.kept);
        match end {
            AutoCommitEnd::Proceed => {
                self.mode = LoopMode::Idle;
            },
            AutoCommitEnd::AnswerAutoCommitWithError => {
                self.mode = LoopMode::Idle;
                self.starting = None;
                self.answered = Ghost(self.answered@.push(Command::AutoCommit));
            },
            AutoCommitEnd::AnswerKeptWithError { stop } => {
                let k = self.kept.take().unwrap();
                self.mode = if stop {
                    LoopMode::Stopped
                } else {
                    LoopMode::Idle
                };
                self.answered = Ghost(self.answered@.push(k));
            },
        }
        end
    }

    /// The explicit transaction began: the request to begin it is answered
    /// now.
    pub fn transaction_started(&mut self)
        requires
            loop_inv(old(self)@),
            old(self)@.mode == LoopMode::StartingTransaction,
        ensures
            loop_inv(final(self)@),
            final(self)@.mode == LoopMode::Transaction,
            final(self)@.received == old(self)@.received,
            final(self)@.answered == old(self)@.answered.push(Command::BeginTransaction),
    {
        proof {
            if old(self)@.received.len() > 0 {
                lemma_answer_last(old(self)@.received);
            }
        }
        self.mode = LoopMode::Transaction;
        self.starting = None;
        self.answered = Ghost(self.answered@.push(Command::BeginTransaction));
    }

    /// Decides the request `incoming`, read while an explicit transaction
    /// runs: a request that ends the transaction is kept for later; any
    /// other is answered now.
    pub fn transaction_next<R, S, Q>(
        &mut self,
        session: &Session<R, S, Q>,
        scope: &TransactionScope<S, Q>,
        incoming: Command,
    ) -> (step: TxStep)
        requires
            loop_inv(old(self)@),
            old(self)@.mode == LoopMode::Transaction,
        ensures
            loop_inv(final(self)@),
            step == transaction_decision(session@.known, scope@, incoming),
            final(self)@.received == old(self)@.received.push(incoming),
            tx_step_keeps_request(step) ==> final(self)@.mode == LoopMode::EndingTransaction
                && final(self)@.kept == Some(incoming) && final(self)@.answered == old(self)@.answered,
            !tx_step_keeps_request(step) ==> final(self)@.mode == LoopMode::Transaction && final(self)@.answered == old(self)@.answered.push(incoming),
    {
        proof {
            if old(self)@.received.len() > 0 {
                lemma_answer_last(old(self)@.received);
            }
        }
        self.received = Ghost(self.received@.push(incoming));
        let step = transaction_step(session, scope, incoming);
        match step {
            TxStep::Commit | TxStep::Rollback | TxStep::Abandon | TxStep::Leave => {
                self.mode = LoopMode::EndingTransaction;
                self.kept = Some(incoming);
            },
            _ => {
                self.answered = Ghost(self.answered@.push(incoming));
            },
        }
        proof {
            assert(old(self)@.received.push(incoming).drop_last() =~= old(self)@.received);
        }
        step
    }

    /// The explicit transaction is over; `failed` tells whether it ended in
    /// an error. The request to begin it, or the request kept for later, is
    /// answered, or the kept request is handed back to be decided when idle.
    pub fn transaction_over(&mut self, failed: bool) -> (end: TransactionEnd)
        requires
            loop_inv(old(self)@),
            old(self)@.mode == LoopMode::StartingTransaction || old(self)@.mode
                == LoopMode::EndingTransaction,
            transaction_end_possible(
                old(self)@.mode == LoopMode::EndingTransaction,
                failed,
                old(self)@.kept,
            ),
        ensures
            loop_inv(final(self)@),
            end == transaction_end_decision(
                old(self)@.mode == LoopMode::EndingTransaction,
                old(self)@.kept,
            ),
            final(self)@.received == old(self)@.received,
            match end {
                TransactionEnd::Proceed => final(self)@.mode == LoopMode::Idle && final(self)@.kept
                    == old(self)@.kept && final(self)@.answered == old(self)@.answered,
                TransactionEnd::AnswerBeginWithError => final(self)@.mode == LoopMode::Idle
                    && final(self)@.answered == old(self)@.answered.push(
                    Command::BeginTransaction,
                ),
                TransactionEnd::CloseWithOutcome => final(self)@.mode == LoopMode::Stopped
                    && final(self)@.kept is None && final(self)@.answered == old(self)@.answered.push(old(self)@.kept->0),
                _ => final(self)@.mode == LoopMode::Idle && final(self)@.kept is None && final(self)@.answered == old(self)@.answered.push(old(self)@.kept->0),
            },
    {
        proof {
            if old(self)@.received.len() > 0 {
                lemma_answer_last(old(self)@.received);
            }
        }
        let started = match self.mode {
            LoopMode::EndingTransaction => true,
            _ => false,
        };
        let end = transaction_end(started, failed, self.kept);
        match end {
            TransactionEnd::Proceed => {
                self.mode = LoopMode::Idle;
            },
            TransactionEnd::AnswerBeginWithError => {
                self.mode = LoopMode::Idle;
                self.starting = None;
                self.answered = Ghost(self.answered@.push(Command::BeginTransaction));
            },
            TransactionEnd::CloseWithOutcome => {
                let k = self.kept.take().unwrap();
                self.mode = LoopMode::Stopped;
                self.answered = Ghost(self.answered@.push(k));
            },
            _ => {
                let k = self.kept.take().unwrap();
                self.mode = LoopMode::Idle;
                self.answered = Ghost(self.answered@.push(k));
            },
        }
        end
    }

    /// An attempt of the transaction function begins: the kept request
    /// (the one that started the function, or asked for a retry) is
    /// answered now, and returned.
    pub fn attempt_started(&mut self) -> (c: Command)
        requires
            loop_inv(old(self)@),
            old(self)@.mode == LoopMode::StartingFunction || old(self)@.mode
                == LoopMode::EndingAttempt,
            attempt_start_possible(old(self)@.kept),
        ensures
            loop_inv(final(self)@),
            Some(c) == old(self)@.kept,
            final(self)@.mode == LoopMode::Attempt,
            final(self)@.received == old(self)@.received,
            final(self)@.answered == old(self)@.answered.push(c),
    {
        proof {
            if old(self)@.received.len() > 0 {
                lemma_answer_last(old(self)@.received);
            }
        }
        let c = self.kept.take().unwrap();
        self.mode = LoopMode::Attempt;
        self.answered = Ghost(self.answered@.push(c));
        c
    }

    /// Decides the request `incoming`, read while an attempt of a
    /// transaction function runs: a request that ends the attempt is kept
    /// for later; any other is answered now.
    pub fn attempt_next<E, S, Q>(
        &mut self,
        scope: &TransactionScope<S, Q>,
        tracker: &TransactionFunctionStateTracker<E>,
        incoming: Command,
    ) -> (step: TxStep)
        requires
            loop_inv(old(self)@),
            old(self)@.mode == LoopMode::Attempt,
        ensures
            loop_inv(final(self)@),
            step == function_decision(scope@, tracker@.failed, incoming),
            final(self)@.received == old(self)@.received.push(incoming),
            tx_step_keeps_request(step) ==> final(self)@.mode == LoopMode::EndingAttempt && final(self)@.kept == Some(incoming) && final(self)@.answered == old(self)@.answered,
            !tx_step_keeps_request(step) ==> final(self)@.mode == LoopMode::Attempt && final(self)@.answered == old(self)@.answered.push(incoming),
    {
        proof {
            if old(self)@.received.len() > 0 {
                lemma_answer_last(old(self)@.received);
            }
        }
        self.received = Ghost(self.received@.push(incoming));
        let step = function_step(scope, tracker, incoming);
        match step {
            TxStep::Commit | TxStep::Rollback | TxStep::Abandon | TxStep::Leave => {
                self.mode = LoopMode::EndingAttempt;
                self.kept = Some(incoming);
            },
            _ => {
                self.answered = Ghost(self.answered@.push(incoming));
            },
        }
        proof {
            assert(old(self)@.received.push(incoming).drop_last() =~= old(self)@.received);
        }
        step
    }

    /// The transaction function is over: the kept request is answered with
    /// its outcome, and the loop stops where that request was the close.
    pub fn function_over(&mut self) -> (end: FunctionEnd)
        requires
            loop_inv(old(self)@),
            old(self)@.mode == LoopMode::EndingAttempt,
            function_end_possible(old(self)@.kept),
        ensures
            loop_inv(final(self)@),
            end == (if old(self)@.kept == Some(Command::Close) {
                FunctionEnd::CloseWithOutcome
            } else {
                FunctionEnd::AnswerKept
            }),
            final(self)@.mode == (if end is CloseWithOutcome {
                LoopMode::Stopped
            } else {
                LoopMode::Idle
            }),
            final(self)@.kept is None,
            final(self)@.received == old(self)@.received,
            final(self)@.answered == old(self)@.answered.push(old(self)@.kept->0),
    {
        proof {
            if old(self)@.received.len() > 0 {
                lemma_answer_last(old(self)@.received);
            }
        }
        let end = function_end(self.kept);
        let k = self.kept.take().unwrap();
        self.mode = match end {
            FunctionEnd::CloseWithOutcome => LoopMode::Stopped,
            FunctionEnd::AnswerKept => LoopMode::Idle,
        };
        self.answered = Ghost(self.answered@.push(k));
        end
    }
}

} // verus!
