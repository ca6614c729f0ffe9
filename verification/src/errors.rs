use vstd::prelude::*;
use crate::ids::{BackendId, IdGenerator};

verus! {

/// An error as the backend reports it to the TestKit frontend.
#[derive(Debug, PartialEq, Eq)]
pub enum TestKitError {
    /// An error the driver raised (or that the backend raises in its name).
    DriverError {
        error_type: String,
        msg: String,
        code: Option<String>,
        id: Option<BackendId>,
        retryable: bool,
    },
    /// An error that the frontend raised inside a transaction function.
    FrontendError { msg: String },
    /// A failure of the backend itself.
    BackendError { msg: String },
}

/// What an error holds, with its texts as sequences of characters.
pub enum TestKitErrorView {
    DriverError {
        error_type: Seq<char>,
        msg: Seq<char>,
        code: Option<Seq<char>>,
        id: Option<BackendId>,
        retryable: bool,
    },
    FrontendError { msg: Seq<char> },
    BackendError { msg: Seq<char> },
}

impl View for TestKitError {
    type V = TestKitErrorView;

    open spec fn view(&self) -> TestKitErrorView {
        match self {
            TestKitError::DriverError { error_type, msg, code, id, retryable } =>
                TestKitErrorView::DriverError {
                    error_type: error_type@,
                    msg: msg@,
                    code: match code {
                        Some(c) => Some(c@),
                        None => None,
                    },
                    id: *id,
                    retryable: *retryable,
                },
            TestKitError::FrontendError { msg } => TestKitErrorView::FrontendError { msg: msg@ },
            TestKitError::BackendError { msg } => TestKitErrorView::BackendError { msg: msg@ },
        }
    }
}

/// The driver error that the backend raises on the client side, with no
/// server code and no identifier yet.
pub open spec fn client_only_error(error_type: Seq<char>, msg: Seq<char>, retryable: bool) -> TestKitErrorView {
    TestKitErrorView::DriverError { error_type, msg, code: None, id: None, retryable }
}

/// The identifier an error carries, if it carries one: only driver errors can.
pub open spec fn error_id(e: TestKitErrorView) -> Option<BackendId> {
    match e {
        TestKitErrorView::DriverError { id, .. } => id,
        _ => None,
    }
}

/// `e` with its identifier replaced by `id`, where `e` can carry one.
pub open spec fn with_error_id(e: TestKitErrorView, new_id: BackendId) -> TestKitErrorView {
    match e {
        TestKitErrorView::DriverError { error_type, msg, code, retryable, .. } =>
            TestKitErrorView::DriverError { error_type, msg, code, id: Some(new_id), retryable },
        _ => e,
    }
}

/// The decimal digits of `n`, most significant first, without leading zeros.
pub open spec fn decimal(n: nat) -> Seq<char>
    decreases n,
{
    if n < 10 {
        seq![digit_char(n)]
    } else {
        decimal(n / 10).push(digit_char(n % 10))
    }
}

/// The character of the decimal digit `d` (`d < 10`).
pub open spec fn digit_char(d: nat) -> char {
    (d + 48) as char
}

/// The text of the decimal digit `d`.
fn digit_text(d: usize) -> (s: &'static str)
    requires
        d < 10,
    ensures
        s@ == seq![digit_char(d as nat)],
{
    proof {
        reveal_strlit("0");
        reveal_strlit("1");
        reveal_strlit("2");
        reveal_strlit("3");
        reveal_strlit("4");
        reveal_strlit("5");
        reveal_strlit("6");
        reveal_strlit("7");
        reveal_strlit("8");
        reveal_strlit("9");
    }
    match d {
        0 => "0",
        1 => "1",
        2 => "2",
        3 => "3",
        4 => "4",
        5 => "5",
        6 => "6",
        7 => "7",
        8 => "8",
        _ => "9",
    }
}

/// The decimal digits of `n`, as a text.
fn usize_text(n: usize) -> (s: String)
    ensures
        s@ == decimal(n as nat),
    decreases n,
{
    if n < 10 {
        text(digit_text(n))
    } else {
        let mut s = usize_text(n / 10);
        s.append(digit_text(n % 10));
        s
    }
}

/// `str::to_owned`, stated in vstd, gives a `String` with the same text.
fn text(s: &str) -> (r: String)
    ensures
        r@ == s@,
{
    s.to_owned()
}

/// The text `prefix`, then the decimal digits of `id`, then `suffix`.
pub fn text_with_id(prefix: &str, id: BackendId, suffix: &str) -> (r: String)
    ensures
        r@ == prefix@ + decimal(id as nat) + suffix@,
{
    let mut r = text(prefix);
    let digits = usize_text(id);
    r.append(digits.as_str());
    r.append(suffix);
    r
}

impl Clone for TestKitError {
    fn clone(&self) -> (r: Self)
        ensures
            r == *self,
    {
        match self {
            TestKitError::DriverError { error_type, msg, code, id, retryable } => {
                let code = match code {
                    Some(c) => Some(c.clone()),
                    None => None,
                };
                TestKitError::DriverError {
                    error_type: error_type.clone(),
                    msg: msg.clone(),
                    code,
                    id: *id,
                    retryable: *retryable,
                }
            },
            TestKitError::FrontendError { msg } => TestKitError::FrontendError { msg: msg.clone() },
            TestKitError::BackendError { msg } => TestKitError::BackendError { msg: msg.clone() },
        }
    }
}

impl TestKitError {
    /// A driver error raised by the backend on the client side.
    pub fn driver_error_client_only(error_type: String, msg: String, retryable: bool) -> (e: TestKitError)
        ensures
            e@ == client_only_error(error_type@, msg@, retryable),
    {
        TestKitError::DriverError { error_type, msg, code: None, id: None, retryable }
    }

    /// A failure of the backend itself.
    pub fn backend_err(msg: String) -> (e: TestKitError)
        ensures
            e@ == (TestKitErrorView::BackendError { msg: msg@ }),
    {
        TestKitError::BackendError { msg }
    }

    /// A failure of the backend itself, with a fixed text.
    pub fn backend_err_text(msg: &str) -> (e: TestKitError)
        ensures
            e@ == (TestKitErrorView::BackendError { msg: msg@ }),
    {
        TestKitError::BackendError { msg: text(msg) }
    }

    /// An error raised by the frontend.
    pub fn frontend_err(msg: String) -> (e: TestKitError)
        ensures
            e@ == (TestKitErrorView::FrontendError { msg: msg@ }),
    {
        TestKitError::FrontendError { msg }
    }

    /// An error raised by the frontend, with a fixed text.
    pub fn frontend_err_text(msg: &str) -> (e: TestKitError)
        ensures
            e@ == (TestKitErrorView::FrontendError { msg: msg@ }),
    {
        TestKitError::FrontendError { msg: text(msg) }
    }

    /// The identifier the error carries, if any.
    pub fn get_id(&self) -> (id: Option<BackendId>)
        ensures
            id == error_id(self@),
    {
        match self {
            TestKitError::DriverError { id, .. } => *id,
            _ => None,
        }
    }

    /// Gives the error the identifier `new_id`, where it can carry one;
    /// any other error stays as it is.
    pub fn set_id(&mut self, new_id: BackendId)
        ensures
            final(self)@ == with_error_id(old(self)@, new_id),
    {
        match self {
            TestKitError::DriverError { id, .. } => {
                *id = Some(new_id);
            },
            _ => {},
        }
    }

    /// Gives the error a fresh identifier from `generator`, where it can
    /// carry one; only then is an identifier drawn.
    pub fn set_id_gen(&mut self, generator: &mut IdGenerator)
        requires
            old(generator)@ < usize::MAX,
        ensures
            (old(self)@ is DriverError) ==> {
                &&& final(self)@ == with_error_id(old(self)@, old(generator)@ as BackendId)
                &&& final(generator)@ == old(generator)@ + 1
            },
            !(old(self)@ is DriverError) ==> {
                &&& *final(self) == *old(self)
                &&& final(generator)@ == old(generator)@
            },
    {
        match self {
            TestKitError::DriverError { id, .. } => {
                *id = Some(generator.next_id());
            },
            _ => {},
        }
    }
}

/// The error for a record stream whose transaction has been closed.
pub fn result_out_of_scope_error() -> (e: TestKitError)
    ensures
        e@ == client_only_error(
            "ResultOutOfScope"@,
            "The record stream's transaction has been closed"@,
            false,
        ),
{
    TestKitError::driver_error_client_only(
        text("ResultOutOfScope"),
        text("The record stream's transaction has been closed"),
        false,
    )
}

/// The error for a record stream that has been consumed.
pub fn result_consumed_error() -> (e: TestKitError)
    ensures
        e@ == client_only_error("ResultConsumed"@, "The record stream has been consumed"@, false),
{
    TestKitError::driver_error_client_only(
        text("ResultConsumed"),
        text("The record stream has been consumed"),
        false,
    )
}

/// The error for a transaction that has been closed.
pub fn transaction_out_of_scope_error() -> (e: TestKitError)
    ensures
        e@ == client_only_error("TransactionOutOfScope"@, "The transaction has been closed"@, false),
{
    TestKitError::driver_error_client_only(
        text("TransactionOutOfScope"),
        text("The transaction has been closed"),
        false,
    )
}

/// The error for a session that is asked to start a transaction while it
/// runs one.
pub fn session_already_executing_tx_error() -> (e: TestKitError)
    ensures
        e@ == client_only_error(
            "SessionError"@,
            "Session is already executing a transaction"@,
            false,
        ),
{
    TestKitError::driver_error_client_only(
        text("SessionError"),
        text("Session is already executing a transaction"),
        false,
    )
}

} // verus!
