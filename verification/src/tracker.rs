use vstd::prelude::*;
use std::collections::HashMap;
use crate::errors::{TestKitError, TestKitErrorView, error_id, with_error_id, text_with_id, decimal};
use crate::ids::{BackendId, IdGenerator};

verus! {

broadcast use vstd::std_specs::hash::group_hash_axioms;

/// An error raised inside a transaction function, kept so that the frontend
/// can hand it back by its identifier when it asks for a retry.
///
/// `E` stands for an error of the driver.
#[derive(Debug)]
pub enum TransactionFunctionError<E> {
    TestKit(TestKitError),
    Neo4j(E),
}

/// What a tracker holds: whether the transaction function failed, and the
/// errors it handed out, by identifier.
pub struct TrackerView<E> {
    pub failed: bool,
    pub errors: Map<BackendId, TransactionFunctionError<E>>,
}

/// Follows one attempt of a transaction function: whether the driver failed
/// in it, and the errors that were reported to the frontend.
pub struct TransactionFunctionStateTracker<E> {
    failed: bool,
    errors: HashMap<BackendId, TransactionFunctionError<E>>,
}

impl<E> View for TransactionFunctionStateTracker<E> {
    type V = TrackerView<E>;

    closed spec fn view(&self) -> TrackerView<E> {
        TrackerView { failed: self.failed, errors: self.errors@ }
    }
}

/// Every error the tracker keeps has an identifier below `bound`.
pub open spec fn ids_below<E>(t: TrackerView<E>, bound: nat) -> bool {
    forall|i: BackendId| #[trigger] t.errors.contains_key(i) ==> i < bound
}

/// The message for an error identifier that the tracker does not know.
pub open spec fn unknown_error_message(id: BackendId) -> Seq<char> {
    "Unknown error with id "@ + decimal(id as nat) + " found"@
}

impl<E> TransactionFunctionStateTracker<E> {
    /// A tracker of an attempt that has not failed and reported nothing.
    pub fn new() -> (t: Self)
        ensures
            !t@.failed,
            t@.failed == failed_after_reports(Seq::empty()),
            t@.errors == Map::<BackendId, TransactionFunctionError<E>>::empty(),
    {
        TransactionFunctionStateTracker { failed: false, errors: HashMap::new() }
    }

    /// Reports a driver error: the attempt has failed, the error is kept
    /// under a fresh identifier, and `reported` (the error as the frontend
    /// sees it) is returned with that identifier.
    pub fn wrap_neo4j_error(
        &mut self,
        generator: &mut IdGenerator,
        error: E,
        reported: TestKitError,
    ) -> (res: TestKitError)
        requires
            old(generator)@ < usize::MAX,
        ensures
            final(generator)@ == old(generator)@ + 1,
            final(self)@.failed,
            final(self)@.failed == failed_after_report(old(self)@.failed, TrackerReport::Driver),
            final(self)@.errors == old(self)@.errors.insert(
                old(generator)@ as BackendId,
                TransactionFunctionError::Neo4j(error),
            ),
            res@ == with_error_id(reported@, old(generator)@ as BackendId),
    {
        self.failed = true;
        let id = generator.next_id();
        let mut reported = reported;
        reported.set_id(id);
        self.errors.insert(id, TransactionFunctionError::Neo4j(error));
        reported
    }

    /// Reports an error of the backend: an error that can carry an
    /// identifier and has none gets a fresh one; an error with an identifier
    /// is kept under it. Whether the attempt failed does not change.
    pub fn wrap_testkit_error(&mut self, generator: &mut IdGenerator, error: TestKitError) -> (res:
        TestKitError)
        requires
            old(generator)@ < usize::MAX,
        ensures
            final(self)@.failed == old(self)@.failed,
            final(self)@.failed == failed_after_report(old(self)@.failed, TrackerReport::Backend),
            error_id(error@) is None && error@ is DriverError ==> {
                &&& final(generator)@ == old(generator)@ + 1
                &&& res@ == with_error_id(error@, old(generator)@ as BackendId)
            },
            !(error_id(error@) is None && error@ is DriverError) ==> {
                &&& final(generator)@ == old(generator)@
                &&& res == error
            },
            match error_id(res@) {
                Some(id) => final(self)@.errors == old(self)@.errors.insert(
                    id,
                    TransactionFunctionError::TestKit(res),
                ),
                None => final(self)@.errors == old(self)@.errors,
            },
    {
        let mut error = error;
        if error.get_id().is_none() {
            error.set_id_gen(generator);
        }
        match error.get_id() {
            Some(id) => {
                self.errors.insert(id, TransactionFunctionError::TestKit(error.clone()));
            },
            None => {},
        }
        error
    }

    /// Whether the driver failed in this attempt.
    pub fn failed(&self) -> (r: bool)
        ensures
            r == self@.failed,
    {
        self.failed
    }

    /// The error the tracker keeps under `id`; a backend error when it keeps
    /// none.
    pub fn into_error(self, id: BackendId) -> (res: TransactionFunctionError<E>)
        ensures
            self@.errors.contains_key(id) ==> res == self@.errors[id],
            !self@.errors.contains_key(id) ==> (res matches TransactionFunctionError::TestKit(e)
                && e@ == (TestKitErrorView::BackendError { msg: unknown_error_message(id) })),
    {
        let mut errors = self.errors;
        match errors.remove(&id) {
            Some(e) => e,
            None => TransactionFunctionError::TestKit(
                TestKitError::backend_err(text_with_id("Unknown error with id ", id, " found")),
            ),
        }
    }
}

/// A report made through a tracker: a driver error, or an error of the
/// backend.
pub enum TrackerReport {
    Driver,
    Backend,
}

/// Whether the attempt has failed after a report, given whether it had
/// before.
pub open spec fn failed_after_report(failed: bool, report: TrackerReport) -> bool {
    failed || report is Driver
}

/// Whether the attempt has failed after the reports, in order, made
/// through a new tracker.
pub open spec fn failed_after_reports(reports: Seq<TrackerReport>) -> bool
    decreases reports.len(),
{
    if reports.len() == 0 {
        false
    } else {
        failed_after_report(failed_after_reports(reports.drop_last()), reports.last())
    }
}

/// A tracker counts its attempt as failed exactly when a driver error was
/// reported through it: whatever sequence of reports follows its creation,
/// it has failed exactly when one of them was a driver error; reports of
/// backend errors never change it.
pub proof fn lemma_failed_iff_driver_error_reported(reports: Seq<TrackerReport>)
    ensures
        failed_after_reports(reports) <==> exists|i: int|
            0 <= i < reports.len() && #[trigger] reports[i] is Driver,
    decreases reports.len(),
{
    if reports.len() > 0 {
        let prefix = reports.drop_last();
        lemma_failed_iff_driver_error_reported(prefix);
        if exists|i: int| 0 <= i < reports.len() && #[trigger] reports[i] is Driver {
            let i = choose|i: int| 0 <= i < reports.len() && #[trigger] reports[i] is Driver;
            if i < prefix.len() {
                assert(prefix[i] is Driver);
            }
        }
        if exists|i: int| 0 <= i < prefix.len() && #[trigger] prefix[i] is Driver {
            let i = choose|i: int| 0 <= i < prefix.len() && #[trigger] prefix[i] is Driver;
            assert(reports[i] is Driver);
        }
        if reports.last() is Driver {
            assert(reports[reports.len() - 1] is Driver);
        }
    }
}

/// An error reported under an identifier is what `into_error` hands back
/// for that identifier.
pub proof fn lemma_reported_error_is_handed_back<E>(
    t: TrackerView<E>,
    id: BackendId,
    reported: TransactionFunctionError<E>,
)
    ensures
        t.errors.insert(id, reported).contains_key(id),
        t.errors.insert(id, reported)[id] == reported,
{
}

/// An error the tracker keeps stays kept, unchanged, when a later error is
/// reported under a fresh identifier; the identifiers stay below the
/// generator's next one.
pub proof fn lemma_kept_error_survives_fresh_report<E>(
    t: TrackerView<E>,
    next: nat,
    i: BackendId,
    fresh: BackendId,
    reported: TransactionFunctionError<E>,
)
    requires
        ids_below(t, next),
        fresh == next,
        t.errors.contains_key(i),
    ensures
        t.errors.insert(fresh, reported).contains_key(i),
        t.errors.insert(fresh, reported)[i] == t.errors[i],
        ids_below(
            TrackerView { failed: t.failed, errors: t.errors.insert(fresh, reported) },
            next + 1,
        ),
{
}

} // verus!
