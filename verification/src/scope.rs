use vstd::prelude::*;
use std::collections::HashMap;
use crate::ids::{BackendId, IdGenerator};

verus! {

broadcast use vstd::std_specs::hash::group_hash_axioms;

/// A result that a query in the running transaction produced.
pub struct StreamEntry<S, Q> {
    /// Whether its record stream is still there to be read.
    pub open: bool,
    /// Its summary, once its stream has been consumed.
    pub summary: Option<S>,
    /// The query that produced it, with its parameters.
    pub query: Q,
}

/// What a transaction scope holds: the transaction's identifier and its
/// results by identifier.
pub struct ScopeView<S, Q> {
    pub id: BackendId,
    pub streams: Map<BackendId, StreamEntry<S, Q>>,
}

/// The results of the transaction a session runs, while it runs.
pub struct TransactionScope<S, Q> {
    id: BackendId,
    streams: HashMap<BackendId, StreamEntry<S, Q>>,
    order: Vec<BackendId>,
}

impl<S, Q> View for TransactionScope<S, Q> {
    type V = ScopeView<S, Q>;

    closed spec fn view(&self) -> ScopeView<S, Q> {
        ScopeView { id: self.id, streams: self.streams@ }
    }
}

/// Every result of the scope has an identifier below `bound`.
pub open spec fn scope_ids_below<S, Q>(s: ScopeView<S, Q>, bound: nat) -> bool {
    forall|i: BackendId| #[trigger] s.streams.contains_key(i) ==> i < bound
}

impl<S, Q> TransactionScope<S, Q> {
    /// The scope keeps the identifiers of its results once each, in the
    /// order they came.
    #[verifier::type_invariant]
    spec fn wf(self) -> bool {
        &&& self.order@.no_duplicates()
        &&& forall|i: BackendId| #[trigger] self.streams@.contains_key(i) <==> self.order@.contains(i)
    }

    /// The scope of the transaction `id`, which has no result yet.
    pub fn new(id: BackendId) -> (s: Self)
        ensures
            s@.id == id,
            s@.streams == Map::<BackendId, StreamEntry<S, Q>>::empty(),
    {
        TransactionScope { id, streams: HashMap::new(), order: Vec::new() }
    }

    /// The identifier of the transaction.
    pub fn id(&self) -> (id: BackendId)
        ensures
            id == self@.id,
    {
        self.id
    }

    /// Adds, under a fresh identifier, the result of a query that succeeded
    /// in the transaction; its stream is open.
    pub fn add_stream(&mut self, generator: &mut IdGenerator, query: Q) -> (id: BackendId)
        requires
            old(generator)@ < usize::MAX,
            scope_ids_below(old(self)@, old(generator)@),
        ensures
            id == old(generator)@,
            final(generator)@ == old(generator)@ + 1,
            final(self)@.id == old(self)@.id,
            final(self)@.streams == old(self)@.streams.insert(
                id,
                StreamEntry { open: true, summary: None, query },
            ),
            scope_ids_below(final(self)@, final(generator)@),
    {
        proof {
            use_type_invariant(&*self);
        }
        let tx_id = self.id;
        let mut taken = TransactionScope::new(tx_id);
        std::mem::swap(self, &mut taken);
        proof {
            use_type_invariant(&taken);
        }
        let TransactionScope { id: scope_id, mut streams, mut order } = taken;
        let ghost old_order = order@;
        let id = generator.next_id();
        assert(!old(self)@.streams.contains_key(id));
        assert(!order@.contains(id));
        streams.insert(id, StreamEntry { open: true, summary: None, query });
        order.push(id);
        proof {
            assert forall|i: BackendId| #[trigger] streams@.contains_key(i) <==> order@.contains(i) by {
                if i != id {
                    if order@.contains(i) {
                        let k = choose|k: int| 0 <= k < order@.len() && order@[k] == i;
                        assert(old_order[k] == i);
                    }
                    if old_order.contains(i) {
                        let k = choose|k: int| 0 <= k < old_order.len() && old_order[k] == i;
                        assert(order@[k] == i);
                    }
                } else {
                    assert(order@[order@.len() - 1] == id);
                }
            }
            assert(order@.no_duplicates());
        }
        *self = TransactionScope { id: scope_id, streams, order };
        id
    }

    /// The identifiers of the scope's results, once each.
    pub fn into_result_ids(self) -> (ids: Vec<BackendId>)
        ensures
            ids@.no_duplicates(),
            forall|i: BackendId| #[trigger] self@.streams.contains_key(i) <==> ids@.contains(i),
    {
        proof {
            use_type_invariant(&self);
        }
        let TransactionScope { order, .. } = self;
        order
    }

    /// Whether `id` names a result of the transaction, and if so whether
    /// its stream is still open.
    pub fn stream_state(&self, id: BackendId) -> (st: Option<bool>)
        ensures
            self@.streams.contains_key(id) ==> st == Some(self@.streams[id].open),
            !self@.streams.contains_key(id) ==> st is None,
    {
        match self.streams.get(&id) {
            Some(entry) => Some(entry.open),
            None => None,
        }
    }

    /// Whether the result `id` of the transaction has a summary.
    pub fn has_summary(&self, id: BackendId) -> (r: bool)
        ensures
            r == (self@.streams.contains_key(id) && self@.streams[id].summary is Some),
    {
        match self.streams.get(&id) {
            Some(entry) => entry.summary.is_some(),
            None => false,
        }
    }

    /// The stream of the result `id` has been taken to be consumed; with
    /// `summary` where consuming it succeeded.
    pub fn close_stream(&mut self, id: BackendId, summary: Option<S>)
        requires
            old(self)@.streams.contains_key(id),
        ensures
            final(self)@.id == old(self)@.id,
            final(self)@.streams == old(self)@.streams.insert(
                id,
                StreamEntry { open: false, summary, query: old(self)@.streams[id].query },
            ),
    {
        proof {
            use_type_invariant(&*self);
        }
        let tx_id = self.id;
        let mut taken = TransactionScope::new(tx_id);
        std::mem::swap(self, &mut taken);
        proof {
            use_type_invariant(&taken);
        }
        let TransactionScope { id: scope_id, mut streams, order } = taken;
        let entry = streams.remove(&id).unwrap();
        streams.insert(id, StreamEntry { open: false, summary, query: entry.query });
        *self = TransactionScope { id: scope_id, streams, order };
    }
}

impl<S: Clone, Q: Clone> TransactionScope<S, Q> {
    /// The summary of the result `id`, with its query, where it has one.
    pub fn summary(&self, id: BackendId) -> (r: Option<(S, Q)>)
        ensures
            !(self@.streams.contains_key(id) && self@.streams[id].summary is Some) ==> r is None,
            self@.streams.contains_key(id) && self@.streams[id].summary is Some ==> (r matches Some(
                (s, q),
            ) && cloned(self@.streams[id].summary->0, s) && cloned(self@.streams[id].query, q)),
    {
        match self.streams.get(&id) {
            Some(entry) => match &entry.summary {
                Some(s) => Some((s.clone(), entry.query.clone())),
                None => None,
            },
            None => None,
        }
    }
}

} // verus!
