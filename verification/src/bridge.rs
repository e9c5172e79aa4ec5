//! The state of the bridge: one table of handles for each kind of value
//! that crosses the boundary.

use crate::error::{Error, ErrorKind};
use crate::opaque::{HandleKind, HandleTable, Opaque};
use crate::param::EncodingPolicy;
use crate::query::Query;
use crate::result::FFIResult;
use crate::row::{Row, RowHandle};
use crate::stream::QueryResult;
use vstd::prelude::*;

verus! {

/// Everything the bridge holds for its caller. `C` is the session type of
/// the database client in use.
#[derive(Debug)]
pub struct Bridge<C> {
    /// The open sessions.
    pub connections: HandleTable<C>,
    /// The queries that were built and have not been run.
    pub queries: HandleTable<Query>,
    /// The result sets that have not been closed.
    pub results: HandleTable<QueryResult>,
    /// The failures that were reported and have not been freed.
    pub errors: HandleTable<Error>,
    /// The counts of affected rows that were reported and have not been
    /// freed.
    pub counts: HandleTable<u64>,
    /// What to do with a parameter whose type tag is unknown.
    pub policy: EncodingPolicy,
}

impl<C> Bridge<C> {
    /// Every table is in order and honours the kind of token it is there
    /// for.
    pub open spec fn wf(&self) -> bool {
        &&& self.connections.wf()
        &&& self.queries.wf()
        &&& self.results.wf()
        &&& self.errors.wf()
        &&& self.counts.wf()
        &&& self.connections.kind() == HandleKind::Connection
        &&& self.queries.kind() == HandleKind::Query
        &&& self.results.kind() == HandleKind::QueryResult
        &&& self.errors.kind() == HandleKind::Error
        &&& self.counts.kind() == HandleKind::Count
    }

    /// `later` can follow this bridge in time: none of its tables has
    /// forgotten a handle that was freed or given out. Every operation of
    /// the bridge takes it to such a `later`.
    pub open spec fn precedes(&self, later: &Self) -> bool {
        &&& self.connections.precedes(&later.connections)
        &&& self.queries.precedes(&later.queries)
        &&& self.results.precedes(&later.results)
        &&& self.errors.precedes(&later.errors)
        &&& self.counts.precedes(&later.counts)
    }

    /// Operations can be chained: what holds from one step to the next
    /// holds from the first to the last.
    pub proof fn lemma_precedes_is_transitive(&self, mid: &Self, later: &Self)
        requires
            self.precedes(mid),
            mid.precedes(later),
        ensures
            self.precedes(later),
    {
    }

    /// Every handle can be used until it is freed. A handle that is alive,
    /// of whatever kind, is still alive after any number of further
    /// operations unless one of them freed it.
    pub proof fn lemma_alive_until_freed(&self, later: &Self, token: Opaque)
        requires
            self.precedes(later),
        ensures
            self.connections@.contains_key(token) ==> later.connections@.contains_key(token)
                != later.connections.retired().contains(token),
            self.queries@.contains_key(token) ==> later.queries@.contains_key(token)
                != later.queries.retired().contains(token),
            self.results@.contains_key(token) ==> later.results@.contains_key(token)
                != later.results.retired().contains(token),
            self.errors@.contains_key(token) ==> later.errors@.contains_key(token)
                != later.errors.retired().contains(token),
            self.counts@.contains_key(token) ==> later.counts@.contains_key(token)
                != later.counts.retired().contains(token),
    {
        if self.connections@.contains_key(token) {
            self.connections.lemma_alive_until_freed(&later.connections, token);
        }
        if self.queries@.contains_key(token) {
            self.queries.lemma_alive_until_freed(&later.queries, token);
        }
        if self.results@.contains_key(token) {
            self.results.lemma_alive_until_freed(&later.results, token);
        }
        if self.errors@.contains_key(token) {
            self.errors.lemma_alive_until_freed(&later.errors, token);
        }
        if self.counts@.contains_key(token) {
            self.counts.lemma_alive_until_freed(&later.counts, token);
        }
    }

    /// Every handle is freed at most once. A handle that was freed, of
    /// whatever kind, is not alive after any number of further operations, so
    /// closing or freeing it again is refused, and so is any other use.
    pub proof fn lemma_freed_stays_dead(&self, later: &Self, token: Opaque)
        requires
            self.precedes(later),
        ensures
            self.connections.retired().contains(token) ==> !later.connections@.contains_key(token),
            self.queries.retired().contains(token) ==> !later.queries@.contains_key(token),
            self.results.retired().contains(token) ==> !later.results@.contains_key(token),
            self.errors.retired().contains(token) ==> !later.errors@.contains_key(token),
            self.counts.retired().contains(token) ==> !later.counts@.contains_key(token),
    {
        later.connections.lemma_retired_is_dead(token);
        later.queries.lemma_retired_is_dead(token);
        later.results.lemma_retired_is_dead(token);
        later.errors.lemma_retired_is_dead(token);
        later.counts.lemma_retired_is_dead(token);
    }

    /// Whether `query` is a live query whose connection is still open.
    pub open spec fn usable(&self, query: Opaque) -> bool {
        &&& self.queries@.contains_key(query)
        &&& self.connections@.contains_key(self.queries@[query].conn)
    }

    /// `later` holds the queries of this bridge but for the one behind
    /// `query`, which is gone for good if it was there.
    pub open spec fn consumed(&self, later: &Self, query: Opaque) -> bool {
        if self.queries@.contains_key(query) {
            self.queries.lost(&later.queries, query)
        } else {
            later.queries == self.queries
        }
    }

    /// Whether `row` names the row that its result set stands on.
    pub open spec fn row_alive(&self, row: RowHandle) -> bool {
        &&& self.results@.contains_key(row.stream)
        &&& self.results@[row.stream]@.current_index() == Some(row.index as nat)
    }

    /// The row that `row` names.
    pub open spec fn row(&self, row: RowHandle) -> Row {
        self.results@[row.stream]@.rows[row.index as int]
    }

    /// `later` is this bridge with one more failure of class `kind`, and
    /// `envelope` reports that failure.
    pub open spec fn failed<T>(&self, later: &Self, envelope: &FFIResult<T>, kind: ErrorKind) -> bool {
        &&& envelope.spec_status() == kind.spec_code()
        &&& envelope.spec_data() is None
        &&& envelope.spec_error() matches Some(token)
        &&& self.errors.gained(&later.errors, token)
        &&& later.errors@[token].kind == kind
    }

    /// A bridge that holds nothing yet.
    pub fn new(policy: EncodingPolicy) -> (bridge: Self)
        ensures
            bridge.wf(),
            bridge.policy == policy,
            bridge.connections@ == Map::<Opaque, C>::empty(),
            bridge.queries@ == Map::<Opaque, Query>::empty(),
            bridge.results@ == Map::<Opaque, QueryResult>::empty(),
            bridge.errors@ == Map::<Opaque, Error>::empty(),
            bridge.counts@ == Map::<Opaque, u64>::empty(),
            bridge.connections.retired() == Set::<Opaque>::empty(),
            bridge.queries.retired() == Set::<Opaque>::empty(),
            bridge.results.retired() == Set::<Opaque>::empty(),
            bridge.errors.retired() == Set::<Opaque>::empty(),
            bridge.counts.retired() == Set::<Opaque>::empty(),
    {
        Bridge {
            connections: HandleTable::new(HandleKind::Connection),
            queries: HandleTable::new(HandleKind::Query),
            results: HandleTable::new(HandleKind::QueryResult),
            errors: HandleTable::new(HandleKind::Error),
            counts: HandleTable::new(HandleKind::Count),
            policy,
        }
    }
}

} // verus!
