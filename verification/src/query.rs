//! Queries: how they are built, and how they leave the bridge to be run.

use crate::bridge::Bridge;
use crate::buffer::Buffer;
use crate::error::{Error, ErrorKind};
use crate::opaque::{stale_handle, Opaque};
use crate::param::{known_type, EncodingPolicy, QueryParam, TypedParam};
use crate::result::FFIResult;
use crate::row::Row;
use crate::stream::{QueryResult, StreamView};
use vstd::prelude::*;
use vstd::utf8::{decode_utf8, valid_utf8};

verus! {

/// A statement that waits to be run: its text, the parameters bound so far
/// in the order they were bound, and the connection it is to run on.
#[derive(Debug)]
pub struct Query {
    /// The handle of the connection to run on.
    pub conn: Opaque,
    /// The text of the statement.
    pub query: String,
    /// The bound parameters, in binding order.
    pub params: Vec<TypedParam>,
}

impl Query {
    /// The parameters in binding order, which is the order of the
    /// placeholders `$1`, `$2`, ...
    pub fn sql_params(&self) -> (params: Vec<&TypedParam>)
        ensures
            params@.len() == self.params@.len(),
            forall|i: int| 0 <= i < params@.len() ==> *params@[i] == self.params@[i],
    {
        let mut params: Vec<&TypedParam> = Vec::new();
        let mut i: usize = 0;
        while i < self.params.len()
            invariant
                i <= self.params@.len(),
                params@.len() == i,
                forall|j: int| 0 <= j < i ==> *params@[j] == self.params@[j],
            decreases self.params@.len() - i,
        {
            params.push(&self.params[i]);
            i += 1;
        }
        params
    }

    /// Holds the number of bound parameters against the number of
    /// placeholders the statement has. A statement with another number of
    /// placeholders must not be sent.
    pub fn check_arity(&self, placeholders: usize) -> (r: Result<(), Error>)
        ensures
            r is Ok <==> self.params@.len() == placeholders,
            r matches Err(e) ==> e.kind == ErrorKind::Execution,
    {
        if self.params.len() == placeholders {
            Ok(())
        } else {
            Err(Error::new(ErrorKind::Execution, "wrong number of parameters".to_owned()))
        }
    }
}

/// Starts a query on the connection behind `conn`, with no parameter bound.
///
/// The query does not own the connection; it only remembers its handle. The
/// call is refused with a boundary error when `conn` is not a live
/// connection or when the view holds no text.
pub fn new_query<C>(bridge: &mut Bridge<C>, conn: Opaque, sql: Buffer) -> (r: Result<Opaque, Error>)
    requires
        old(bridge).wf(),
    ensures
        final(bridge).wf(),
        old(bridge).precedes(final(bridge)),
        final(bridge).connections == old(bridge).connections,
        final(bridge).results == old(bridge).results,
        final(bridge).errors == old(bridge).errors,
        final(bridge).counts == old(bridge).counts,
        final(bridge).policy == old(bridge).policy,
        r is Ok <==> old(bridge).connections@.contains_key(conn) && !sql.spec_is_null()
            && valid_utf8(sql@),
        r matches Ok(query) ==> {
            &&& old(bridge).queries.gained(&final(bridge).queries, query)
            &&& final(bridge).queries@[query].conn == conn
            &&& final(bridge).queries@[query].query@ == decode_utf8(sql@)
            &&& final(bridge).queries@[query].params@.len() == 0
        },
        r matches Err(e) ==> e.kind == ErrorKind::Boundary && *final(bridge) == *old(bridge),
{
    if bridge.connections.get(conn).is_none() {
        return Err(stale_handle());
    }
    match sql.to_str() {
        Some(text) => {
            let query = Query { conn, query: text.to_owned(), params: Vec::new() };
            Ok(bridge.queries.insert(query))
        },
        None => Err(Error::new(ErrorKind::Boundary, "statement is not text".to_owned())),
    }
}

/// Binds one more parameter to the query behind `query`. Parameters are
/// encoded at once and kept in binding order.
///
/// The call is refused with a boundary error when `query` is not a live
/// query or its connection is gone, and with an encoding error when the tag
/// is unknown and the policy is strict. A refused call changes nothing.
pub fn query_param<C>(bridge: &mut Bridge<C>, query: Opaque, param: QueryParam) -> (r: Result<
    (),
    Error,
>)
    requires
        old(bridge).wf(),
    ensures
        final(bridge).wf(),
        old(bridge).precedes(final(bridge)),
        final(bridge).connections == old(bridge).connections,
        final(bridge).results == old(bridge).results,
        final(bridge).errors == old(bridge).errors,
        final(bridge).counts == old(bridge).counts,
        final(bridge).policy == old(bridge).policy,
        final(bridge).queries.retired() == old(bridge).queries.retired(),
        r is Ok <==> old(bridge).usable(query) && (known_type(param.typename@) is Some || old(
            bridge,
        ).policy == EncodingPolicy::Lenient),
        r is Ok ==> {
            let before = old(bridge).queries@[query];
            let after = final(bridge).queries@[query];
            &&& final(bridge).queries@ == old(bridge).queries@.insert(query, after)
            &&& after.conn == before.conn
            &&& after.query == before.query
            &&& after.params@.len() == before.params@.len() + 1
            &&& after.params@.drop_last() == before.params@
            &&& after.params@.last().spec_declared_type() == known_type(param.typename@)
            &&& after.params@.last().spec_value() == param.value@
        },
        r matches Err(e) ==> {
            &&& *final(bridge) == *old(bridge)
            &&& e.kind == if old(bridge).usable(query) {
                ErrorKind::Encoding
            } else {
                ErrorKind::Boundary
            }
        },
{
    let conn = match bridge.queries.get(query) {
        Some(q) => q.conn,
        None => {
            return Err(stale_handle());
        },
    };
    if bridge.connections.get(conn).is_none() {
        return Err(stale_handle());
    }
    let typed = match param.typed_param(bridge.policy) {
        Ok(typed) => typed,
        Err(e) => {
            return Err(e);
        },
    };
    match bridge.queries.get_mut(query) {
        Some(q) => {
            q.params.push(typed);
            Ok(())
        },
        None => Err(stale_handle()),
    }
}

/// A query on its one run: it has left the bridge, and what came of it has
/// not been reported yet.
///
/// A run remembers how many placeholders the session reported for the
/// prepared statement. It is ready when that number is known and equals the
/// number of bound parameters. Only a run that is ready can be reported as a
/// success.
#[derive(Debug)]
pub struct Run {
    query: Query,
    placeholders: Option<usize>,
}

impl Run {
    /// The query that is run.
    pub closed spec fn spec_query(&self) -> Query {
        self.query
    }

    /// The number of placeholders the session reported for the prepared
    /// statement; none as long as the statement was not prepared.
    pub closed spec fn spec_placeholders(&self) -> Option<usize> {
        self.placeholders
    }

    /// The statement was prepared, and it has as many placeholders as
    /// parameters were bound.
    pub open spec fn spec_ready(&self) -> bool {
        self.spec_placeholders() matches Some(n) && n == self.spec_query().params@.len()
    }

    /// The query that is run.
    pub fn query(&self) -> (query: &Query)
        ensures
            *query == self.spec_query(),
    {
        &self.query
    }

    /// Whether the statement was prepared and has as many placeholders as
    /// parameters were bound.
    #[verifier::when_used_as_spec(spec_ready)]
    pub fn ready(&self) -> (ready: bool)
        ensures
            ready == self.spec_ready(),
    {
        match self.placeholders {
            Some(n) => n == self.query.params.len(),
            None => false,
        }
    }

    /// Takes note that the statement was prepared and that the session
    /// reported `placeholders` placeholders for it, and holds the bound
    /// parameters against that number.
    ///
    /// The run is ready when the numbers agree. When they do not, the
    /// statement must not be sent, and the mismatch is an execution error.
    pub fn prepared(&mut self, placeholders: usize) -> (r: Result<(), Error>)
        ensures
            final(self).spec_query() == old(self).spec_query(),
            final(self).spec_placeholders() == Some(placeholders),
            r is Ok <==> final(self).spec_ready(),
            r matches Err(e) ==> e.kind == ErrorKind::Execution,
    {
        self.placeholders = Some(placeholders);
        self.query.check_arity(placeholders)
    }
}

/// What to do with a query that was handed in to be run.
#[derive(Debug)]
pub enum Dispatch<T> {
    /// The query cannot be run. The envelope says why.
    Refused(FFIResult<T>),
    /// The query has left the bridge: prepare it on the session behind its
    /// connection, run it once if it is ready then, and report what came of
    /// it.
    Run(Run),
}

/// Takes the query behind `query` out of the bridge for its one run.
fn dispatch<C, T>(bridge: &mut Bridge<C>, query: Opaque) -> (step: Dispatch<T>)
    requires
        old(bridge).wf(),
    ensures
        final(bridge).wf(),
        old(bridge).precedes(final(bridge)),
        final(bridge).connections == old(bridge).connections,
        final(bridge).results == old(bridge).results,
        final(bridge).counts == old(bridge).counts,
        final(bridge).policy == old(bridge).policy,
        old(bridge).consumed(final(bridge), query),
        step is Run <==> old(bridge).usable(query),
        step matches Dispatch::Run(run) ==> {
            &&& run.spec_query() == old(bridge).queries@[query]
            &&& run.spec_placeholders() is None
            &&& final(bridge).errors == old(bridge).errors
        },
        step matches Dispatch::Refused(envelope) ==> old(bridge).failed(
            final(bridge),
            &envelope,
            ErrorKind::Boundary,
        ),
{
    match bridge.queries.remove(query) {
        Some(q) => {
            if bridge.connections.get(q.conn).is_some() {
                Dispatch::Run(Run { query: q, placeholders: None })
            } else {
                Dispatch::Refused(FFIResult::from_error(&mut bridge.errors, stale_handle()))
            }
        },
        None => Dispatch::Refused(FFIResult::from_error(&mut bridge.errors, stale_handle())),
    }
}

/// Hands in the query behind `query` to be run for its count of affected
/// rows.
///
/// A live query is consumed by the call, whatever comes of it: its handle is
/// dead afterwards. The query is refused with a boundary error when the
/// handle is not a live query or when its connection is gone.
pub fn query_exec<C>(bridge: &mut Bridge<C>, query: Opaque) -> (step: Dispatch<u64>)
    requires
        old(bridge).wf(),
    ensures
        final(bridge).wf(),
        old(bridge).precedes(final(bridge)),
        final(bridge).connections == old(bridge).connections,
        final(bridge).results == old(bridge).results,
        final(bridge).counts == old(bridge).counts,
        final(bridge).policy == old(bridge).policy,
        old(bridge).consumed(final(bridge), query),
        step is Run <==> old(bridge).usable(query),
        step matches Dispatch::Run(run) ==> {
            &&& run.spec_query() == old(bridge).queries@[query]
            &&& run.spec_placeholders() is None
            &&& final(bridge).errors == old(bridge).errors
        },
        step matches Dispatch::Refused(envelope) ==> old(bridge).failed(
            final(bridge),
            &envelope,
            ErrorKind::Boundary,
        ),
{
    dispatch(bridge, query)
}

/// Hands in the query behind `query` to be run for its rows.
///
/// A live query is consumed by the call, whatever comes of it: its handle is
/// dead afterwards. The query is refused with a boundary error when the
/// handle is not a live query or when its connection is gone.
pub fn query_exec_result<C>(bridge: &mut Bridge<C>, query: Opaque) -> (step: Dispatch<QueryResult>)
    requires
        old(bridge).wf(),
    ensures
        final(bridge).wf(),
        old(bridge).precedes(final(bridge)),
        final(bridge).connections == old(bridge).connections,
        final(bridge).results == old(bridge).results,
        final(bridge).counts == old(bridge).counts,
        final(bridge).policy == old(bridge).policy,
        old(bridge).consumed(final(bridge), query),
        step is Run <==> old(bridge).usable(query),
        step matches Dispatch::Run(run) ==> {
            &&& run.spec_query() == old(bridge).queries@[query]
            &&& run.spec_placeholders() is None
            &&& final(bridge).errors == old(bridge).errors
        },
        step matches Dispatch::Refused(envelope) ==> old(bridge).failed(
            final(bridge),
            &envelope,
            ErrorKind::Boundary,
        ),
{
    dispatch(bridge, query)
}

/// Reports what came of a run for its count, and ends the run.
///
/// The count of a run that is ready is parked behind a fresh handle and
/// reported with status zero. A failure becomes an execution error with the
/// message given. A count for a run that is not ready, be it that the
/// statement was never prepared or that its placeholders do not fit the
/// bound parameters, is not believed: it becomes an execution error too.
pub fn executed<C>(bridge: &mut Bridge<C>, run: Run, outcome: Result<u64, String>) -> (envelope:
    FFIResult<u64>)
    requires
        old(bridge).wf(),
    ensures
        final(bridge).wf(),
        old(bridge).precedes(final(bridge)),
        final(bridge).connections == old(bridge).connections,
        final(bridge).queries == old(bridge).queries,
        final(bridge).results == old(bridge).results,
        final(bridge).policy == old(bridge).policy,
        envelope.spec_status() == 0 <==> run.spec_ready() && outcome is Ok,
        match outcome {
            Ok(count) if run.spec_ready() => {
                &&& envelope.spec_error() is None
                &&& envelope.spec_data() matches Some(token)
                &&& old(bridge).counts.gained(&final(bridge).counts, token)
                &&& final(bridge).counts@[token] == count
                &&& final(bridge).errors == old(bridge).errors
            },
            Ok(_) => {
                &&& old(bridge).failed(final(bridge), &envelope, ErrorKind::Execution)
                &&& final(bridge).counts == old(bridge).counts
            },
            Err(msg) => {
                &&& old(bridge).failed(final(bridge), &envelope, ErrorKind::Execution)
                &&& final(bridge).errors@[envelope.spec_error()->0].msg == msg
                &&& final(bridge).counts == old(bridge).counts
            },
        },
{
    match outcome {
        Ok(count) => {
            if run.ready() {
                FFIResult::from_obj(&mut bridge.counts, count)
            } else {
                FFIResult::from_error(&mut bridge.errors, not_ready())
            }
        },
        Err(msg) => FFIResult::from_error(&mut bridge.errors, Error::new(ErrorKind::Execution, msg)),
    }
}

/// The failure reported for a result of a statement that should not have
/// been sent.
fn not_ready() -> (e: Error)
    ensures
        e.kind == ErrorKind::Execution,
{
    Error::new(ErrorKind::Execution, "statement was run before it was ready".to_owned())
}

/// Reports what came of a run for its rows, and ends the run.
///
/// The rows of a run that is ready become a result set that stands before
/// its first row, parked behind a fresh handle and reported with status
/// zero. A failure becomes an execution error with the message given. Rows
/// for a run that is not ready, be it that the statement was never prepared
/// or that its placeholders do not fit the bound parameters, are not
/// believed: they become an execution error too.
pub fn executed_with_result<C>(
    bridge: &mut Bridge<C>,
    run: Run,
    outcome: Result<Vec<Row>, String>,
) -> (envelope: FFIResult<QueryResult>)
    requires
        old(bridge).wf(),
    ensures
        final(bridge).wf(),
        old(bridge).precedes(final(bridge)),
        final(bridge).connections == old(bridge).connections,
        final(bridge).queries == old(bridge).queries,
        final(bridge).counts == old(bridge).counts,
        final(bridge).policy == old(bridge).policy,
        envelope.spec_status() == 0 <==> run.spec_ready() && outcome is Ok,
        match outcome {
            Ok(rows) if run.spec_ready() => {
                &&& envelope.spec_error() is None
                &&& envelope.spec_data() matches Some(token)
                &&& old(bridge).results.gained(&final(bridge).results, token)
                &&& final(bridge).results@[token]@ == (StreamView {
                    rows: rows@,
                    cursor: 0,
                    current: false,
                })
                &&& final(bridge).errors == old(bridge).errors
            },
            Ok(_) => {
                &&& old(bridge).failed(final(bridge), &envelope, ErrorKind::Execution)
                &&& final(bridge).results == old(bridge).results
            },
            Err(msg) => {
                &&& old(bridge).failed(final(bridge), &envelope, ErrorKind::Execution)
                &&& final(bridge).errors@[envelope.spec_error()->0].msg == msg
                &&& final(bridge).results == old(bridge).results
            },
        },
{
    match outcome {
        Ok(rows) => {
            if run.ready() {
                FFIResult::from_obj(&mut bridge.results, QueryResult::from_rows(rows))
            } else {
                FFIResult::from_error(&mut bridge.errors, not_ready())
            }
        },
        Err(msg) => FFIResult::from_error(&mut bridge.errors, Error::new(ErrorKind::Execution, msg)),
    }
}

} // verus!
