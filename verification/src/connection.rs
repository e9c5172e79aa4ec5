//! Opening and closing database sessions.
//!
//! Opening takes two steps. The bridge first holds the connection string
//! against the grammar of the database client. Only a string that passes is
//! handed back, parsed, for the caller to dial; what the dialling gave then
//! comes back to the bridge, which parks the session behind a handle.

use crate::bridge::Bridge;
use crate::buffer::Buffer;
use crate::error::{Error, ErrorKind};
use crate::opaque::{stale_handle, Opaque};
use crate::result::FFIResult;
use vstd::prelude::*;
use vstd::utf8::{decode_utf8, valid_utf8};

verus! {

/// `postgres::Config`, the parsed connection parameters of the database
/// client. The bridge looks at nothing inside; it only carries a value from
/// the parser to the caller.
#[verifier::external_type_specification]
#[verifier::external_body]
pub struct ExConfig(postgres::Config);

/// What `postgres::Config`'s parser objects to in a connection string:
/// nothing for a string it accepts, else the message of its error.
pub uninterp spec fn dsn_fault(dsn: Seq<char>) -> Option<Seq<char>>;

/// Parses a connection string with `postgres::Config`'s `FromStr` and
/// renders the error, where there is one, with its `Display`.
///
/// The parser reads nothing but the string, so its verdict is a function of
/// the string; the contract gives that verdict the name `dsn_fault`. The
/// message the client renders for an error is a fixed description of the
/// error's class, and no class has an empty one. None of this is proved
/// here.
#[verifier::external_body]
fn parse_dsn(dsn: &str) -> (r: Result<postgres::Config, String>)
    ensures
        match r {
            Ok(_) => dsn_fault(dsn@) is None,
            Err(msg) => dsn_fault(dsn@) == Some(msg@) && msg@.len() > 0,
        },
{
    match dsn.parse::<postgres::Config>() {
        Ok(config) => Ok(config),
        Err(e) => Err(format!("{}", e)),
    }
}

/// The next step in opening a session.
#[derive(Debug)]
pub enum Connecting<C> {
    /// The connection string is no good. The envelope says why.
    Refused(FFIResult<C>),
    /// The connection string is well-formed: dial with these parameters and
    /// report what came of it.
    Dial(postgres::Config),
}

/// First step of opening a session: holds the connection string against
/// the client's grammar.
///
/// The string is refused with a connection error when the view holds no
/// text or the client's parser objects to the text.
pub fn connect<C>(bridge: &mut Bridge<C>, dsn: Buffer) -> (step: Connecting<C>)
    requires
        old(bridge).wf(),
    ensures
        final(bridge).wf(),
        old(bridge).precedes(final(bridge)),
        final(bridge).connections == old(bridge).connections,
        final(bridge).queries == old(bridge).queries,
        final(bridge).results == old(bridge).results,
        final(bridge).counts == old(bridge).counts,
        final(bridge).policy == old(bridge).policy,
        step is Dial <==> !dsn.spec_is_null() && valid_utf8(dsn@) && dsn_fault(decode_utf8(dsn@))
            is None,
        step is Dial ==> *final(bridge) == *old(bridge),
        step matches Connecting::Refused(envelope) ==> {
            &&& old(bridge).failed(final(bridge), &envelope, ErrorKind::Connection)
            &&& final(bridge).errors@[envelope.spec_error()->0].msg@.len() > 0
            &&& !dsn.spec_is_null() && valid_utf8(dsn@) ==> Some(
                final(bridge).errors@[envelope.spec_error()->0].msg@,
            ) == dsn_fault(decode_utf8(dsn@))
        },
{
    match dsn.to_str() {
        Some(text) => connect_parsed(bridge, parse_dsn(text)),
        None => connect_parsed(bridge, Err(not_text())),
    }
}

/// The message for a connection string that is no text at all.
fn not_text() -> (msg: String)
    ensures
        msg@.len() > 0,
{
    let msg = "connection string is not text".to_owned();
    proof {
        reveal_strlit("connection string is not text");
    }
    msg
}

/// Decides on a connection string from what the parser made of it.
///
/// A parsed string is handed on for dialling and nothing changes. A fault
/// becomes a connection error with the parser's message, in an envelope.
pub fn connect_parsed<C>(bridge: &mut Bridge<C>, parsed: Result<postgres::Config, String>) -> (step:
    Connecting<C>)
    requires
        old(bridge).wf(),
    ensures
        final(bridge).wf(),
        old(bridge).precedes(final(bridge)),
        final(bridge).connections == old(bridge).connections,
        final(bridge).queries == old(bridge).queries,
        final(bridge).results == old(bridge).results,
        final(bridge).counts == old(bridge).counts,
        final(bridge).policy == old(bridge).policy,
        match parsed {
            Ok(config) => step == Connecting::<C>::Dial(config) && *final(bridge) == *old(bridge),
            Err(msg) => {
                &&& step matches Connecting::Refused(envelope)
                &&& old(bridge).failed(final(bridge), &envelope, ErrorKind::Connection)
                &&& final(bridge).errors@[envelope.spec_error()->0].msg == msg
            },
        },
{
    match parsed {
        Ok(config) => Connecting::Dial(config),
        Err(msg) => Connecting::Refused(
            FFIResult::from_error(&mut bridge.errors, Error::new(ErrorKind::Connection, msg)),
        ),
    }
}

/// Second step of opening a session: takes what the dialling gave.
///
/// A session is parked behind a handle that was never alive before, and the
/// envelope reports success with that handle. A failure becomes a connection
/// error with the message given.
pub fn connected<C>(bridge: &mut Bridge<C>, outcome: Result<C, String>) -> (envelope: FFIResult<C>)
    requires
        old(bridge).wf(),
    ensures
        final(bridge).wf(),
        old(bridge).precedes(final(bridge)),
        final(bridge).queries == old(bridge).queries,
        final(bridge).results == old(bridge).results,
        final(bridge).counts == old(bridge).counts,
        final(bridge).policy == old(bridge).policy,
        match outcome {
            Ok(session) => {
                &&& envelope.spec_status() == 0
                &&& envelope.spec_error() is None
                &&& envelope.spec_data() matches Some(conn)
                &&& old(bridge).connections.gained(&final(bridge).connections, conn)
                &&& final(bridge).connections@[conn] == session
                &&& final(bridge).errors == old(bridge).errors
            },
            Err(msg) => {
                &&& old(bridge).failed(final(bridge), &envelope, ErrorKind::Connection)
                &&& final(bridge).errors@[envelope.spec_error()->0].msg == msg
                &&& final(bridge).connections == old(bridge).connections
            },
        },
{
    match outcome {
        Ok(session) => FFIResult::from_obj(&mut bridge.connections, session),
        Err(msg) => FFIResult::from_error(
            &mut bridge.errors,
            Error::new(ErrorKind::Connection, msg),
        ),
    }
}

/// Closes a session: takes it out of the bridge and hands it back, to be
/// shut down.
///
/// A connection can be closed once. A handle that is not a live connection,
/// be it because it was closed before, is refused, and nothing changes.
/// Queries built on the connection stay, but can no longer be used.
pub fn close<C>(bridge: &mut Bridge<C>, conn: Opaque) -> (r: Result<C, Error>)
    requires
        old(bridge).wf(),
    ensures
        final(bridge).wf(),
        old(bridge).precedes(final(bridge)),
        final(bridge).queries == old(bridge).queries,
        final(bridge).results == old(bridge).results,
        final(bridge).errors == old(bridge).errors,
        final(bridge).counts == old(bridge).counts,
        final(bridge).policy == old(bridge).policy,
        r is Ok <==> old(bridge).connections@.contains_key(conn),
        r matches Ok(session) ==> {
            &&& session == old(bridge).connections@[conn]
            &&& old(bridge).connections.lost(&final(bridge).connections, conn)
        },
        r matches Err(e) ==> e.kind == ErrorKind::Boundary && *final(bridge) == *old(bridge),
{
    match bridge.connections.remove(conn) {
        Some(session) => Ok(session),
        None => Err(stale_handle()),
    }
}

} // verus!
