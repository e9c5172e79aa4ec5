//! Failure details that cross the boundary: a class, its status code and a
//! message.

use crate::bridge::Bridge;
use crate::buffer::Buffer;
use crate::opaque::{stale_handle, Opaque};
use vstd::prelude::*;
use vstd::utf8::encode_utf8;

verus! {

/// The four classes of failure the bridge reports.
#[derive(Clone, Copy, PartialEq, Eq, Structural, Debug)]
pub enum ErrorKind {
    /// The connection string is malformed, or the session could not be set up.
    Connection,
    /// The statement failed, or its parameters do not fit its placeholders.
    Execution,
    /// A parameter carries a type tag the encoder does not know.
    Encoding,
    /// A handle, a buffer or an index handed over the boundary is not valid.
    Boundary,
}

impl ErrorKind {
    /// The status byte that stands for this class. It is never zero: zero
    /// means success.
    pub open spec fn spec_code(self) -> u8 {
        match self {
            ErrorKind::Connection => 1,
            ErrorKind::Execution => 2,
            ErrorKind::Encoding => 3,
            ErrorKind::Boundary => 4,
        }
    }

    /// The status byte that stands for this class.
    #[verifier::when_used_as_spec(spec_code)]
    pub fn code(self) -> (c: u8)
        ensures
            c == self.spec_code(),
            c != 0,
    {
        match self {
            ErrorKind::Connection => 1,
            ErrorKind::Execution => 2,
            ErrorKind::Encoding => 3,
            ErrorKind::Boundary => 4,
        }
    }
}

/// One failure: its class and an owned message.
#[derive(Debug)]
pub struct Error {
    /// The class of the failure.
    pub kind: ErrorKind,
    /// What went wrong, in words.
    pub msg: String,
}

impl Error {
    /// A failure of class `kind` with the message `msg`.
    pub fn new(kind: ErrorKind, msg: String) -> (e: Error)
        ensures
            e.kind == kind,
            e.msg == msg,
    {
        Error { kind, msg }
    }

    /// The status byte of this failure.
    pub fn code(&self) -> (c: u8)
        ensures
            c == self.kind.spec_code(),
            c != 0,
    {
        self.kind.code()
    }
}

/// A view of the message of the failure behind `error`. The view is good
/// for as long as the failure is not freed.
///
/// A handle that is not a live failure is refused.
pub fn error_msg<'a, C>(bridge: &'a Bridge<C>, error: Opaque) -> (r: Result<Buffer<'a>, Error>)
    ensures
        r is Ok <==> bridge.errors@.contains_key(error),
        r matches Ok(view) ==> {
            &&& !view.spec_is_null()
            &&& view@ == encode_utf8(bridge.errors@[error].msg@)
        },
        r matches Err(e) ==> e.kind == ErrorKind::Boundary,
{
    match bridge.errors.get(error) {
        Some(e) => Ok(Buffer::from_str(e.msg.as_str())),
        None => Err(stale_handle()),
    }
}

/// Frees the failure behind `error`.
///
/// A failure can be freed once. A handle that is not a live failure, be it
/// because it was freed before, is refused, and nothing changes.
pub fn error_free<C>(bridge: &mut Bridge<C>, error: Opaque) -> (r: Result<(), Error>)
    requires
        old(bridge).wf(),
    ensures
        final(bridge).wf(),
        old(bridge).precedes(final(bridge)),
        final(bridge).connections == old(bridge).connections,
        final(bridge).queries == old(bridge).queries,
        final(bridge).results == old(bridge).results,
        final(bridge).counts == old(bridge).counts,
        final(bridge).policy == old(bridge).policy,
        r is Ok <==> old(bridge).errors@.contains_key(error),
        r is Ok ==> old(bridge).errors.lost(&final(bridge).errors, error),
        r matches Err(e) ==> e.kind == ErrorKind::Boundary && *final(bridge) == *old(bridge),
{
    match bridge.errors.remove(error) {
        Some(_) => Ok(()),
        None => Err(stale_handle()),
    }
}

} // verus!
