//! The envelope in which every fallible call hands back its outcome.

use crate::error::Error;
use crate::opaque::{HandleTable, Opaque, OpaquePtr};
use vstd::prelude::*;

verus! {

/// The outcome of a call: a status byte with either a handle to the payload
/// or a handle to the failure, never both and never neither.
#[derive(Debug)]
pub struct FFIResult<T> {
    status: u8,
    data: Option<OpaquePtr<T>>,
    error: Option<OpaquePtr<Error>>,
}

impl<T> FFIResult<T> {
    /// Status zero goes with a payload and no failure; any other status goes
    /// with a failure and no payload.
    #[verifier::type_invariant]
    spec fn inv(self) -> bool {
        &&& self.status == 0 <==> self.data is Some
        &&& self.status != 0 <==> self.error is Some
    }

    /// The status byte; zero means success.
    pub closed spec fn spec_status(&self) -> u8 {
        self.status
    }

    /// The token of the payload, where there is one.
    pub closed spec fn spec_data(&self) -> Option<Opaque> {
        match self.data {
            Some(p) => Some(p@),
            None => None,
        }
    }

    /// The token of the failure, where there is one.
    pub closed spec fn spec_error(&self) -> Option<Opaque> {
        match self.error {
            Some(p) => Some(p@),
            None => None,
        }
    }

    /// The status byte; zero means success. It tells which of the two
    /// handles is there.
    #[verifier::when_used_as_spec(spec_status)]
    pub fn status(&self) -> (s: u8)
        ensures
            s == self.spec_status(),
            s == 0 <==> self.spec_data() is Some,
            s != 0 <==> self.spec_error() is Some,
    {
        proof {
            use_type_invariant(self);
        }
        self.status
    }

    /// The token of the payload; there is one exactly when the status is
    /// zero.
    #[verifier::when_used_as_spec(spec_data)]
    pub fn data(&self) -> (d: Option<Opaque>)
        ensures
            d == self.spec_data(),
            d is Some <==> self.spec_status() == 0,
    {
        proof {
            use_type_invariant(self);
        }
        match &self.data {
            Some(p) => Some(p.opaque()),
            None => None,
        }
    }

    /// The token of the failure; there is one exactly when the status is
    /// not zero.
    #[verifier::when_used_as_spec(spec_error)]
    pub fn error(&self) -> (e: Option<Opaque>)
        ensures
            e == self.spec_error(),
            e is Some <==> self.spec_status() != 0,
    {
        proof {
            use_type_invariant(self);
        }
        match &self.error {
            Some(p) => Some(p.opaque()),
            None => None,
        }
    }

    /// Success: parks `obj` in `table` and reports status zero with its
    /// handle.
    pub fn from_obj(table: &mut HandleTable<T>, obj: T) -> (r: Self)
        requires
            old(table).wf(),
        ensures
            final(table).wf(),
            old(table).precedes(final(table)),
            r.spec_status() == 0,
            r.spec_error() is None,
            r.spec_data() matches Some(token) && {
                &&& old(table).gained(final(table), token)
                &&& final(table)@[token] == obj
            },
    {
        let data = OpaquePtr::new(table, obj);
        FFIResult { status: 0, data: Some(data), error: None }
    }

    /// Failure: parks `error` in `errors` and reports its code as the status,
    /// with its handle.
    pub fn from_error(errors: &mut HandleTable<Error>, error: Error) -> (r: Self)
        requires
            old(errors).wf(),
        ensures
            final(errors).wf(),
            old(errors).precedes(final(errors)),
            r.spec_status() == error.kind.spec_code(),
            r.spec_status() != 0,
            r.spec_data() is None,
            r.spec_error() matches Some(token) && {
                &&& old(errors).gained(final(errors), token)
                &&& final(errors)@[token] == error
            },
    {
        let status = error.code();
        let handle = OpaquePtr::new(errors, error);
        FFIResult { status, data: None, error: Some(handle) }
    }

    /// The envelope for the outcome of any fallible operation.
    pub fn from_result(
        table: &mut HandleTable<T>,
        errors: &mut HandleTable<Error>,
        result: Result<T, Error>,
    ) -> (r: Self)
        requires
            old(table).wf(),
            old(errors).wf(),
        ensures
            final(table).wf(),
            old(table).precedes(final(table)),
            final(errors).wf(),
            old(errors).precedes(final(errors)),
            match result {
                Ok(obj) => {
                    &&& r.spec_status() == 0
                    &&& r.spec_error() is None
                    &&& *final(errors) == *old(errors)
                    &&& r.spec_data() matches Some(token)
                    &&& old(table).gained(final(table), token)
                    &&& final(table)@[token] == obj
                },
                Err(error) => {
                    &&& r.spec_status() == error.kind.spec_code()
                    &&& r.spec_status() != 0
                    &&& r.spec_data() is None
                    &&& *final(table) == *old(table)
                    &&& r.spec_error() matches Some(token)
                    &&& old(errors).gained(final(errors), token)
                    &&& final(errors)@[token] == error
                },
            },
    {
        match result {
            Ok(obj) => Self::from_obj(table, obj),
            Err(error) => Self::from_error(errors, error),
        }
    }
}

} // verus!
