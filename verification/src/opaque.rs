//! Opaque handles, and the table that decides which of them are alive.
//!
//! A value handed to the foreign side is parked in a slot of a table, and the
//! caller gets a token made of plain integers. Every slot counts how often it
//! was given out, so a token that was freed never comes alive again, even when
//! its slot is used anew.

use crate::error::{Error, ErrorKind};
use core::marker::PhantomData;
use vstd::prelude::*;

verus! {

/// What kind of value a token stands for. A token is only honoured by a table
/// of its own kind.
#[derive(Clone, Copy, PartialEq, Eq, Structural, Debug)]
pub enum HandleKind {
    /// A database session.
    Connection,
    /// A statement that waits to be run.
    Query,
    /// A result set with its cursor.
    QueryResult,
    /// A failure with its message.
    Error,
    /// A count of affected rows.
    Count,
}

impl HandleKind {
    /// The byte that stands for this kind in a token laid out for the
    /// foreign side. Zero stands for no kind.
    pub open spec fn spec_code(self) -> u8 {
        match self {
            HandleKind::Connection => 1,
            HandleKind::Query => 2,
            HandleKind::QueryResult => 3,
            HandleKind::Error => 4,
            HandleKind::Count => 5,
        }
    }

    /// The byte that stands for this kind.
    #[verifier::when_used_as_spec(spec_code)]
    pub fn code(self) -> (c: u8)
        ensures
            c == self.spec_code(),
    {
        match self {
            HandleKind::Connection => 1,
            HandleKind::Query => 2,
            HandleKind::QueryResult => 3,
            HandleKind::Error => 4,
            HandleKind::Count => 5,
        }
    }

    /// The kind that `code` stands for, if it stands for one.
    pub fn from_code(code: u8) -> (kind: Option<HandleKind>)
        ensures
            kind is Some <==> 1 <= code <= 5,
            kind matches Some(k) ==> k.spec_code() == code,
    {
        match code {
            1 => Some(HandleKind::Connection),
            2 => Some(HandleKind::Query),
            3 => Some(HandleKind::QueryResult),
            4 => Some(HandleKind::Error),
            5 => Some(HandleKind::Count),
            _ => None,
        }
    }
}

/// The token a foreign caller holds: a kind, a slot and the generation of the
/// slot at the time the token was made.
#[derive(Clone, Copy, PartialEq, Eq, Structural, Debug)]
pub struct Opaque {
    /// The kind of value the token stands for.
    pub kind: HandleKind,
    /// The slot the value is parked in.
    pub slot: usize,
    /// How often the slot had been given out before.
    pub generation: u64,
}

#[derive(Debug)]
struct Slot<T> {
    generation: u64,
    value: Option<T>,
}

/// The values that are currently parked behind handles of one kind.
#[derive(Debug)]
pub struct HandleTable<T> {
    kind: HandleKind,
    slots: Vec<Slot<T>>,
    free: Vec<usize>,
}

impl<T> View for HandleTable<T> {
    type V = Map<Opaque, T>;

    /// The live tokens and the value behind each.
    closed spec fn view(&self) -> Map<Opaque, T> {
        Map::new(|t: Opaque| self.is_live(t), |t: Opaque| self.slots[t.slot as int].value->0)
    }
}

impl<T> HandleTable<T> {
    spec fn is_live(&self, t: Opaque) -> bool {
        &&& t.kind == self.kind
        &&& t.slot < self.slots.len()
        &&& self.slots[t.slot as int].generation == t.generation
        &&& self.slots[t.slot as int].value is Some
    }

    spec fn is_retired(&self, t: Opaque) -> bool {
        &&& t.kind == self.kind
        &&& t.slot < self.slots.len()
        &&& (t.generation < self.slots[t.slot as int].generation || (t.generation
            == self.slots[t.slot as int].generation && self.slots[t.slot as int].value is None))
    }

    /// The kind of token this table honours.
    pub closed spec fn kind(&self) -> HandleKind {
        self.kind
    }

    /// The tokens that were alive once and have been freed.
    pub closed spec fn retired(&self) -> Set<Opaque> {
        Set::new(|t: Opaque| self.is_retired(t))
    }

    /// Every slot on the free list is empty, can still be given out, and is
    /// listed once.
    pub closed spec fn wf(&self) -> bool {
        &&& forall|i: int|
            0 <= i < self.free.len() ==> {
                &&& (#[trigger] self.free[i]) < self.slots.len()
                &&& self.slots[self.free[i] as int].value is None
                &&& self.slots[self.free[i] as int].generation < u64::MAX
            }
        &&& forall|i: int, j: int|
            0 <= i < j < self.free.len() ==> self.free[i] != self.free[j]
    }

    /// `later` is this table with one more entry, parked behind a token
    /// that this table has never given out.
    pub open spec fn gained(&self, later: &Self, token: Opaque) -> bool {
        &&& token.kind == self.kind()
        &&& !self@.contains_key(token)
        &&& !self.retired().contains(token)
        &&& later@ == self@.insert(token, later@[token])
        &&& later.retired() == self.retired()
        &&& later.kind() == self.kind()
    }

    /// `later` is this table without the entry behind `token`, which is
    /// freed for good.
    pub open spec fn lost(&self, later: &Self, token: Opaque) -> bool {
        &&& self@.contains_key(token)
        &&& later@ == self@.remove(token)
        &&& later.retired() == self.retired().insert(token)
        &&& later.kind() == self.kind()
    }

    /// The tokens that this table has given out so far, alive or freed.
    pub open spec fn issued(&self) -> Set<Opaque> {
        self@.dom().union(self.retired())
    }

    /// `later` can follow this table in time: it has forgotten neither a
    /// token that was freed nor one that was given out. Every operation takes
    /// a table to such a `later`.
    pub open spec fn precedes(&self, later: &Self) -> bool {
        &&& later.kind() == self.kind()
        &&& self.retired().subset_of(later.retired())
        &&& self.issued().subset_of(later.issued())
    }

    /// A freed token is not alive, and a live token was never freed.
    pub proof fn lemma_retired_is_dead(&self, token: Opaque)
        ensures
            !(self@.contains_key(token) && self.retired().contains(token)),
    {
    }

    /// A handle that was freed stays dead: it is not alive in any table that
    /// follows, and so is refused wherever it is used.
    pub proof fn lemma_freed_stays_dead(&self, later: &Self, token: Opaque)
        requires
            self.precedes(later),
            self.retired().contains(token),
        ensures
            !later@.contains_key(token),
    {
        later.lemma_retired_is_dead(token);
    }

    /// A handle stays alive until it is freed: in any table that follows, a
    /// handle that was alive is still alive unless it was freed in between.
    pub proof fn lemma_alive_until_freed(&self, later: &Self, token: Opaque)
        requires
            self.precedes(later),
            self@.contains_key(token),
        ensures
            later@.contains_key(token) != later.retired().contains(token),
    {
        later.lemma_retired_is_dead(token);
        assert(self.issued().contains(token));
    }

    /// An empty table for tokens of `kind`.
    pub fn new(kind: HandleKind) -> (table: Self)
        ensures
            table.wf(),
            table.kind() == kind,
            table@ == Map::<Opaque, T>::empty(),
            table.retired() == Set::<Opaque>::empty(),
    {
        HandleTable { kind, slots: Vec::new(), free: Vec::new() }
    }

    /// Whether `token` is alive in this table.
    pub fn contains(&self, token: Opaque) -> (alive: bool)
        ensures
            alive == self@.contains_key(token),
    {
        token.kind == self.kind && token.slot < self.slots.len()
            && self.slots[token.slot].generation == token.generation
            && self.slots[token.slot].value.is_some()
    }

    /// Parks `value` and returns a token that was never given out before.
    pub fn insert(&mut self, value: T) -> (token: Opaque)
        requires
            old(self).wf(),
        ensures
            final(self).wf(),
            old(self).precedes(final(self)),
            old(self).gained(final(self), token),
            final(self)@[token] == value,
    {
        let token = match self.free.pop() {
            Some(slot) => {
                let generation: u64 = self.slots[slot].generation + 1;
                self.slots[slot] = Slot { generation, value: Some(value) };
                Opaque { kind: self.kind, slot, generation }
            },
            None => {
                let slot: usize = self.slots.len();
                self.slots.push(Slot { generation: 0, value: Some(value) });
                Opaque { kind: self.kind, slot, generation: 0 }
            },
        };
        assert(self@ =~= old(self)@.insert(token, value));
        assert(self.retired() =~= old(self).retired());
        token
    }

    /// Takes the value behind `token` out of the table, if the token is alive.
    /// The token is dead from then on.
    pub fn remove(&mut self, token: Opaque) -> (r: Option<T>)
        requires
            old(self).wf(),
        ensures
            final(self).wf(),
            old(self).precedes(final(self)),
            final(self).kind() == old(self).kind(),
            r is Some <==> old(self)@.contains_key(token),
            r matches Some(v) ==> v == old(self)@[token] && old(self).lost(final(self), token),
            r is None ==> *final(self) == *old(self),
    {
        if !self.contains(token) {
            return None;
        }
        let value = self.slots[token.slot].value.take();
        if token.generation < u64::MAX {
            self.free.push(token.slot);
        }
        assert(self@ =~= old(self)@.remove(token));
        assert(self.retired() =~= old(self).retired().insert(token));
        value
    }

    /// The value behind `token`, if the token is alive.
    pub fn get(&self, token: Opaque) -> (r: Option<&T>)
        ensures
            r is Some <==> self@.contains_key(token),
            r matches Some(v) ==> *v == self@[token],
    {
        if !self.contains(token) {
            return None;
        }
        self.slots[token.slot].value.as_ref()
    }

    /// The value behind `token`, for changing it in place, if the token is
    /// alive.
    pub fn get_mut(&mut self, token: Opaque) -> (r: Option<&mut T>)
        requires
            old(self).wf(),
        ensures
            final(self).wf(),
            old(self).precedes(final(self)),
            final(self).kind() == old(self).kind(),
            final(self).retired() == old(self).retired(),
            r is Some <==> old(self)@.contains_key(token),
            r matches Some(v) ==> {
                &&& *v == old(self)@[token]
                &&& final(self)@ == old(self)@.insert(token, *final(v))
            },
            r is None ==> *final(self) == *old(self),
    {
        if !self.contains(token) {
            return None;
        }
        self.slots[token.slot].value.as_mut()
    }
}

/// A token together with the type of the value it stands for.
#[derive(Debug)]
pub struct OpaquePtr<T> {
    ptr: Opaque,
    marker: PhantomData<T>,
}

impl<T> View for OpaquePtr<T> {
    type V = Opaque;

    /// The token inside.
    closed spec fn view(&self) -> Opaque {
        self.ptr
    }
}

impl<T> OpaquePtr<T> {
    /// Gives a token back its type. Whether the token is alive shows when
    /// it is used.
    pub fn from_ptr(ptr: Opaque) -> (p: Self)
        ensures
            p@ == ptr,
    {
        OpaquePtr { ptr, marker: PhantomData }
    }

    /// Moves the boxed value into `table` and returns the handle that stands
    /// for it from now on. The handle was never alive before.
    pub fn from_box(table: &mut HandleTable<T>, boxed_value: Box<T>) -> (p: Self)
        requires
            old(table).wf(),
        ensures
            final(table).wf(),
            old(table).precedes(final(table)),
            old(table).gained(final(table), p@),
            final(table)@[p@] == *boxed_value,
    {
        Self::from_ptr(table.insert(*boxed_value))
    }

    /// Moves `value` into `table` and returns the handle that stands for it
    /// from now on. The handle was never alive before.
    pub fn new(table: &mut HandleTable<T>, value: T) -> (p: Self)
        requires
            old(table).wf(),
        ensures
            final(table).wf(),
            old(table).precedes(final(table)),
            old(table).gained(final(table), p@),
            final(table)@[p@] == value,
    {
        Self::from_box(table, Box::new(value))
    }

    /// Ends the life of the handle and hands its value back.
    ///
    /// A handle can be freed once. It is refused when it is of another
    /// kind, was never given out, or was freed before.
    pub fn free(&self, table: &mut HandleTable<T>) -> (r: Result<T, Error>)
        requires
            old(table).wf(),
        ensures
            final(table).wf(),
            old(table).precedes(final(table)),
            final(table).kind() == old(table).kind(),
            r is Ok <==> old(table)@.contains_key(self@),
            r matches Ok(v) ==> v == old(table)@[self@] && old(table).lost(final(table), self@),
            r matches Err(e) ==> e.kind == ErrorKind::Boundary && *final(table) == *old(table),
    {
        match table.remove(self.ptr) {
            Some(value) => Ok(value),
            None => Err(stale_handle()),
        }
    }

    /// The token inside.
    pub fn as_ptr(&self) -> (ptr: Opaque)
        ensures
            ptr == self@,
    {
        self.ptr
    }

    /// The value behind the handle, if the handle is alive in `table`.
    pub fn as_ref<'a>(&self, table: &'a HandleTable<T>) -> (r: Result<&'a T, Error>)
        ensures
            r is Ok <==> table@.contains_key(self@),
            r matches Ok(v) ==> *v == table@[self@],
            r matches Err(e) ==> e.kind == ErrorKind::Boundary,
    {
        match table.get(self.ptr) {
            Some(value) => Ok(value),
            None => Err(stale_handle()),
        }
    }

    /// The value behind the handle, for changing it in place.
    pub fn as_mut<'a>(&self, table: &'a mut HandleTable<T>) -> (r: Result<&'a mut T, Error>)
        requires
            old(table).wf(),
        ensures
            final(table).wf(),
            old(table).precedes(final(table)),
            final(table).kind() == old(table).kind(),
            final(table).retired() == old(table).retired(),
            r is Ok <==> old(table)@.contains_key(self@),
            r matches Ok(v) ==> {
                &&& *v == old(table)@[self@]
                &&& final(table)@ == old(table)@.insert(self@, *final(v))
            },
            r matches Err(e) ==> e.kind == ErrorKind::Boundary && *final(table) == *old(table),
    {
        match table.get_mut(self.ptr) {
            Some(value) => Ok(value),
            None => Err(stale_handle()),
        }
    }

    /// Takes a token as it came over the boundary.
    pub fn from_opaque(opaque: Opaque) -> (p: Self)
        ensures
            p@ == opaque,
    {
        Self::from_ptr(opaque)
    }

    /// The token to hand over the boundary.
    pub fn opaque(&self) -> (token: Opaque)
        ensures
            token == self@,
    {
        self.ptr
    }
}

/// The failure reported for a handle that is not alive where it is used.
pub fn stale_handle() -> (e: Error)
    ensures
        e.kind == ErrorKind::Boundary,
{
    Error::new(ErrorKind::Boundary, "handle is not alive".to_owned())
}

} // verus!
