//! Result sets: a forward-only walk over the rows a statement gave.

use crate::bridge::Bridge;
use crate::error::{Error, ErrorKind};
use crate::opaque::{stale_handle, Opaque};
use crate::row::Row;
use vstd::prelude::*;

verus! {

/// What a result set is, as far as its callers can tell: its rows, how many
/// of them were handed out, and whether the last one handed out is still the
/// current row.
pub struct StreamView {
    /// The rows, in the order they are handed out.
    pub rows: Seq<Row>,
    /// How many rows were handed out so far.
    pub cursor: nat,
    /// Whether the row handed out last is still the current row.
    pub current: bool,
}

impl StreamView {
    /// No row is left to hand out.
    pub open spec fn exhausted(self) -> bool {
        self.cursor >= self.rows.len()
    }

    /// The position of the row the next advance hands out; none at the end
    /// of the results.
    pub open spec fn yields(self) -> Option<nat> {
        if self.exhausted() {
            None
        } else {
            Some(self.cursor)
        }
    }

    /// The result set after one advance.
    pub open spec fn advanced(self) -> StreamView {
        if self.exhausted() {
            StreamView { current: false, ..self }
        } else {
            StreamView { cursor: self.cursor + 1, current: true, ..self }
        }
    }

    /// The result set after `n` advances.
    pub open spec fn advanced_by(self, n: nat) -> StreamView
        decreases n,
    {
        if n == 0 {
            self
        } else {
            self.advanced().advanced_by((n - 1) as nat)
        }
    }

    /// The position of the current row, if there is one.
    pub open spec fn current_index(self) -> Option<nat> {
        if self.current && self.cursor > 0 {
            Some((self.cursor - 1) as nat)
        } else {
            None
        }
    }

    /// Once a result set is exhausted it stays so: however often it is
    /// advanced, it hands out no row, and no row is current after the first
    /// advance.
    pub proof fn lemma_exhausted_stays_exhausted(self, n: nat)
        requires
            self.exhausted(),
        ensures
            self.advanced_by(n).exhausted(),
            self.advanced_by(n).yields() is None,
            self.advanced_by(n).rows == self.rows,
            self.advanced_by(n).cursor == self.cursor,
            n > 0 ==> !self.advanced_by(n).current,
        decreases n,
    {
        if n > 0 {
            self.advanced().lemma_exhausted_stays_exhausted((n - 1) as nat);
        }
    }

    /// A row is current only until the result set moves on: after one
    /// advance or more, the position that was current is current no more,
    /// and it never is again.
    pub proof fn lemma_advance_ends_row(self, n: nat)
        requires
            n > 0,
            self.current_index() is Some,
        ensures
            self.advanced_by(n).current_index() != self.current_index(),
    {
        if self.exhausted() {
            self.lemma_exhausted_stays_exhausted(n);
        } else {
            self.advanced().lemma_forward_only((n - 1) as nat);
        }
    }

    /// Advancing `m` times and then `k` times is advancing `m + k` times.
    pub proof fn lemma_advances_add_up(self, m: nat, k: nat)
        ensures
            self.advanced_by(m + k) == self.advanced_by(m).advanced_by(k),
        decreases m,
    {
        if m > 0 {
            self.advanced().lemma_advances_add_up((m - 1) as nat, k);
        }
    }

    /// A result set is walked in one pass: a row that was handed out is
    /// never handed out again.
    pub proof fn lemma_single_pass(self, m: nat, n: nat)
        requires
            m < n,
            self.advanced_by(m).yields() is Some,
        ensures
            self.advanced_by(n).yields() != self.advanced_by(m).yields(),
    {
        let at = self.advanced_by(m);
        self.lemma_advances_add_up(m, (n - m) as nat);
        at.advanced().lemma_forward_only((n - m - 1) as nat);
    }

    /// Advancing never goes back: the rows stay what they were and the
    /// cursor does not decrease.
    pub proof fn lemma_forward_only(self, n: nat)
        ensures
            self.advanced_by(n).rows == self.rows,
            self.advanced_by(n).cursor >= self.cursor,
        decreases n,
    {
        if n > 0 {
            self.advanced().lemma_forward_only((n - 1) as nat);
        }
    }
}

/// A result set together with its cursor. The two live and die together.
#[derive(Debug)]
pub struct QueryResult {
    rows: Vec<Row>,
    cursor: usize,
    current: bool,
}

impl View for QueryResult {
    type V = StreamView;

    closed spec fn view(&self) -> StreamView {
        StreamView { rows: self.rows@, cursor: self.cursor as nat, current: self.current }
    }
}

impl QueryResult {
    /// The cursor never runs past the rows, and a current row is one that
    /// was handed out.
    #[verifier::type_invariant]
    spec fn inv(self) -> bool {
        &&& self.cursor <= self.rows@.len()
        &&& self.current ==> self.cursor > 0
    }

    /// A result set over `rows`, standing before the first of them.
    pub fn from_rows(rows: Vec<Row>) -> (result: Self)
        ensures
            result@ == (StreamView { rows: rows@, cursor: 0, current: false }),
    {
        QueryResult { rows, cursor: 0, current: false }
    }

    /// Moves to the next row and returns its position, or returns nothing at
    /// the end of the results. The row that was current before is current no
    /// more.
    pub fn advance(&mut self) -> (r: Option<usize>)
        ensures
            final(self)@ == old(self)@.advanced(),
            match r {
                Some(index) => old(self)@.yields() == Some(index as nat),
                None => old(self)@.yields() is None,
            },
    {
        proof {
            use_type_invariant(&*self);
        }
        if self.cursor < self.rows.len() {
            let index = self.cursor;
            self.cursor = index + 1;
            self.current = true;
            Some(index)
        } else {
            self.current = false;
            None
        }
    }

    /// The row at `index`, if that is the current row.
    pub fn row(&self, index: usize) -> (r: Option<&Row>)
        ensures
            r is Some <==> self@.current_index() == Some(index as nat),
            r matches Some(row) ==> index < self@.rows.len() && *row == self@.rows[index as int],
    {
        proof {
            use_type_invariant(self);
        }
        if self.current && self.cursor - 1 == index {
            Some(&self.rows[index])
        } else {
            None
        }
    }

    /// Gives up the row at `index`, if that is the current row. Says whether
    /// it was.
    pub fn release(&mut self, index: usize) -> (released: bool)
        ensures
            released <==> old(self)@.current_index() == Some(index as nat),
            released ==> final(self)@ == (StreamView { current: false, ..old(self)@ }),
            !released ==> *final(self) == *old(self),
    {
        proof {
            use_type_invariant(&*self);
        }
        if self.current && self.cursor - 1 == index {
            self.current = false;
            true
        } else {
            false
        }
    }
}

/// Closes the result set behind `result`: its rows and its cursor go
/// together, and with them the row it stood on.
///
/// A result set can be closed once. A handle that is not a live result set,
/// be it because it was closed before, is refused, and nothing changes.
pub fn result_close<C>(bridge: &mut Bridge<C>, result: Opaque) -> (r: Result<(), Error>)
    requires
        old(bridge).wf(),
    ensures
        final(bridge).wf(),
        old(bridge).precedes(final(bridge)),
        final(bridge).connections == old(bridge).connections,
        final(bridge).queries == old(bridge).queries,
        final(bridge).errors == old(bridge).errors,
        final(bridge).counts == old(bridge).counts,
        final(bridge).policy == old(bridge).policy,
        r is Ok <==> old(bridge).results@.contains_key(result),
        r is Ok ==> old(bridge).results.lost(&final(bridge).results, result),
        r matches Err(e) ==> e.kind == ErrorKind::Boundary && *final(bridge) == *old(bridge),
{
    match bridge.results.remove(result) {
        Some(_) => Ok(()),
        None => Err(stale_handle()),
    }
}

} // verus!
