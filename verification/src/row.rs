//! Rows of a result set and the values in them.

use crate::bridge::Bridge;
use crate::buffer::Buffer;
use crate::error::{Error, ErrorKind};
use crate::opaque::{stale_handle, Opaque};
use crate::stream::StreamView;
use vstd::prelude::*;
use vstd::utf8::encode_utf8;

verus! {

/// One column of one row: the name of its type and its encoded value, or no
/// value where the column holds SQL NULL.
#[derive(Debug)]
pub struct Column {
    /// The name of the column's type, as the database spells it.
    pub typename: String,
    /// The encoded value; none for SQL NULL.
    pub value: Option<Vec<u8>>,
}

/// One row of a result set.
#[derive(Debug)]
pub struct Row {
    /// The columns, in the order of the result set.
    pub columns: Vec<Column>,
}

/// The token for the row a result set currently stands on. It names the
/// result set and the position of the row in it, and is honoured only while
/// the result set stands on that row.
#[derive(Clone, Copy, PartialEq, Eq, Structural, Debug)]
pub struct RowHandle {
    /// The handle of the result set.
    pub stream: Opaque,
    /// The position of the row in the result set, counted from zero.
    pub index: usize,
}

/// What the caller sees of one column: views of the type name and of the
/// value, or the null item where the column holds SQL NULL.
#[derive(Clone, Copy, Debug)]
pub struct RowItem<'a> {
    /// A view of the name of the column's type.
    pub typename: Buffer<'a>,
    /// A view of the encoded value.
    pub value: Buffer<'a>,
}

impl<'a> RowItem<'a> {
    /// Whether this is the null item: both views are the sentinel.
    pub open spec fn spec_is_null(&self) -> bool {
        self.typename.spec_is_null() && self.value.spec_is_null()
    }

    /// The null item, which stands for SQL NULL.
    pub fn empty() -> (item: Self)
        ensures
            item.spec_is_null(),
            item.typename@.len() == 0,
            item.value@.len() == 0,
    {
        let buff = Buffer::null();
        RowItem { typename: buff, value: buff }
    }

    #[verifier::when_used_as_spec(spec_is_null)]
    pub fn is_null(&self) -> (n: bool)
        ensures
            n == self.spec_is_null(),
    {
        self.typename.is_null() && self.value.is_null()
    }
}

impl Column {
    /// What the caller is shown of this column.
    pub open spec fn shows(&self, item: RowItem) -> bool {
        match self.value {
            Some(bytes) => {
                &&& !item.typename.spec_is_null()
                &&& !item.value.spec_is_null()
                &&& item.typename@ == encode_utf8(self.typename@)
                &&& item.value@ == bytes@
            },
            None => item.spec_is_null(),
        }
    }

    /// Views of the type name and of the value, or the null item for SQL
    /// NULL. An empty value is not NULL: its view is empty, but it is not the
    /// sentinel.
    pub fn item<'a>(&'a self) -> (item: RowItem<'a>)
        ensures
            self.shows(item),
            item.spec_is_null() <==> self.value is None,
    {
        match &self.value {
            Some(bytes) => RowItem {
                typename: Buffer::from_str(self.typename.as_str()),
                value: Buffer::from_bytes(bytes.as_slice()),
            },
            None => RowItem::empty(),
        }
    }
}

/// SQL NULL and an empty value do not look alike: the item shown for a
/// column without a value is the null item, and the item shown for a column
/// with a value is not, even where the value has no bytes.
pub proof fn lemma_null_is_not_empty(null: Column, valued: Column, shown_null: RowItem, shown_valued: RowItem)
    requires
        null.value is None,
        valued.value is Some,
        null.shows(shown_null),
        valued.shows(shown_valued),
    ensures
        shown_null.spec_is_null(),
        !shown_valued.spec_is_null(),
        shown_null.value.spec_is_null() != shown_valued.value.spec_is_null(),
        shown_null != shown_valued,
        shown_valued.value@ == valued.value->0@,
{
}

impl Row {
    /// The number of columns.
    pub fn len(&self) -> (n: usize)
        ensures
            n == self.columns@.len(),
    {
        self.columns.len()
    }

    /// The item at column `i`, or nothing when the row has no such column.
    pub fn item<'a>(&'a self, i: usize) -> (r: Option<RowItem<'a>>)
        ensures
            r is Some <==> i < self.columns@.len(),
            r matches Some(item) ==> {
                &&& self.columns@[i as int].shows(item)
                &&& item.spec_is_null() <==> self.columns@[i as int].value is None
            },
    {
        if i < self.columns.len() {
            Some(self.columns[i].item())
        } else {
            None
        }
    }
}

/// Moves the result set behind `result` to its next row.
///
/// Returns the handle of the new current row, or nothing at the end of the
/// results. The handle of the row that was current before is dead from now
/// on. A result set that has reached its end stays there: every further call
/// returns nothing. A handle that is not a live result set is refused with a
/// boundary error.
pub fn next_row<C>(bridge: &mut Bridge<C>, result: Opaque) -> (r: Result<Option<RowHandle>, Error>)
    requires
        old(bridge).wf(),
    ensures
        final(bridge).wf(),
        old(bridge).precedes(final(bridge)),
        final(bridge).connections == old(bridge).connections,
        final(bridge).queries == old(bridge).queries,
        final(bridge).errors == old(bridge).errors,
        final(bridge).counts == old(bridge).counts,
        final(bridge).policy == old(bridge).policy,
        final(bridge).results.retired() == old(bridge).results.retired(),
        r is Ok <==> old(bridge).results@.contains_key(result),
        r is Ok ==> {
            &&& final(bridge).results@ == old(bridge).results@.insert(
                result,
                final(bridge).results@[result],
            )
            &&& final(bridge).results@[result]@ == old(bridge).results@[result]@.advanced()
        },
        r matches Ok(Some(row)) ==> {
            &&& row.stream == result
            &&& old(bridge).results@[result]@.yields() == Some(row.index as nat)
            &&& final(bridge).row_alive(row)
        },
        r matches Ok(None) ==> old(bridge).results@[result]@.yields() is None,
        r matches Err(e) ==> e.kind == ErrorKind::Boundary && *final(bridge) == *old(bridge),
{
    match bridge.results.get_mut(result) {
        Some(stream) => {
            match stream.advance() {
                Some(index) => Ok(Some(RowHandle { stream: result, index })),
                None => Ok(None),
            }
        },
        None => Err(stale_handle()),
    }
}

/// The row behind `row`, if that is the row its result set stands on.
fn current_row<'a, C>(bridge: &'a Bridge<C>, row: RowHandle) -> (r: Option<&'a Row>)
    ensures
        r is Some <==> bridge.row_alive(row),
        r matches Some(found) ==> *found == bridge.row(row),
{
    match bridge.results.get(row.stream) {
        Some(stream) => stream.row(row.index),
        None => None,
    }
}

/// The number of columns of the row behind `row`.
///
/// A handle that does not name the current row of a live result set is
/// refused with a boundary error.
pub fn row_len<C>(bridge: &Bridge<C>, row: RowHandle) -> (r: Result<usize, Error>)
    ensures
        r is Ok <==> bridge.row_alive(row),
        r matches Ok(n) ==> n == bridge.row(row).columns@.len(),
        r matches Err(e) ==> e.kind == ErrorKind::Boundary,
{
    match current_row(bridge, row) {
        Some(found) => Ok(found.len()),
        None => Err(stale_handle()),
    }
}

/// The item at column `i` of the row behind `row`: views of the type name
/// and of the value, or the null item where the column holds SQL NULL. The
/// views are good until the result set moves on or is closed.
///
/// A handle that does not name the current row of a live result set, and a
/// column the row does not have, are refused with a boundary error.
pub fn row_item<'a, C>(bridge: &'a Bridge<C>, row: RowHandle, i: usize) -> (r: Result<
    RowItem<'a>,
    Error,
>)
    ensures
        r is Ok <==> bridge.row_alive(row) && i < bridge.row(row).columns@.len(),
        r matches Ok(item) ==> {
            &&& bridge.row(row).columns@[i as int].shows(item)
            &&& item.spec_is_null() <==> bridge.row(row).columns@[i as int].value is None
        },
        r matches Err(e) ==> e.kind == ErrorKind::Boundary,
{
    match current_row(bridge, row) {
        Some(found) => match found.item(i) {
            Some(item) => Ok(item),
            None => Err(Error::new(ErrorKind::Boundary, "no such column".to_owned())),
        },
        None => Err(stale_handle()),
    }
}

/// Gives up the row behind `row` before its result set moves on.
///
/// A row can be given up once. A handle that does not name the current row
/// of a live result set is refused with a boundary error, and nothing
/// changes.
pub fn row_close<C>(bridge: &mut Bridge<C>, row: RowHandle) -> (r: Result<(), Error>)
    requires
        old(bridge).wf(),
    ensures
        final(bridge).wf(),
        old(bridge).precedes(final(bridge)),
        final(bridge).connections == old(bridge).connections,
        final(bridge).queries == old(bridge).queries,
        final(bridge).errors == old(bridge).errors,
        final(bridge).counts == old(bridge).counts,
        final(bridge).policy == old(bridge).policy,
        final(bridge).results.retired() == old(bridge).results.retired(),
        r is Ok <==> old(bridge).row_alive(row),
        r is Ok ==> {
            &&& final(bridge).results@ == old(bridge).results@.insert(
                row.stream,
                final(bridge).results@[row.stream],
            )
            &&& final(bridge).results@[row.stream]@ == (StreamView {
                current: false,
                ..old(bridge).results@[row.stream]@
            })
            &&& !final(bridge).row_alive(row)
        },
        r matches Err(e) ==> e.kind == ErrorKind::Boundary && *final(bridge) == *old(bridge),
{
    if current_row(bridge, row).is_none() {
        return Err(stale_handle());
    }
    match bridge.results.get_mut(row.stream) {
        Some(stream) => {
            stream.release(row.index);
            Ok(())
        },
        None => Err(stale_handle()),
    }
}

} // verus!
