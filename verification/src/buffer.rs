//! Borrowed views of bytes and text.

use vstd::prelude::*;
use vstd::utf8::{decode_utf8, encode_utf8, encode_utf8_decode_utf8, valid_utf8};

verus! {

/// A view of bytes that somebody else owns, or the sentinel for "no value".
#[derive(Clone, Copy, Debug)]
pub struct Buffer<'a> {
    /// The bytes in view; none for the sentinel.
    pub bytes: Option<&'a [u8]>,
}

impl<'a> View for Buffer<'a> {
    type V = Seq<u8>;

    /// The bytes in view; none for the sentinel.
    open spec fn view(&self) -> Seq<u8> {
        match self.bytes {
            Some(data) => data@,
            None => Seq::empty(),
        }
    }
}

impl<'a> Buffer<'a> {
    /// Whether this is the sentinel. A view of no bytes is not the sentinel.
    pub open spec fn spec_is_null(&self) -> bool {
        self.bytes is None
    }

    /// The sentinel: a view of nothing, which stands for "no value".
    pub fn null() -> (b: Self)
        ensures
            b.spec_is_null(),
            b@.len() == 0,
    {
        Buffer { bytes: None }
    }

    /// A view of `data`. Nothing is copied.
    pub fn from_bytes(data: &'a [u8]) -> (b: Self)
        ensures
            !b.spec_is_null(),
            b@ == data@,
            b.bytes == Some(data),
    {
        Buffer { bytes: Some(data) }
    }

    /// A view of the bytes of `data`. Nothing is copied.
    pub fn from_str(data: &'a str) -> (b: Self)
        ensures
            !b.spec_is_null(),
            b@ == encode_utf8(data@),
    {
        Self::from_bytes(data.as_bytes())
    }

    /// Whether this is the sentinel.
    #[verifier::when_used_as_spec(spec_is_null)]
    pub fn is_null(&self) -> (n: bool)
        ensures
            n == self.spec_is_null(),
    {
        self.bytes.is_none()
    }

    /// The number of bytes in view.
    pub fn size(&self) -> (n: usize)
        ensures
            n == self@.len(),
    {
        match self.bytes {
            Some(data) => data.len(),
            None => 0,
        }
    }

    /// The bytes in view, as a slice; empty for the sentinel.
    pub fn as_bytes(&self) -> (data: &'a [u8])
        ensures
            data@ == self@,
    {
        match self.bytes {
            Some(data) => data,
            None => &[],
        }
    }

    /// The text in view. There is none when the view is the sentinel or when
    /// its bytes are not UTF-8.
    pub fn to_str(&self) -> (r: Option<&'a str>)
        ensures
            r is Some <==> !self.spec_is_null() && valid_utf8(self@),
            r matches Some(text) ==> text@ == decode_utf8(self@) && encode_utf8(text@) == self@,
    {
        match self.bytes {
            Some(data) => {
                let r = decode_text(data);
                proof {
                    if let Some(text) = r {
                        encode_utf8_decode_utf8(text@);
                    }
                }
                r
            },
            None => None,
        }
    }

    /// A copy of the bytes in view that owns its storage.
    pub fn to_vec(&self) -> (v: Vec<u8>)
        ensures
            v@ == self@,
    {
        let data = self.as_bytes();
        let mut v: Vec<u8> = Vec::new();
        let mut i: usize = 0;
        while i < data.len()
            invariant
                i <= data.len(),
                v@ == data@.subrange(0, i as int),
            decreases data.len() - i,
        {
            v.push(data[i]);
            i += 1;
        }
        v
    }
}

/// `core::str::from_utf8`: the text that the bytes encode, and nothing
/// exactly when they are not well-formed UTF-8. The contract is the one the
/// standard library documents; it is not proved here.
#[verifier::external_body]
fn decode_text<'a>(v: &'a [u8]) -> (r: Option<&'a str>)
    ensures
        r is Some <==> valid_utf8(v@),
        r matches Some(text) ==> encode_utf8(text@) == v@,
{
    match core::str::from_utf8(v) {
        Ok(text) => Some(text),
        Err(_) => None,
    }
}

/// Whether two runs of bytes hold the same bytes.
pub fn bytes_eq(a: &[u8], b: &[u8]) -> (same: bool)
    ensures
        same == (a@ == b@),
{
    if a.len() != b.len() {
        return false;
    }
    let mut i: usize = 0;
    while i < a.len()
        invariant
            i <= a.len(),
            a.len() == b.len(),
            a@.subrange(0, i as int) == b@.subrange(0, i as int),
        decreases a.len() - i,
    {
        if a[i] != b[i] {
            return false;
        }
        i += 1;
    }
    assert(a@.subrange(0, a.len() as int) =~= a@);
    assert(b@.subrange(0, b.len() as int) =~= b@);
    true
}

/// Whether two texts are the same, decided on their bytes.
pub fn str_eq(a: &str, b: &str) -> (same: bool)
    ensures
        same == (a@ == b@),
{
    proof {
        encode_utf8_decode_utf8(a@);
        encode_utf8_decode_utf8(b@);
    }
    bytes_eq(a.as_bytes(), b.as_bytes())
}

} // verus!
