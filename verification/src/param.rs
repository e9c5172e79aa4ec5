//! Parameters: the tags a caller may declare, and how a value is encoded
//! under its tag.

use crate::buffer::{bytes_eq, str_eq, Buffer};
use crate::error::{Error, ErrorKind};
use core::marker::PhantomData;
use vstd::prelude::*;
use vstd::utf8::encode_utf8;

verus! {

/// One value to bind, as the caller hands it over: a type tag and the bytes
/// of the value, both borrowed.
#[derive(Clone, Copy, Debug)]
pub struct QueryParam<'a> {
    /// A view of the type tag.
    pub typename: Buffer<'a>,
    /// A view of the bytes to send.
    pub value: Buffer<'a>,
}

/// Whether an encoded value stands for SQL NULL.
#[derive(Clone, Copy, PartialEq, Eq, Structural, Debug)]
pub enum IsNull {
    /// The value is NULL, and nothing was written for it.
    Yes,
    /// The value is not NULL.
    No,
}

/// What to do with a type tag the encoder does not know.
#[derive(Clone, Copy, PartialEq, Eq, Structural, Debug)]
pub enum EncodingPolicy {
    /// Bind the value untyped.
    Lenient,
    /// Refuse the parameter.
    Strict,
}

/// A SQL type that a parameter can be declared to have.
pub trait ParamType {
    /// The name of the type, as the database spells it.
    spec fn spec_name() -> Seq<char>;

    /// The name of the type, as the database spells it.
    fn name() -> (n: &'static str)
        ensures
            n@ == Self::spec_name(),
    ;
}

/// The SQL type `text`.
#[derive(Clone, Copy, Debug)]
pub struct Text;

/// The SQL type `int4`.
#[derive(Clone, Copy, Debug)]
pub struct Int4;

/// The SQL type `float8`.
#[derive(Clone, Copy, Debug)]
pub struct Float8;

impl ParamType for Text {
    open spec fn spec_name() -> Seq<char> {
        "text"@
    }

    fn name() -> (n: &'static str) {
        "text"
    }
}

impl ParamType for Int4 {
    open spec fn spec_name() -> Seq<char> {
        "int4"@
    }

    fn name() -> (n: &'static str) {
        "int4"
    }
}

impl ParamType for Float8 {
    open spec fn spec_name() -> Seq<char> {
        "float8"@
    }

    fn name() -> (n: &'static str) {
        "float8"
    }
}

/// A value bound under the declared type `T`. It owns its bytes.
#[derive(Debug)]
pub struct TypedQueryParam<T: ParamType> {
    value: Vec<u8>,
    phantom: PhantomData<T>,
}

impl<T: ParamType> View for TypedQueryParam<T> {
    type V = Seq<u8>;

    /// The bytes that go on the wire.
    closed spec fn view(&self) -> Seq<u8> {
        self.value@
    }
}

impl<T: ParamType> TypedQueryParam<T> {
    /// Copies the bytes in view, so that the parameter outlives the view.
    pub fn new(value: Buffer) -> (p: Self)
        ensures
            p@ == value@,
    {
        TypedQueryParam { value: value.to_vec(), phantom: PhantomData }
    }

    /// The bytes that go on the wire.
    pub fn value(&self) -> (bytes: &[u8])
        ensures
            bytes@ == self@,
    {
        self.value.as_slice()
    }

    /// Appends the bytes of the value to `out`. A bound value is never NULL.
    pub fn to_sql(&self, out: &mut Vec<u8>) -> (null: IsNull)
        ensures
            final(out)@ == old(out)@ + self@,
            null == IsNull::No,
    {
        append_bytes(out, self.value.as_slice());
        IsNull::No
    }

    /// Whether a value declared as `T` may be sent for a placeholder of the
    /// type called `ty`: only when the names agree.
    pub fn accepts(ty: &str) -> (ok: bool)
        ensures
            ok == (ty@ == T::spec_name()),
    {
        str_eq(ty, T::name())
    }
}

/// Appends `bytes` to `out`.
pub fn append_bytes(out: &mut Vec<u8>, bytes: &[u8])
    ensures
        final(out)@ == old(out)@ + bytes@,
{
    let mut i: usize = 0;
    while i < bytes.len()
        invariant
            i <= bytes.len(),
            out@ == old(out)@ + bytes@.subrange(0, i as int),
        decreases bytes.len() - i,
    {
        out.push(bytes[i]);
        i += 1;
    }
}

/// The declared type that a tag names, if the encoder knows the tag.
pub open spec fn known_type(tag: Seq<u8>) -> Option<Seq<char>> {
    if tag == encode_utf8(Text::spec_name()) {
        Some(Text::spec_name())
    } else if tag == encode_utf8(Int4::spec_name()) {
        Some(Int4::spec_name())
    } else if tag == encode_utf8(Float8::spec_name()) {
        Some(Float8::spec_name())
    } else {
        None
    }
}

/// A bound parameter: a value under one of the known types, or an untyped
/// value.
#[derive(Debug)]
pub enum TypedParam {
    /// A value declared as `text`.
    Text(TypedQueryParam<Text>),
    /// A value declared as `int4`.
    Int4(TypedQueryParam<Int4>),
    /// A value declared as `float8`.
    Float8(TypedQueryParam<Float8>),
    /// A value whose tag the encoder does not know. It is sent as it is, for
    /// a placeholder of any type.
    Raw(Vec<u8>),
}

impl TypedParam {
    /// The name of the declared type; none for an untyped value.
    pub open spec fn spec_declared_type(&self) -> Option<Seq<char>> {
        match self {
            TypedParam::Text(_) => Some(Text::spec_name()),
            TypedParam::Int4(_) => Some(Int4::spec_name()),
            TypedParam::Float8(_) => Some(Float8::spec_name()),
            TypedParam::Raw(_) => None,
        }
    }

    /// The bytes that go on the wire.
    pub open spec fn spec_value(&self) -> Seq<u8> {
        match self {
            TypedParam::Text(p) => p@,
            TypedParam::Int4(p) => p@,
            TypedParam::Float8(p) => p@,
            TypedParam::Raw(bytes) => bytes@,
        }
    }

    /// The name of the declared type; none for an untyped value.
    pub fn declared_type(&self) -> (n: Option<&'static str>)
        ensures
            n is Some <==> self.spec_declared_type() is Some,
            n matches Some(name) ==> Some(name@) == self.spec_declared_type(),
    {
        match self {
            TypedParam::Text(_) => Some(Text::name()),
            TypedParam::Int4(_) => Some(Int4::name()),
            TypedParam::Float8(_) => Some(Float8::name()),
            TypedParam::Raw(_) => None,
        }
    }

    /// The bytes that go on the wire.
    pub fn value(&self) -> (bytes: &[u8])
        ensures
            bytes@ == self.spec_value(),
    {
        match self {
            TypedParam::Text(p) => p.value(),
            TypedParam::Int4(p) => p.value(),
            TypedParam::Float8(p) => p.value(),
            TypedParam::Raw(bytes) => bytes.as_slice(),
        }
    }

    /// Appends the bytes of the value to `out`. A bound value is never NULL.
    pub fn to_sql(&self, out: &mut Vec<u8>) -> (null: IsNull)
        ensures
            final(out)@ == old(out)@ + self.spec_value(),
            null == IsNull::No,
    {
        match self {
            TypedParam::Text(p) => p.to_sql(out),
            TypedParam::Int4(p) => p.to_sql(out),
            TypedParam::Float8(p) => p.to_sql(out),
            TypedParam::Raw(bytes) => {
                append_bytes(out, bytes.as_slice());
                IsNull::No
            },
        }
    }

    /// Whether the parameter may be sent for a placeholder of the type
    /// called `ty`. A typed value needs the very type it was declared with;
    /// an untyped value goes anywhere.
    pub fn accepts(&self, ty: &str) -> (ok: bool)
        ensures
            ok == match self.spec_declared_type() {
                Some(name) => ty@ == name,
                None => true,
            },
    {
        match self {
            TypedParam::Text(_) => TypedQueryParam::<Text>::accepts(ty),
            TypedParam::Int4(_) => TypedQueryParam::<Int4>::accepts(ty),
            TypedParam::Float8(_) => TypedQueryParam::<Float8>::accepts(ty),
            TypedParam::Raw(_) => QueryParam::accepts(ty),
        }
    }
}

impl<'a> QueryParam<'a> {
    /// Encodes the parameter under the type its tag names.
    ///
    /// The known tags are `text`, `int4` and `float8`. What happens to any
    /// other tag is the caller's choice: under the lenient policy the value is
    /// bound untyped, under the strict policy the parameter is refused.
    pub fn typed_param(&self, policy: EncodingPolicy) -> (r: Result<TypedParam, Error>)
        ensures
            r is Err <==> known_type(self.typename@) is None && policy == EncodingPolicy::Strict,
            r matches Ok(p) ==> {
                &&& p.spec_declared_type() == known_type(self.typename@)
                &&& p.spec_value() == self.value@
            },
            r matches Err(e) ==> e.kind == ErrorKind::Encoding,
    {
        let tag = self.typename.as_bytes();
        if bytes_eq(tag, Text::name().as_bytes()) {
            Ok(TypedParam::Text(TypedQueryParam::new(self.value)))
        } else if bytes_eq(tag, Int4::name().as_bytes()) {
            Ok(TypedParam::Int4(TypedQueryParam::new(self.value)))
        } else if bytes_eq(tag, Float8::name().as_bytes()) {
            Ok(TypedParam::Float8(TypedQueryParam::new(self.value)))
        } else {
            match policy {
                EncodingPolicy::Lenient => Ok(TypedParam::Raw(self.value.to_vec())),
                EncodingPolicy::Strict => Err(
                    Error::new(ErrorKind::Encoding, "unknown parameter type".to_owned()),
                ),
            }
        }
    }

    /// Appends the bytes of the value to `out`, whatever the tag says. A
    /// bound value is never NULL.
    pub fn to_sql(&self, out: &mut Vec<u8>) -> (null: IsNull)
        ensures
            final(out)@ == old(out)@ + self.value@,
            null == IsNull::No,
    {
        append_bytes(out, self.value.as_bytes());
        IsNull::No
    }

    /// Whether an untyped value may be sent for a placeholder of the type
    /// called `ty`: always.
    pub fn accepts(ty: &str) -> (ok: bool)
        ensures
            ok,
    {
        true
    }
}

} // verus!
