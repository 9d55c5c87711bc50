//! What an element type must offer to be read out of an array value.

use crate::error::{outcome, ErrorView, SqlError};
use crate::types::{Kind, Type, INT4_OID};
use crate::wire::{buffer_bytes, int4_bytes, int4_from_wire, int4_to_wire, int4_value};
use bytes::BytesMut;
use vstd::prelude::*;

verus! {

/// A type whose values can be decoded from PostgreSQL's binary format.
pub trait FromSql: Sized {
    /// The types whose values this type can hold.
    spec fn accepts_spec(ty: Type) -> bool;

    /// What the bytes of a value of type `ty` decode to.
    spec fn from_sql_spec(ty: Type, raw: Seq<u8>) -> Result<Self, ErrorView>;

    /// What a SQL NULL of type `ty` decodes to.
    spec fn from_sql_null_spec(ty: Type) -> Result<Self, ErrorView>;

    /// Decodes the bytes of a value of type `ty`.
    fn from_sql(ty: &Type, raw: &[u8]) -> (r: Result<Self, SqlError>)
        ensures
            outcome(r) == Self::from_sql_spec(*ty, raw@),
    ;

    /// Decodes a SQL NULL of type `ty`.
    fn from_sql_null(ty: &Type) -> (r: Result<Self, SqlError>)
        ensures
            outcome(r) == Self::from_sql_null_spec(*ty),
    ;

    /// Says whether this type can hold values of type `ty`.
    fn accepts(ty: &Type) -> (b: bool)
        ensures
            b == Self::accepts_spec(*ty),
    ;
}

/// What an element that may be a SQL NULL decodes to.
pub open spec fn from_sql_nullable_spec<T: FromSql>(ty: Type, raw: Option<Seq<u8>>) -> Result<
    T,
    ErrorView,
> {
    match raw {
        Some(bytes) => T::from_sql_spec(ty, bytes),
        None => T::from_sql_null_spec(ty),
    }
}

/// Decodes an element that may be a SQL NULL.
pub fn from_sql_nullable<T: FromSql>(ty: &Type, raw: Option<&[u8]>) -> (r: Result<T, SqlError>)
    ensures
        outcome(r) == from_sql_nullable_spec::<T>(*ty, crate::wire::item_view(raw)),
{
    match raw {
        Some(bytes) => T::from_sql(ty, bytes),
        None => T::from_sql_null(ty),
    }
}

impl FromSql for i32 {
    open spec fn accepts_spec(ty: Type) -> bool {
        ty.oid == INT4_OID && ty.kind is Simple
    }

    open spec fn from_sql_spec(ty: Type, raw: Seq<u8>) -> Result<i32, ErrorView> {
        if raw.len() == 4 {
            Ok(int4_value(raw) as i32)
        } else {
            Err(ErrorView::InvalidValue)
        }
    }

    open spec fn from_sql_null_spec(ty: Type) -> Result<i32, ErrorView> {
        Err(ErrorView::WasNull)
    }

    fn from_sql(ty: &Type, raw: &[u8]) -> (r: Result<i32, SqlError>) {
        match int4_from_wire(raw) {
            Some(v) => Ok(v),
            None => Err(SqlError::InvalidValue),
        }
    }

    fn from_sql_null(ty: &Type) -> (r: Result<i32, SqlError>) {
        Err(SqlError::WasNull)
    }

    fn accepts(ty: &Type) -> (b: bool) {
        ty.oid == INT4_OID && match &ty.kind {
            Kind::Simple => true,
            _ => false,
        }
    }
}

impl<T: FromSql> FromSql for Option<T> {
    open spec fn accepts_spec(ty: Type) -> bool {
        T::accepts_spec(ty)
    }

    open spec fn from_sql_spec(ty: Type, raw: Seq<u8>) -> Result<Option<T>, ErrorView> {
        match T::from_sql_spec(ty, raw) {
            Ok(v) => Ok(Some(v)),
            Err(e) => Err(e),
        }
    }

    open spec fn from_sql_null_spec(ty: Type) -> Result<Option<T>, ErrorView> {
        Ok(None)
    }

    fn from_sql(ty: &Type, raw: &[u8]) -> (r: Result<Option<T>, SqlError>) {
        match T::from_sql(ty, raw) {
            Ok(v) => Ok(Some(v)),
            Err(e) => Err(e),
        }
    }

    fn from_sql_null(ty: &Type) -> (r: Result<Option<T>, SqlError>) {
        Ok(None)
    }

    fn accepts(ty: &Type) -> (b: bool) {
        T::accepts(ty)
    }
}

/// Whether an encoded value is a SQL NULL.
#[derive(Debug, Clone, Copy, PartialEq, Eq, Structural)]
pub enum IsNull {
    /// The value is a SQL NULL, and nothing was written for it.
    Yes,
    /// The value is not a SQL NULL.
    No,
}

/// A type whose values can be encoded in PostgreSQL's binary format.
pub trait ToSql: Sized {
    /// The types as whose values this type can be written.
    spec fn accepts_spec(ty: Type) -> bool;

    /// What the value encodes to as type `ty`: its bytes, or nothing for a SQL
    /// NULL.
    spec fn to_sql_spec(&self, ty: Type) -> Result<Option<Seq<u8>>, ErrorView>;

    /// Appends the value's bytes as type `ty` to `out`, and says whether it is
    /// a SQL NULL, for which nothing is appended.
    fn to_sql(&self, ty: &Type, out: &mut BytesMut) -> (r: Result<IsNull, SqlError>)
        ensures
            wrote(self.to_sql_spec(*ty), buffer_bytes(*old(out)), outcome(r), buffer_bytes(*final(out))),
    ;

    /// Says whether this type can be written as type `ty`.
    fn accepts(ty: &Type) -> (b: bool)
        ensures
            b == Self::accepts_spec(*ty),
    ;
}

/// Holds where a write that owed `expected` returned `r` and took the buffer
/// from `before` to `after`. A failed write may leave anything in the buffer.
pub open spec fn wrote(
    expected: Result<Option<Seq<u8>>, ErrorView>,
    before: Seq<u8>,
    r: Result<IsNull, ErrorView>,
    after: Seq<u8>,
) -> bool {
    match expected {
        Ok(Some(bytes)) => r == Ok::<IsNull, ErrorView>(IsNull::No) && after == before + bytes,
        Ok(None) => r == Ok::<IsNull, ErrorView>(IsNull::Yes) && after == before,
        Err(e) => r == Err::<IsNull, ErrorView>(e),
    }
}

impl ToSql for i32 {
    open spec fn accepts_spec(ty: Type) -> bool {
        ty.oid == INT4_OID && ty.kind is Simple
    }

    open spec fn to_sql_spec(&self, ty: Type) -> Result<Option<Seq<u8>>, ErrorView> {
        Ok(Some(int4_bytes(*self)))
    }

    fn to_sql(&self, ty: &Type, out: &mut BytesMut) -> (r: Result<IsNull, SqlError>) {
        int4_to_wire(*self, out);
        Ok(IsNull::No)
    }

    fn accepts(ty: &Type) -> (b: bool) {
        ty.oid == INT4_OID && match &ty.kind {
            Kind::Simple => true,
            _ => false,
        }
    }
}

impl<T: ToSql> ToSql for Option<T> {
    open spec fn accepts_spec(ty: Type) -> bool {
        T::accepts_spec(ty)
    }

    open spec fn to_sql_spec(&self, ty: Type) -> Result<Option<Seq<u8>>, ErrorView> {
        match self {
            Some(v) => v.to_sql_spec(ty),
            None => Ok(None),
        }
    }

    fn to_sql(&self, ty: &Type, out: &mut BytesMut) -> (r: Result<IsNull, SqlError>) {
        match self {
            Some(v) => v.to_sql(ty, out),
            None => Ok(IsNull::Yes),
        }
    }

    fn accepts(ty: &Type) -> (b: bool) {
        T::accepts(ty)
    }
}

/// An `INT4` read back from its own bytes is the integer that was written.
pub proof fn lemma_int4_round_trip(v: i32, ty: Type)
    ensures
        v.to_sql_spec(ty) == Ok::<Option<Seq<u8>>, ErrorView>(Some(int4_bytes(v))),
        <i32 as FromSql>::from_sql_spec(ty, int4_bytes(v)) == Ok::<i32, ErrorView>(v),
{
    let b = int4_bytes(v);
    assert(b.len() == 4);
    assert(int4_value(b) == v as int);
}

} // verus!
