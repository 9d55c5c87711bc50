//! Encoding a sequence as a one-dimensional array value.

use crate::element::{IsNull, ToSql};
use crate::error::{outcome, ErrorView, SqlError};
use crate::types::{Type, INT2_VECTOR_OID, OID_VECTOR_OID};
use crate::wire::{array_encoding, buffer_bytes, buffer_to_vec, new_buffer, payload_views, write_array};
use bytes::BytesMut;
use vstd::prelude::*;

verus! {

/// The index of an array's first element: one, but zero for the two vector
/// types that the server indexes from zero.
pub open spec fn lower_bound_spec(ty: Type) -> i32 {
    if ty.oid == OID_VECTOR_OID || ty.oid == INT2_VECTOR_OID {
        0
    } else {
        1
    }
}

/// Holds where element `i` cannot be encoded and every element before it can.
pub open spec fn first_refused<T: ToSql>(member: Type, items: Seq<T>, i: int) -> bool {
    &&& 0 <= i < items.len()
    &&& items[i].to_sql_spec(member) is Err
    &&& forall|j: int| 0 <= j < i ==> (#[trigger] items[j]).to_sql_spec(member) is Ok
}

/// The payload of each element, in order, with nothing for a SQL NULL.
pub open spec fn payloads_of<T: ToSql>(member: Type, items: Seq<T>) -> Seq<Option<Seq<u8>>> {
    Seq::new(
        items.len(),
        |i: int|
            match items[i].to_sql_spec(member) {
                Ok(payload) => payload,
                Err(_) => None,
            },
    )
}

/// Holds where encoding `items` as type `ty` returns `r` and takes the buffer
/// from `before` to `after`.
///
/// A sequence too long for an array is refused first, then the first element
/// that cannot be encoded fails the whole, and both leave the buffer as it
/// was. Otherwise the array's bytes are appended, and the value is never a SQL
/// NULL; where the writer refuses, the buffer may hold anything.
pub open spec fn array_encodes_to<T: ToSql>(
    ty: Type,
    items: Seq<T>,
    before: Seq<u8>,
    r: Result<IsNull, ErrorView>,
    after: Seq<u8>,
) -> bool {
    let member = ty.member_spec().unwrap();
    if items.len() > i32::MAX {
        r == Err::<IsNull, ErrorView>(ErrorView::TooLong) && after == before
    } else if exists|i: int| first_refused::<T>(member, items, i) {
        let i = choose|i: int| first_refused::<T>(member, items, i);
        items[i].to_sql_spec(member) == Err::<Option<Seq<u8>>, ErrorView>(r->Err_0) && r is Err && after == before
    } else {
        match array_encoding(items.len() as i32, lower_bound_spec(ty), member.oid, payloads_of::<T>(member, items)) {
            Ok(bytes) => r == Ok::<IsNull, ErrorView>(IsNull::No) && after == before + bytes,
            Err(msg) => r == Err::<IsNull, ErrorView>(ErrorView::Format(msg)),
        }
    }
}

/// Two elements that are both the first to be refused are the same element.
pub proof fn lemma_first_refused_unique<T: ToSql>(member: Type, items: Seq<T>, i: int, j: int)
    requires
        first_refused::<T>(member, items, i),
        first_refused::<T>(member, items, j),
    ensures
        i == j,
{
    if i < j {
        assert(items[i].to_sql_spec(member) is Ok);
    }
    if j < i {
        assert(items[j].to_sql_spec(member) is Ok);
    }
}

/// Holds where `r` is what encoding each element by itself comes to: every
/// payload in its place if all can be encoded, and else the error of the first
/// element that cannot.
pub open spec fn payloads_collected<T: ToSql>(member: Type, items: Seq<T>, r: Result<Seq<Option<Seq<u8>>>, ErrorView>) -> bool {
    match r {
        Ok(payloads) => payloads == payloads_of::<T>(member, items) && forall|i: int|
            0 <= i < items.len() ==> (#[trigger] items[i]).to_sql_spec(member) is Ok,
        Err(e) => exists|i: int|
            first_refused::<T>(member, items, i) && items[i].to_sql_spec(member) == Err::<Option<Seq<u8>>, ErrorView>(e),
    }
}

/// A list of payloads, or an error, taken by their views.
pub open spec fn collected_view(r: Result<Vec<Option<Vec<u8>>>, SqlError>) -> Result<Seq<Option<Seq<u8>>>, ErrorView> {
    match r {
        Ok(payloads) => Ok(payload_views(payloads@)),
        Err(e) => Err(e@),
    }
}

/// Encodes each element as type `member`, by itself and in order, and stops
/// at the first that cannot be encoded.
pub fn collect_payloads<T: ToSql>(items: &[T], member: &Type) -> (r: Result<Vec<Option<Vec<u8>>>, SqlError>)
    ensures
        payloads_collected::<T>(*member, items@, collected_view(r)),
{
    let mut payloads: Vec<Option<Vec<u8>>> = Vec::with_capacity(items.len());
    let mut i: usize = 0;
    while i < items.len()
        invariant
            i <= items.len(),
            payloads.len() == i,
            forall|j: int| 0 <= j < i ==> (#[trigger] items@[j]).to_sql_spec(*member) is Ok,
            forall|j: int|
                0 <= j < i ==> #[trigger] payload_views(payloads@)[j] == payloads_of::<T>(*member, items@)[j],
        decreases items.len() - i,
    {
        let mut scratch = new_buffer();
        let ghost before = payloads@;
        match items[i].to_sql(member, &mut scratch) {
            Ok(IsNull::No) => {
                let bytes = buffer_to_vec(&scratch);
                proof {
                    assert(bytes@ =~= items@[i as int].to_sql_spec(*member)->Ok_0->Some_0);
                }
                payloads.push(Some(bytes));
            },
            Ok(IsNull::Yes) => {
                payloads.push(None);
            },
            Err(e) => {
                proof {
                    assert(first_refused::<T>(*member, items@, i as int));
                }
                return Err(e);
            },
        }
        proof {
            assert forall|j: int| 0 <= j < i + 1 implies #[trigger] payload_views(payloads@)[j] == payloads_of::<T>(
                *member,
                items@,
            )[j] by {
                if j < i {
                    assert(payloads@[j] == before[j]);
                    assert(payload_views(before)[j] == payloads_of::<T>(*member, items@)[j]);
                }
            }
        }
        i += 1;
    }
    proof {
        assert(payload_views(payloads@) =~= payloads_of::<T>(*member, items@));
    }
    Ok(payloads)
}

/// Encodes a slice as an array value of type `ty`, appended to `out`.
pub fn slice_to_sql<T: ToSql>(items: &[T], ty: &Type, out: &mut BytesMut) -> (r: Result<IsNull, SqlError>)
    requires
        ty.member_spec() is Some,
    ensures
        array_encodes_to::<T>(*ty, items@, buffer_bytes(*old(out)), outcome(r), buffer_bytes(*final(out))),
{
    let member: &Type = match ty.member() {
        Some(member) => member,
        None => vstd::pervasive::unreached(),
    };
    let lower_bound: i32 = if ty.oid == OID_VECTOR_OID || ty.oid == INT2_VECTOR_OID {
        0
    } else {
        1
    };
    if items.len() > 0x7fff_ffff {
        return Err(SqlError::TooLong);
    }
    let len: i32 = items.len() as i32;
    let payloads = match collect_payloads::<T>(items, member) {
        Ok(payloads) => payloads,
        Err(e) => {
            proof {
                let i = choose|i: int|
                    first_refused::<T>(*member, items@, i) && items@[i].to_sql_spec(*member) == Err::<
                        Option<Seq<u8>>,
                        ErrorView,
                    >(e@);
                let k = choose|k: int| first_refused::<T>(*member, items@, k);
                lemma_first_refused_unique::<T>(*member, items@, i, k);
            }
            return Err(e);
        },
    };
    proof {
        assert forall|k: int| !first_refused::<T>(*member, items@, k) by {
            if 0 <= k < items@.len() {
                assert(items@[k].to_sql_spec(*member) is Ok);
            }
        }
    }
    match write_array(len, lower_bound, member.oid, &payloads, out) {
        Ok(()) => Ok(IsNull::No),
        Err(msg) => Err(SqlError::Format(msg)),
    }
}

/// Encodes a vector as an array value of type `ty`, appended to `out`: what
/// `slice_to_sql` does with the vector's elements.
pub fn to_sql<T: ToSql>(v: &Vec<T>, ty: &Type, out: &mut BytesMut) -> (r: Result<IsNull, SqlError>)
    requires
        ty.member_spec() is Some,
    ensures
        array_encodes_to::<T>(*ty, v@, buffer_bytes(*old(out)), outcome(r), buffer_bytes(*final(out))),
{
    slice_to_sql(v.as_slice(), ty, out)
}

/// Encodes a vector as an array value of type `ty` where a vector of `T` can
/// be written as `ty`, and refuses the type, with the buffer untouched, where
/// it cannot.
pub fn to_sql_checked<T: ToSql>(v: &Vec<T>, ty: &Type, out: &mut BytesMut) -> (r: Result<IsNull, SqlError>)
    ensures
        match ty.member_spec() {
            Some(member) if T::accepts_spec(member) => array_encodes_to::<T>(
                *ty,
                v@,
                buffer_bytes(*old(out)),
                outcome(r),
                buffer_bytes(*final(out)),
            ),
            _ => outcome(r) == Err::<IsNull, ErrorView>(ErrorView::WrongType) && buffer_bytes(*final(out))
                == buffer_bytes(*old(out)),
        },
{
    if !accepts::<T>(ty) {
        return Err(SqlError::WrongType);
    }
    to_sql(v, ty, out)
}

/// Says whether a slice of `T` can be written as type `ty`: where `ty` is an
/// array type and `T` can be written as its member type.
pub fn slice_accepts<T: ToSql>(ty: &Type) -> (b: bool)
    ensures
        b == match ty.member_spec() {
            Some(member) => T::accepts_spec(member),
            None => false,
        },
{
    match ty.member() {
        Some(member) => T::accepts(member),
        None => false,
    }
}

/// Says whether a vector of `T` can be written as type `ty`: what
/// `slice_accepts` says of it.
pub fn accepts<T: ToSql>(ty: &Type) -> (b: bool)
    ensures
        b == match ty.member_spec() {
            Some(member) => T::accepts_spec(member),
            None => false,
        },
{
    slice_accepts::<T>(ty)
}

} // verus!
