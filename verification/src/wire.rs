//! The calls into `postgres-protocol` and `bytes`, and what is taken on trust
//! of each.
//!
//! Nothing in this file is proved. Each contract says what the named outside
//! function does, as its source shows it.

use bytes::BytesMut;
use fallible_iterator::FallibleIterator;
use postgres_protocol::types::{ArrayDimension, ArrayValues};
use vstd::prelude::*;

verus! {

/// The iterator over the encoded elements of an array value.
#[verifier::external_type_specification]
#[verifier::external_body]
pub struct ExArrayValues<'a>(ArrayValues<'a>);

/// One step of reading an array's elements: a SQL NULL, an element's bytes, or
/// the message of the failure that ends the reading.
pub type Step = Result<Option<Seq<u8>>, Seq<char>>;

/// The number of dimensions that `array_from_sql` finds declared in a buffer,
/// or the message with which it refuses the buffer.
pub uninterp spec fn wire_dimensions(raw: Seq<u8>) -> Result<nat, Seq<char>>;

/// The steps that the element iterator of a buffer's array goes through, where
/// `array_from_sql` takes the buffer.
pub uninterp spec fn wire_values(raw: Seq<u8>) -> Seq<Result<Option<Seq<u8>>, Seq<char>>>;

/// The steps that an element iterator has before it: the elements it will
/// hand out, in order, and after them the failure if it ends in one.
pub uninterp spec fn pending(values: ArrayValues<'_>) -> Seq<Result<Option<Seq<u8>>, Seq<char>>>;

/// An element as the iterator hands it out, taken by its view.
pub open spec fn item_view(item: Option<&[u8]>) -> Option<Seq<u8>> {
    match item {
        Some(bytes) => Some(bytes@),
        None => None,
    }
}

/// Calls `postgres_protocol::types::array_from_sql`, then `Array::dimensions`
/// with `FallibleIterator::count`, then `Array::values`.
///
/// Claims that the outcome depends on the bytes alone: the count is the one
/// named by `wire_dimensions`, the iterator starts with the steps named by
/// `wire_values`, and a refusal carries the message named by `wire_dimensions`.
#[verifier::external_body]
pub(crate) fn open_array<'a>(raw: &'a [u8]) -> (r: Result<(usize, ArrayValues<'a>), String>)
    ensures
        match r {
            Ok((dimensions, values)) => wire_dimensions(raw@) == Ok::<nat, Seq<char>>(
                dimensions as nat,
            ) && pending(values) == wire_values(raw@),
            Err(msg) => wire_dimensions(raw@) == Err::<nat, Seq<char>>(msg@),
        },
{
    let array = match postgres_protocol::types::array_from_sql(raw) {
        Ok(array) => array,
        Err(e) => return Err(e.to_string()),
    };
    match array.dimensions().count() {
        Ok(dimensions) => Ok((dimensions, array.values())),
        Err(e) => Err(e.to_string()),
    }
}

/// Calls `FallibleIterator::size_hint` on the element iterator and picks the
/// lower bound. Nothing is claimed of it.
#[verifier::external_body]
pub(crate) fn size_hint_lower(values: &ArrayValues<'_>) -> usize {
    values.size_hint().0
}

/// Calls `FallibleIterator::next` on the element iterator.
///
/// Claims that the call takes the first pending step: an element is handed
/// out and the rest stays pending; a failure is returned with its message;
/// and with nothing pending the iterator reports its end and stays at it.
#[verifier::external_body]
pub(crate) fn next_value<'a>(values: &mut ArrayValues<'a>) -> (r: Result<Option<Option<&'a [u8]>>, String>)
    ensures
        match r {
            Ok(Some(item)) => pending(*old(values)).len() > 0 && pending(*old(values))[0] == Ok::<
                Option<Seq<u8>>,
                Seq<char>,
            >(item_view(item)) && pending(*final(values)) == pending(*old(values)).skip(1),
            Ok(None) => pending(*old(values)).len() == 0 && pending(*final(values)).len() == 0,
            Err(msg) => pending(*old(values)).len() > 0 && pending(*old(values))[0] == Err::<
                Option<Seq<u8>>,
                Seq<char>,
            >(msg@),
        },
{
    match values.next() {
        Ok(step) => Ok(step),
        Err(e) => Err(e.to_string()),
    }
}

/// The integer that four bytes hold in network order, two's complement.
pub open spec fn int4_value(raw: Seq<u8>) -> int
    recommends
        raw.len() == 4,
{
    let n = raw[0] as int * 0x100_0000 + raw[1] as int * 0x1_0000 + raw[2] as int * 0x100 + raw[3] as int;
    if n >= 0x8000_0000 {
        n - 0x1_0000_0000
    } else {
        n
    }
}

/// Calls `postgres_protocol::types::int4_from_sql` and drops the error.
///
/// Claims that exactly the buffers of four bytes are taken, and read in
/// network order.
#[verifier::external_body]
pub(crate) fn int4_from_wire(raw: &[u8]) -> (r: Option<i32>)
    ensures
        r is Some <==> raw@.len() == 4,
        r matches Some(v) ==> v as int == int4_value(raw@),
{
    postgres_protocol::types::int4_from_sql(raw).ok()
}

/// The four bytes that hold an integer in network order, two's complement.
pub open spec fn int4_bytes(v: i32) -> Seq<u8> {
    let n = if v < 0 {
        v + 0x1_0000_0000
    } else {
        v as int
    };
    seq![
        (n / 0x100_0000) as u8,
        (n / 0x1_0000 % 0x100) as u8,
        (n / 0x100 % 0x100) as u8,
        (n % 0x100) as u8,
    ]
}

/// The growable byte buffer that encoded values are written to.
#[verifier::external_type_specification]
#[verifier::external_body]
pub struct ExBytesMut(BytesMut);

/// The bytes that a buffer holds, first to last.
pub uninterp spec fn buffer_bytes(buf: BytesMut) -> Seq<u8>;

/// The bytes that `array_to_sql` writes for an array of one dimension with the
/// given length, lower bound and element type, whose elements are the given
/// payloads (nothing for a SQL NULL), or the message with which it refuses.
pub uninterp spec fn array_encoding(
    len: i32,
    lower_bound: i32,
    oid: u32,
    payloads: Seq<Option<Seq<u8>>>,
) -> Result<Seq<u8>, Seq<char>>;

/// A list of payloads with each payload taken by its view.
pub open spec fn payload_views(payloads: Seq<Option<Vec<u8>>>) -> Seq<Option<Seq<u8>>> {
    Seq::new(
        payloads.len(),
        |i: int|
            match payloads[i] {
                Some(bytes) => Some(bytes@),
                None => None,
            },
    )
}

/// Calls `bytes::BytesMut::new`. Claims that the new buffer is empty.
#[verifier::external_body]
pub(crate) fn new_buffer() -> (buf: BytesMut)
    ensures
        buffer_bytes(buf).len() == 0,
{
    BytesMut::new()
}

/// Copies a buffer's bytes out through `BytesMut`'s `Deref` to a slice. Claims
/// that the copy holds the buffer's bytes.
#[verifier::external_body]
pub(crate) fn buffer_to_vec(buf: &BytesMut) -> (bytes: Vec<u8>)
    ensures
        bytes@ == buffer_bytes(*buf),
{
    buf.to_vec()
}

/// Calls `postgres_protocol::types::int4_to_sql`. Claims that it appends the
/// integer's four bytes in network order and leaves what was there.
#[verifier::external_body]
pub(crate) fn int4_to_wire(v: i32, buf: &mut BytesMut)
    ensures
        buffer_bytes(*final(buf)) == buffer_bytes(*old(buf)) + int4_bytes(v),
{
    postgres_protocol::types::int4_to_sql(v, buf)
}

/// Calls `postgres_protocol::types::array_to_sql` with one dimension and a
/// serializer that copies each payload, or reports a SQL NULL where there is
/// none.
///
/// Claims that what is appended depends on the arguments alone and not on
/// what the buffer held: on success the buffer holds what it held and then the
/// bytes named by `array_encoding`; a refusal carries the message that
/// `array_encoding` names.
#[verifier::external_body]
pub(crate) fn write_array(
    len: i32,
    lower_bound: i32,
    oid: u32,
    payloads: &Vec<Option<Vec<u8>>>,
    buf: &mut BytesMut,
) -> (r: Result<(), String>)
    ensures
        match r {
            Ok(()) => array_encoding(len, lower_bound, oid, payload_views(payloads@)) matches Ok(bytes)
                && buffer_bytes(*final(buf)) == buffer_bytes(*old(buf)) + bytes,
            Err(msg) => array_encoding(len, lower_bound, oid, payload_views(payloads@)) == Err::<
                Seq<u8>,
                Seq<char>,
            >(msg@),
        },
{
    let dimension = ArrayDimension { len, lower_bound };
    let copy = |payload: &Option<Vec<u8>>, out: &mut BytesMut| match payload {
        Some(bytes) => {
            out.extend_from_slice(bytes);
            Ok(postgres_protocol::IsNull::No)
        },
        None => Ok(postgres_protocol::IsNull::Yes),
    };
    match postgres_protocol::types::array_to_sql(Some(dimension), oid, payloads.iter(), copy, buf) {
        Ok(()) => Ok(()),
        Err(e) => Err(e.to_string()),
    }
}

} // verus!
