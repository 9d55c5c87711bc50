use bytes::BytesMut;
use pg_array_codec::decode::{accepts, check_dimensions, from_sql, take_answer};
use pg_array_codec::element::{from_sql_nullable, FromSql};
use pg_array_codec::error::SqlError;
use pg_array_codec::types::{Kind, Type, INT4_ARRAY_OID, INT4_OID};
use postgres_protocol::types::{array_to_sql, ArrayDimension};
use postgres_protocol::IsNull;

fn header(dimensions: i32, has_nulls: i32, oid: u32) -> Vec<u8> {
    let mut raw = Vec::new();
    raw.extend_from_slice(&dimensions.to_be_bytes());
    raw.extend_from_slice(&has_nulls.to_be_bytes());
    raw.extend_from_slice(&oid.to_be_bytes());
    raw
}

fn dimension(raw: &mut Vec<u8>, len: i32, lower_bound: i32) {
    raw.extend_from_slice(&len.to_be_bytes());
    raw.extend_from_slice(&lower_bound.to_be_bytes());
}

fn int4(raw: &mut Vec<u8>, v: i32) {
    raw.extend_from_slice(&4i32.to_be_bytes());
    raw.extend_from_slice(&v.to_be_bytes());
}

fn null(raw: &mut Vec<u8>) {
    raw.extend_from_slice(&(-1i32).to_be_bytes());
}

#[test]
fn decodes_elements_in_order() {
    let mut raw = header(1, 0, INT4_OID);
    dimension(&mut raw, 3, 1);
    int4(&mut raw, 10);
    int4(&mut raw, -20);
    int4(&mut raw, 30);
    let v: Vec<i32> = from_sql(&Type::int4_array(), &raw).unwrap();
    assert_eq!(v, vec![10, -20, 30]);
}

#[test]
fn decodes_what_the_protocol_writer_wrote() {
    let mut buf = BytesMut::new();
    array_to_sql(
        Some(ArrayDimension { len: 4, lower_bound: 1 }),
        INT4_OID,
        [7i32, 0, i32::MIN, i32::MAX],
        |v, w: &mut BytesMut| {
            w.extend_from_slice(&v.to_be_bytes());
            Ok(IsNull::No)
        },
        &mut buf,
    )
    .unwrap();
    let v: Vec<i32> = from_sql(&Type::int4_array(), &buf).unwrap();
    assert_eq!(v, vec![7, 0, i32::MIN, i32::MAX]);
}

#[test]
fn refuses_two_dimensions() {
    let mut raw = header(2, 0, INT4_OID);
    dimension(&mut raw, 1, 1);
    dimension(&mut raw, 2, 1);
    int4(&mut raw, 1);
    int4(&mut raw, 2);
    let r: Result<Vec<i32>, SqlError> = from_sql(&Type::int4_array(), &raw);
    assert!(matches!(r, Err(SqlError::TooManyDimensions)));
    assert_eq!(r.unwrap_err().message(), "array contains too many dimensions");
}

#[test]
fn refuses_three_dimensions_even_with_bad_elements() {
    let mut raw = header(3, 0, INT4_OID);
    dimension(&mut raw, 1, 1);
    dimension(&mut raw, 1, 1);
    dimension(&mut raw, 1, 1);
    raw.extend_from_slice(&[0, 0, 0, 2, 9, 9]);
    let r: Result<Vec<Option<i32>>, SqlError> = from_sql(&Type::int4_array(), &raw);
    assert!(matches!(r, Err(SqlError::TooManyDimensions)));
}

#[test]
fn decodes_empty_one_dimensional_array() {
    let mut raw = header(1, 0, INT4_OID);
    dimension(&mut raw, 0, 1);
    let v: Vec<i32> = from_sql(&Type::int4_array(), &raw).unwrap();
    assert_eq!(v.len(), 0);
}

#[test]
fn decodes_array_without_dimensions_as_empty() {
    let raw = header(0, 0, INT4_OID);
    let v: Vec<i32> = from_sql(&Type::int4_array(), &raw).unwrap();
    assert!(v.is_empty());
}

#[test]
fn null_element_becomes_none() {
    let mut raw = header(1, 1, INT4_OID);
    dimension(&mut raw, 3, 1);
    int4(&mut raw, 5);
    null(&mut raw);
    int4(&mut raw, 6);
    let v: Vec<Option<i32>> = from_sql(&Type::int4_array(), &raw).unwrap();
    assert_eq!(v, vec![Some(5), None, Some(6)]);
}

#[test]
fn null_element_fails_a_type_without_null() {
    let mut raw = header(1, 1, INT4_OID);
    dimension(&mut raw, 2, 1);
    int4(&mut raw, 5);
    null(&mut raw);
    let r: Result<Vec<i32>, SqlError> = from_sql(&Type::int4_array(), &raw);
    assert!(matches!(r, Err(SqlError::WasNull)));
}

#[test]
fn malformed_element_fails_the_array() {
    let mut raw = header(1, 0, INT4_OID);
    dimension(&mut raw, 2, 1);
    int4(&mut raw, 5);
    raw.extend_from_slice(&[0, 0, 0, 3, 1, 2, 3]);
    let r: Result<Vec<i32>, SqlError> = from_sql(&Type::int4_array(), &raw);
    assert!(matches!(r, Err(SqlError::InvalidValue)));
}

#[test]
fn first_failing_element_decides() {
    let mut raw = header(1, 1, INT4_OID);
    dimension(&mut raw, 3, 1);
    raw.extend_from_slice(&[0, 0, 0, 2, 1, 2]);
    null(&mut raw);
    raw.extend_from_slice(&[0, 0, 0, 9, 1]);
    let r: Result<Vec<i32>, SqlError> = from_sql(&Type::int4_array(), &raw);
    assert!(matches!(r, Err(SqlError::InvalidValue)));

    let mut raw = header(1, 1, INT4_OID);
    dimension(&mut raw, 2, 1);
    null(&mut raw);
    raw.extend_from_slice(&[0, 0, 0, 2, 1, 2]);
    let r: Result<Vec<i32>, SqlError> = from_sql(&Type::int4_array(), &raw);
    assert!(matches!(r, Err(SqlError::WasNull)));
}

#[test]
fn truncated_header_is_a_format_error() {
    let r: Result<Vec<i32>, SqlError> = from_sql(&Type::int4_array(), &[0, 0, 0, 1, 0]);
    assert!(matches!(r, Err(SqlError::Format(_))));
    let r: Result<Vec<i32>, SqlError> = from_sql(&Type::int4_array(), &[]);
    assert!(matches!(r, Err(SqlError::Format(_))));
}

#[test]
fn negative_dimension_count_is_a_format_error() {
    let raw = header(-1, 0, INT4_OID);
    let r: Result<Vec<i32>, SqlError> = from_sql(&Type::int4_array(), &raw);
    match r {
        Err(SqlError::Format(msg)) => assert_eq!(msg, "invalid dimension count"),
        other => panic!("unexpected outcome: {:?}", other),
    }
}

#[test]
fn element_longer_than_the_buffer_is_a_format_error() {
    let mut raw = header(1, 0, INT4_OID);
    dimension(&mut raw, 2, 1);
    int4(&mut raw, 5);
    raw.extend_from_slice(&[0, 0, 0, 4, 1, 2]);
    let r: Result<Vec<i32>, SqlError> = from_sql(&Type::int4_array(), &raw);
    match r {
        Err(SqlError::Format(msg)) => assert_eq!(msg, "invalid value length"),
        other => panic!("unexpected outcome: {:?}", other),
    }
}

#[test]
fn bytes_after_the_last_element_are_a_format_error() {
    let mut raw = header(1, 0, INT4_OID);
    dimension(&mut raw, 1, 1);
    int4(&mut raw, 5);
    raw.push(0);
    let r: Result<Vec<i32>, SqlError> = from_sql(&Type::int4_array(), &raw);
    match r {
        Err(SqlError::Format(msg)) => {
            assert_eq!(msg, "invalid message length: arrayvalue not drained")
        }
        other => panic!("unexpected outcome: {:?}", other),
    }
}

#[test]
fn missing_elements_are_a_format_error() {
    let mut raw = header(1, 0, INT4_OID);
    dimension(&mut raw, 2, 1);
    int4(&mut raw, 5);
    let r: Result<Vec<i32>, SqlError> = from_sql(&Type::int4_array(), &raw);
    assert!(matches!(r, Err(SqlError::Format(_))));
}

#[test]
fn accepts_arrays_of_accepted_members_only() {
    assert!(accepts::<i32>(&Type::int4_array()));
    assert!(accepts::<Option<i32>>(&Type::int4_array()));
    assert!(accepts::<i32>(&Type::array_of(INT4_ARRAY_OID, Type::simple(INT4_OID))));
    assert!(!accepts::<i32>(&Type::int4()));
    assert!(!accepts::<i32>(&Type::array_of(1009, Type::simple(25))));
    assert!(!accepts::<i32>(&Type::new(3904, Kind::Range(Box::new(Type::int4())))));
    assert!(!accepts::<i32>(&Type::new(INT4_ARRAY_OID, Kind::Domain(Box::new(Type::int4_array())))));
    assert!(accepts::<i32>(&Type::new(INT4_ARRAY_OID, Kind::Array(Box::new(Type::int4())))));
    assert!(!accepts::<i32>(&Type::array_of(1, Type::int4_array())));
}

#[test]
fn int4_is_read_in_network_order() {
    let ty = Type::int4();
    assert_eq!(<i32 as FromSql>::from_sql(&ty, &[0, 0, 1, 2]).unwrap(), 258);
    assert_eq!(<i32 as FromSql>::from_sql(&ty, &[0xff, 0xff, 0xff, 0xfe]).unwrap(), -2);
    assert_eq!(<i32 as FromSql>::from_sql(&ty, &[0x80, 0, 0, 0]).unwrap(), i32::MIN);
    assert!(matches!(<i32 as FromSql>::from_sql(&ty, &[0, 0, 1]), Err(SqlError::InvalidValue)));
    assert!(matches!(
        <i32 as FromSql>::from_sql(&ty, &[0, 0, 0, 0, 1]),
        Err(SqlError::InvalidValue)
    ));
    assert!(matches!(<i32 as FromSql>::from_sql_null(&ty), Err(SqlError::WasNull)));
}

#[test]
fn nullable_element_tells_null_from_bytes() {
    let ty = Type::int4();
    let some: Option<i32> = from_sql_nullable(&ty, Some(&[0, 0, 0, 9])).unwrap();
    assert_eq!(some, Some(9));
    let none: Option<i32> = from_sql_nullable(&ty, None).unwrap();
    assert_eq!(none, None);
    let r: Result<i32, SqlError> = from_sql_nullable(&ty, None);
    assert!(matches!(r, Err(SqlError::WasNull)));
}

#[test]
fn type_reports_oid_kind_and_member() {
    let ty = Type::int4_array();
    assert_eq!(ty.oid(), INT4_ARRAY_OID);
    assert_eq!(ty.member().unwrap().oid(), INT4_OID);
    assert!(matches!(ty.kind(), Kind::Array(_)));
    assert!(Type::int4().member().is_none());
    assert!(matches!(Type::int4().kind(), Kind::Simple));
}

#[test]
fn at_most_one_dimension_passes() {
    assert!(check_dimensions(0).is_ok());
    assert!(check_dimensions(1).is_ok());
    assert!(matches!(check_dimensions(2), Err(SqlError::TooManyDimensions)));
    assert!(matches!(check_dimensions(usize::MAX), Err(SqlError::TooManyDimensions)));
}

#[test]
fn an_answer_with_an_element_appends_it() {
    let ty = Type::int4();
    let mut v: Vec<i32> = vec![1];
    let r = take_answer(&ty, Ok(Some(Some(&[0, 0, 0, 2][..]))), &mut v);
    assert!(matches!(r, Ok(true)));
    assert_eq!(v, vec![1, 2]);
}

#[test]
fn the_last_answer_ends_the_reading() {
    let ty = Type::int4();
    let mut v: Vec<i32> = vec![1];
    let r = take_answer(&ty, Ok(None), &mut v);
    assert!(matches!(r, Ok(false)));
    assert_eq!(v, vec![1]);
}

#[test]
fn a_failed_answer_keeps_its_message() {
    let ty = Type::int4();
    let mut v: Vec<i32> = vec![1];
    let r = take_answer(&ty, Err(String::from("invalid value length")), &mut v);
    match r {
        Err(e) => assert_eq!(e.message(), "invalid value length"),
        Ok(_) => panic!("a failure was taken for an element"),
    }
    assert_eq!(v, vec![1]);
}

#[test]
fn an_answer_with_a_bad_element_fails_with_its_error() {
    let ty = Type::int4();
    let mut v: Vec<i32> = vec![1];
    let r = take_answer(&ty, Ok(Some(Some(&[0, 2][..]))), &mut v);
    assert!(matches!(r, Err(SqlError::InvalidValue)));
    let r = take_answer(&ty, Ok(Some(None)), &mut v);
    assert!(matches!(r, Err(SqlError::WasNull)));
    assert_eq!(v, vec![1]);
    let mut w: Vec<Option<i32>> = Vec::new();
    let r = take_answer(&ty, Ok(Some(None)), &mut w);
    assert!(matches!(r, Ok(true)));
    assert_eq!(w, vec![None]);
}

#[test]
fn each_error_has_its_message() {
    assert_eq!(SqlError::Format(String::from("x")).message(), "x");
    assert_eq!(SqlError::TooManyDimensions.message(), "array contains too many dimensions");
    assert_eq!(SqlError::WasNull.message(), "a Postgres value was `NULL`");
    assert_eq!(SqlError::InvalidValue.message(), "invalid buffer size");
    assert_eq!(SqlError::TooLong.message(), "value too large to transmit");
    assert_eq!(SqlError::WrongType.message(), "cannot convert to the Postgres type");
}
