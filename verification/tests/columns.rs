use sqlite_handbook::functions::{len, median_positions, regexp, FunctionError};
use sqlite_handbook::status::UserStatus;
use sqlite_handbook::time_column::{DateTimeSeconds, DateTimeString, UtcDateTime, MAX_TIMESTAMP, MIN_TIMESTAMP};
use sqlite_handbook::uuid_column::UuidWrapper;
use sqlite_handbook::value::{text_value, ColumnError, SqlValue};

fn text(s: &str) -> SqlValue {
    SqlValue::Text(s.as_bytes().to_vec())
}

#[test]
fn value_accessors() {
    assert_eq!(SqlValue::Integer(7).as_i64(), Ok(7));
    assert_eq!(SqlValue::Null.as_i64(), Err(ColumnError::InvalidType));
    assert_eq!(text("héllo").as_str(), Ok("héllo"));
    assert_eq!(SqlValue::Text(vec![0xff, 0xfe]).as_str(), Err(ColumnError::InvalidUtf8));
    assert_eq!(SqlValue::Blob(vec![1, 2]).as_str(), Err(ColumnError::InvalidType));
    assert_eq!(SqlValue::Blob(vec![1, 2]).as_blob(), Ok(&[1u8, 2][..]));
    assert_eq!(SqlValue::Real(0).as_blob(), Err(ColumnError::InvalidType));
    match text_value("abc") {
        SqlValue::Text(b) => assert_eq!(b, b"abc".to_vec()),
        _ => panic!("text value"),
    }
}

#[test]
fn status_codes_round_trip() {
    for s in [UserStatus::Inactive, UserStatus::Active, UserStatus::Banned] {
        let v = s.to_sql();
        assert_eq!(UserStatus::column_result(&v), Ok(s));
        assert_eq!(UserStatus::column_result_with_range(&v), Ok(s));
    }
    assert_eq!(UserStatus::Active.code(), 1);
    assert_eq!(UserStatus::Banned.code(), 2);
}

#[test]
fn status_rejects_unknown_codes_and_types() {
    assert_eq!(UserStatus::column_result(&SqlValue::Integer(3)), Err(ColumnError::InvalidType));
    assert_eq!(UserStatus::column_result(&SqlValue::Integer(-1)), Err(ColumnError::InvalidType));
    assert_eq!(UserStatus::column_result_with_range(&SqlValue::Integer(3)), Err(ColumnError::OutOfRange(3)));
    assert_eq!(UserStatus::column_result_with_range(&SqlValue::Integer(99)), Err(ColumnError::OutOfRange(3)));
    assert_eq!(UserStatus::column_result(&text("1")), Err(ColumnError::InvalidType));
    assert_eq!(UserStatus::column_result_with_range(&SqlValue::Null), Err(ColumnError::InvalidType));
}

#[test]
fn uuid_blob_round_trip() {
    let bytes: [u8; 16] = [0x55, 0x0e, 0x84, 0x00, 0xe2, 0x9b, 0x41, 0xd4, 0xa7, 0x16, 0x44, 0x66, 0x55, 0x44, 0x00, 0x00];
    let u = UuidWrapper::from_uuid(bytes);
    let v = u.to_sql();
    match &v {
        SqlValue::Blob(b) => assert_eq!(b.as_slice(), &bytes[..]),
        _ => panic!("stored as a blob"),
    }
    assert_eq!(UuidWrapper::column_result(&v), Ok(u));
    assert_eq!(*u.as_uuid(), bytes);
    assert_eq!(u.into_uuid(), bytes);
}

#[test]
fn uuid_from_text() {
    let expected: [u8; 16] = [0x55, 0x0e, 0x84, 0x00, 0xe2, 0x9b, 0x41, 0xd4, 0xa7, 0x16, 0x44, 0x66, 0x55, 0x44, 0x00, 0x00];
    let r = UuidWrapper::column_result(&text("550e8400-e29b-41d4-a716-446655440000"));
    assert_eq!(r.map(|u| u.into_uuid()), Ok(expected));
    assert_eq!(UuidWrapper::column_result(&text("not a uuid")), Err(ColumnError::InvalidType));
}

#[test]
fn uuid_rejects_other_values() {
    assert_eq!(UuidWrapper::column_result(&SqlValue::Blob(vec![0; 15])), Err(ColumnError::InvalidType));
    assert_eq!(UuidWrapper::column_result(&SqlValue::Blob(vec![0; 17])), Err(ColumnError::InvalidType));
    assert_eq!(UuidWrapper::column_result(&SqlValue::Integer(16)), Err(ColumnError::InvalidType));
    assert_eq!(UuidWrapper::column_result(&SqlValue::Null), Err(ColumnError::InvalidType));
    assert_eq!(UuidWrapper::column_result(&SqlValue::Text(vec![0xff])), Err(ColumnError::InvalidType));
}

#[test]
fn uuid_v4_bits() {
    for _ in 0..20 {
        let b = UuidWrapper::new_v4().into_uuid();
        assert_eq!(b[6] & 0xf0, 0x40);
        assert_eq!(b[8] & 0xc0, 0x80);
    }
    assert_ne!(UuidWrapper::new_v4(), UuidWrapper::new_v4());
}

#[test]
fn utc_date_time_construction() {
    let t = UtcDateTime::new(1_700_000_000, 5).unwrap();
    assert_eq!(t.timestamp(), 1_700_000_000);
    assert_eq!(t.timestamp_subsec_nanos(), 5);
    assert!(UtcDateTime::new(MAX_TIMESTAMP + 1, 0).is_none());
    assert!(UtcDateTime::new(MIN_TIMESTAMP - 1, 0).is_none());
    assert!(UtcDateTime::new(0, 1_000_000_000).is_none());
    assert!(UtcDateTime::new(59, 1_500_000_000).is_some());
    assert!(UtcDateTime::new(-1, 1_500_000_000).is_some());
    assert!(UtcDateTime::new(59, 2_000_000_000).is_none());
}

#[test]
fn seconds_round_trip_drops_the_fraction() {
    let t = UtcDateTime::new(1_700_000_000, 123_456_789).unwrap();
    let v = DateTimeSeconds(t).to_sql();
    assert!(matches!(v, SqlValue::Integer(1_700_000_000)));
    let back = DateTimeSeconds::column_result(&v).unwrap();
    assert_eq!(back.0.timestamp(), 1_700_000_000);
    assert_eq!(back.0.timestamp_subsec_nanos(), 0);
}

#[test]
fn seconds_range_edges() {
    assert!(DateTimeSeconds::column_result(&SqlValue::Integer(MIN_TIMESTAMP)).is_ok());
    assert!(DateTimeSeconds::column_result(&SqlValue::Integer(MAX_TIMESTAMP)).is_ok());
    assert_eq!(DateTimeSeconds::column_result(&SqlValue::Integer(MIN_TIMESTAMP - 1)), Err(ColumnError::InvalidType));
    assert_eq!(DateTimeSeconds::column_result(&SqlValue::Integer(MAX_TIMESTAMP + 1)), Err(ColumnError::InvalidType));
    assert_eq!(DateTimeSeconds::column_result(&SqlValue::Integer(i64::MAX)), Err(ColumnError::InvalidType));
    assert_eq!(DateTimeSeconds::column_result(&text("0")), Err(ColumnError::InvalidType));
}

#[test]
fn rfc3339_text() {
    let t = UtcDateTime::new(1_700_000_000, 0).unwrap();
    let v = DateTimeString(t).to_sql();
    assert_eq!(v.as_str(), Ok("2023-11-14T22:13:20+00:00"));
    assert_eq!(DateTimeString::column_result(&v), Ok(DateTimeString(t)));
    let frac = UtcDateTime::new(0, 500_000_000).unwrap();
    let fv = DateTimeString(frac).to_sql();
    assert_eq!(fv.as_str(), Ok("1970-01-01T00:00:00.500+00:00"));
    assert_eq!(DateTimeString::column_result(&fv), Ok(DateTimeString(frac)));
}

#[test]
fn rfc3339_round_trip_within_four_digit_years() {
    let cases: [(i64, u32, &str); 5] = [
        (-62167219200, 0, "0000-01-01T00:00:00+00:00"),
        (253402300799, 0, "9999-12-31T23:59:59+00:00"),
        (1_700_000_039, 1_250_000_000, "2023-11-14T22:13:60.250+00:00"),
        (59, 1_000_000_000, "1970-01-01T00:00:60+00:00"),
        (1, 1_000, "1970-01-01T00:00:01.000001+00:00"),
    ];
    for (secs, nanos, expected) in cases {
        let t = UtcDateTime::new(secs, nanos).unwrap();
        let v = DateTimeString(t).to_sql();
        assert_eq!(v.as_str(), Ok(expected));
        assert_eq!(DateTimeString::column_result(&v), Ok(DateTimeString(t)));
    }
}

#[test]
fn rfc3339_years_outside_four_digits_do_not_read_back() {
    for secs in [-62167219201i64, 253402300800, MIN_TIMESTAMP, MAX_TIMESTAMP] {
        let t = UtcDateTime::new(secs, 0).unwrap();
        let v = DateTimeString(t).to_sql();
        assert_eq!(DateTimeString::column_result(&v), Err(ColumnError::InvalidType));
    }
    let late = DateTimeString(UtcDateTime::new(253402300800, 0).unwrap()).to_sql();
    assert_eq!(late.as_str(), Ok("+10000-01-01T00:00:00+00:00"));
}

#[test]
fn rfc3339_parsing_converts_to_utc() {
    let d = DateTimeString::column_result(&text("1996-12-19T16:39:57-08:00")).unwrap();
    assert_eq!(d.0.timestamp(), 851042397);
    assert_eq!(DateTimeString::column_result(&text("yesterday")), Err(ColumnError::InvalidType));
    assert_eq!(DateTimeString::column_result(&SqlValue::Integer(0)), Err(ColumnError::InvalidType));
    assert_eq!(DateTimeString::column_result(&SqlValue::Text(vec![0xc3])), Err(ColumnError::InvalidUtf8));
}

#[test]
fn regexp_function() {
    assert_eq!(regexp(&text("^[A-Z]"), &text("Hello")), Ok(true));
    assert_eq!(regexp(&text("^[A-Z]"), &text("hello")), Ok(false));
    assert_eq!(regexp(&text("("), &text("x")), Err(FunctionError::InvalidPattern));
    assert_eq!(regexp(&SqlValue::Integer(1), &text("x")), Err(FunctionError::Argument(0, ColumnError::InvalidType)));
    assert_eq!(regexp(&text("x"), &SqlValue::Null), Err(FunctionError::Argument(1, ColumnError::InvalidType)));
    assert_eq!(
        regexp(&SqlValue::Text(vec![0xff]), &SqlValue::Null),
        Err(FunctionError::Argument(0, ColumnError::InvalidUtf8))
    );
    // the text is read before the pattern is compiled
    assert_eq!(regexp(&text("("), &SqlValue::Null), Err(FunctionError::Argument(1, ColumnError::InvalidType)));
}

#[test]
fn len_function_counts_bytes() {
    assert_eq!(len(&text("hello")), Ok(5));
    assert_eq!(len(&text("")), Ok(0));
    assert_eq!(len(&text("黑风")), Ok(6));
    assert_eq!(len(&SqlValue::Integer(12345)), Err(FunctionError::Argument(0, ColumnError::InvalidType)));
    assert_eq!(len(&SqlValue::Text(vec![0xe9])), Err(FunctionError::Argument(0, ColumnError::InvalidUtf8)));
}

#[test]
fn median_middle_positions() {
    assert_eq!(median_positions(0), None);
    assert_eq!(median_positions(1), Some((0, 0)));
    assert_eq!(median_positions(10), Some((4, 5)));
    assert_eq!(median_positions(7), Some((3, 3)));
}
