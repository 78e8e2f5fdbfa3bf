use bobby::text::{contains, decimal, hex_preview, matches_at, same_text, signed_decimal};
use bobby::value::Value;

#[test]
fn null_is_shown_as_a_dash() {
    assert_eq!(Value::Null.format(), "\u{2014}");
}

#[test]
fn empty_numeric_is_shown_as_a_dash() {
    assert_eq!(Value::Numeric(String::new()).format(), "\u{2014}");
    assert_eq!(Value::Numeric("1e3".to_string()).format(), "1e3");
}

#[test]
fn integers_are_shown_in_decimal() {
    assert_eq!(Value::Integer(0).format(), "0");
    assert_eq!(Value::Integer(42).format(), "42");
    assert_eq!(Value::Integer(-7).format(), "-7");
    assert_eq!(Value::Integer(i64::MAX).format(), "9223372036854775807");
    assert_eq!(Value::Integer(i64::MIN).format(), "-9223372036854775808");
}

#[test]
fn text_and_real_are_shown_as_they_are() {
    assert_eq!(Value::Text("hello".to_string()).format(), "hello");
    assert_eq!(Value::Text(String::new()).format(), "");
    assert_eq!(Value::Real("3.5".to_string()).format(), "3.5");
}

#[test]
fn blob_is_shown_by_its_length() {
    assert_eq!(Value::of_blob(&[1, 2, 3]).format(), "3 BYTES");
    assert_eq!(Value::of_blob(&[]).format(), "0 BYTES");
    assert_eq!(Value::Blob(1024, String::new()).format(), "1024 BYTES");
}

#[test]
fn blob_keeps_a_preview_of_eight_bytes() {
    let bytes: Vec<u8> = (0u8..32).collect();
    assert_eq!(
        Value::of_blob(&bytes),
        Value::Blob(32, "00 01 02 03 04 05 06 07".to_string())
    );
    assert_eq!(Value::of_blob(&[0xde, 0xad]), Value::Blob(2, "DE AD".to_string()));
    assert_eq!(Value::of_blob(&[]), Value::Blob(0, String::new()));
}

#[test]
fn value_type_tags() {
    assert_eq!(Value::Null.type_tag(), "NULL");
    assert_eq!(Value::Integer(1).type_tag(), "INTEGER");
    assert_eq!(Value::Real("1.5".to_string()).type_tag(), "REAL");
    assert_eq!(Value::Text("x".to_string()).type_tag(), "TEXT");
    assert_eq!(Value::Blob(0, String::new()).type_tag(), "BLOB");
    assert_eq!(Value::Numeric("9".to_string()).type_tag(), "NUMERIC");
}

#[test]
fn value_clone_is_equal() {
    let values = vec![
        Value::Null,
        Value::Integer(-3),
        Value::Real("2.25".to_string()),
        Value::Text("abc".to_string()),
        Value::Blob(9, "00 01".to_string()),
        Value::Numeric("n".to_string()),
    ];
    for v in &values {
        assert_eq!(&v.clone(), v);
    }
}

#[test]
fn hex_preview_of_bytes() {
    assert_eq!(hex_preview(&[0x00, 0x0f, 0xa0, 0xff], 8), "00 0F A0 FF");
    assert_eq!(hex_preview(&[0x12, 0x34, 0x56], 2), "12 34");
    assert_eq!(hex_preview(&[0x12], 1), "12");
    assert_eq!(hex_preview(&[0x12, 0x34], 0), "");
    assert_eq!(hex_preview(&[], 8), "");
}

#[test]
fn decimal_text() {
    assert_eq!(decimal(0), "0");
    assert_eq!(decimal(9), "9");
    assert_eq!(decimal(10), "10");
    assert_eq!(decimal(1234567890), "1234567890");
    assert_eq!(decimal(u64::MAX), "18446744073709551615");
    assert_eq!(signed_decimal(-1), "-1");
    assert_eq!(signed_decimal(100), "100");
}

#[test]
fn search_in_text() {
    let hay: Vec<char> = "DOUBLE PRECISION".chars().collect();
    let needle: Vec<char> = "DOUB".chars().collect();
    let other: Vec<char> = "ION".chars().collect();
    let absent: Vec<char> = "INT".chars().collect();
    let empty: Vec<char> = Vec::new();
    assert!(contains(&hay, &needle));
    assert!(contains(&hay, &other));
    assert!(!contains(&hay, &absent));
    assert!(contains(&hay, &empty));
    assert!(contains(&empty, &empty));
    assert!(!contains(&empty, &needle));
    assert!(matches_at(&hay, &needle, 0));
    assert!(!matches_at(&hay, &needle, 1));
    assert!(matches_at(&hay, &other, 13));
    assert!(!matches_at(&hay, &other, 14));
    assert!(matches_at(&hay, &empty, 16));
    assert!(!matches_at(&hay, &empty, 17));
}

#[test]
fn same_text_compares_characters() {
    assert!(same_text("tabs", "tabs"));
    assert!(!same_text("tabs", "tab"));
    assert!(!same_text("tabs", "taps"));
    assert!(same_text("", ""));
}
