use rpc_dispatch::decimal::{parse_i64, parse_u16};
use rpc_dispatch::decode_query;
use rpc_dispatch::text::{has_prefix, same_text, split_text};
use rpc_dispatch::QueryOptions;

#[test]
fn split_cuts_at_every_separator() {
    assert_eq!(split_text("", '/'), vec![String::new()]);
    assert_eq!(split_text("a", '/'), vec!["a".to_string()]);
    assert_eq!(split_text("messages/42", '/'), vec!["messages".to_string(), "42".to_string()]);
    assert_eq!(
        split_text("/a//b/", '/'),
        vec!["".to_string(), "a".to_string(), "".to_string(), "b".to_string(), "".to_string()]
    );
}

#[test]
fn prefix_and_equality() {
    assert!(has_prefix("/messages/1", "/messages"));
    assert!(has_prefix("x", ""));
    assert!(!has_prefix("/mess", "/messages"));
    assert!(same_text("GET", "GET"));
    assert!(!same_text("GET", "get"));
    assert!(!same_text("GET", "GETS"));
}

#[test]
fn signed_decimal_reading() {
    assert_eq!(parse_i64("42"), Some(42));
    assert_eq!(parse_i64("-42"), Some(-42));
    assert_eq!(parse_i64("+42"), Some(42));
    assert_eq!(parse_i64("9223372036854775807"), Some(i64::MAX));
    assert_eq!(parse_i64("-9223372036854775808"), Some(i64::MIN));
    assert_eq!(parse_i64("9223372036854775808"), None);
    assert_eq!(parse_i64("000000000000000000000000001"), Some(1));
    assert_eq!(parse_i64(""), None);
    assert_eq!(parse_i64("-"), None);
    assert_eq!(parse_i64("4a"), None);
    assert_eq!(parse_i64(" 4"), None);
}

#[test]
fn unsigned_decimal_reading() {
    assert_eq!(parse_u16("0"), Some(0));
    assert_eq!(parse_u16("65535"), Some(65535));
    assert_eq!(parse_u16("65536"), None);
    assert_eq!(parse_u16("-1"), None);
    assert_eq!(parse_u16("+"), None);
}

#[test]
fn query_decoding() {
    assert_eq!(decode_query(""), Some(QueryOptions { limit: None, from_server_id: None }));
    assert_eq!(
        decode_query("from_server_id=5&limit=10"),
        Some(QueryOptions { limit: Some(10), from_server_id: Some(5) })
    );
    assert_eq!(decode_query("limit=1&from_server_id=2&from_server_id=3"), None);
    assert_eq!(decode_query("&"), None);
    assert_eq!(decode_query("limit=1=2"), None);
}

#[test]
fn decimal_reading_agrees_with_std() {
    let samples = [
        "0", "7", "-0", "+0", "12345", "-12345", "65535", "65536", "-65535", "99999999999999999999",
        "-9223372036854775809", "9223372036854775807", "1_000", "0x10", "", "+", "-", "+-1", "--1",
        "१२", "00065535", "３",
    ];
    for s in samples {
        assert_eq!(parse_i64(s), s.parse::<i64>().ok(), "{}", s);
        assert_eq!(parse_u16(s), s.parse::<u16>().ok(), "{}", s);
    }
}
