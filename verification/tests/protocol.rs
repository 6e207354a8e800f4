//! Protocol headers, cursors, producers and JSON messages.

use axum::http::HeaderMap;
use durable_streams::protocol::cursor::{CursorGenerator, generate};
use durable_streams::protocol::error::Error;
use durable_streams::protocol::headers::{
    names, normalize_content_type, parse_bool, parse_expires_at, parse_ttl,
};
use durable_streams::protocol::json_mode::{
    extract_messages, is_json_content_type, process_append, wrap_read_iter,
};
use durable_streams::protocol::offset::Offset;
use durable_streams::protocol::producer::{
    check_producer_values, parse_non_negative_int, parse_producer_headers,
};

fn bytes(text: &str) -> Vec<u8> {
    text.as_bytes().to_vec()
}

#[test]
fn test_cursor_is_digits_only() {
    let mut generator = CursorGenerator::new();
    let offset = Offset::new(3, 26);
    let cursor = generator.generate(&offset);
    assert!(cursor.chars().all(|c| c.is_ascii_digit()));
}

#[test]
fn test_cursor_increases_for_same_offset() {
    let mut generator = CursorGenerator::new();
    // Consecutive calls at the same offset must still produce
    // strictly increasing cursors (jitter detection).
    let offset = Offset::new(7, 42);
    let c1: u64 = generator.generate(&offset).parse().unwrap();
    let c2: u64 = generator.generate(&offset).parse().unwrap();
    assert!(c2 > c1);
}

#[test]
fn test_cursor_changes_with_offset() {
    let mut generator = CursorGenerator::new();
    let a = Offset::new(1, 2);
    let b = Offset::new(1, 3);
    assert_ne!(generator.generate(&a), generator.generate(&b));
}

#[test]
fn test_cursor_is_monotonic() {
    let mut generator = CursorGenerator::new();
    // Offsets increase → cursors increase (numerically)
    let a = Offset::new(1, 5);
    let b = Offset::new(1, 10);
    let c = Offset::new(2, 0);
    let ca: u64 = generator.generate(&a).parse().unwrap();
    let cb: u64 = generator.generate(&b).parse().unwrap();
    let cc: u64 = generator.generate(&c).parse().unwrap();
    assert!(cb > ca);
    assert!(cc > cb);
}

#[test]
fn test_cursor_fits_in_js_max_safe_integer() {
    let mut generator = CursorGenerator::new();
    // Typical values: read_seq up to ~67M, byte_offset up to 10MB
    let offset = Offset::new(67_000_000, 10_485_760);
    let cursor: u64 = generator.generate(&offset).parse().unwrap();
    assert!(cursor < (1_u64 << 53));
}

#[test]
fn test_parse_ttl_valid() {
    assert_eq!(parse_ttl("0").unwrap(), 0);
    assert_eq!(parse_ttl("1").unwrap(), 1);
    assert_eq!(parse_ttl("3600").unwrap(), 3600);
    assert_eq!(parse_ttl("86400").unwrap(), 86400);
    assert_eq!(parse_ttl("  100  ").unwrap(), 100); // whitespace ok
}

#[test]
fn test_parse_ttl_invalid() {
    // Leading zeros
    assert!(parse_ttl("01").is_err());
    assert!(parse_ttl("00").is_err());
    assert!(parse_ttl("0123").is_err());

    // Decimals
    assert!(parse_ttl("1.5").is_err());
    assert!(parse_ttl("3600.0").is_err());

    // Scientific notation
    assert!(parse_ttl("1e3").is_err());
    assert!(parse_ttl("1E3").is_err());

    // Negative
    assert!(parse_ttl("-1").is_err());

    // Leading plus
    assert!(parse_ttl("+1").is_err());
    assert!(parse_ttl("+123").is_err());

    // Empty
    assert!(parse_ttl("").is_err());
    assert!(parse_ttl("  ").is_err());

    // Non-numeric
    assert!(parse_ttl("abc").is_err());
}

#[test]
fn test_parse_bool() {
    assert!(parse_bool("true"));
    assert!(parse_bool("TRUE"));
    assert!(parse_bool("True"));
    assert!(parse_bool("  true  "));

    assert!(!parse_bool("false"));
    assert!(!parse_bool("1"));
    assert!(!parse_bool(""));
    assert!(!parse_bool("yes"));
}

#[test]
fn test_normalize_content_type() {
    assert_eq!(normalize_content_type("text/plain"), "text/plain");
    assert_eq!(normalize_content_type("TEXT/PLAIN"), "text/plain");
    assert_eq!(
        normalize_content_type("text/plain; charset=utf-8"),
        "text/plain"
    );
    assert_eq!(
        normalize_content_type("application/json;charset=utf-8"),
        "application/json"
    );
    assert_eq!(normalize_content_type("  TEXT/PLAIN  "), "text/plain");
}

#[test]
fn test_process_append_single_value() {
    let data = br#"{"event":"click","x":100}"#;
    let result = process_append(data).unwrap();

    assert_eq!(result.len(), 1);
    assert_eq!(result[0], bytes(r#"{"event":"click","x":100}"#));
}

#[test]
fn test_process_append_array_flattening() {
    let data = br#"[{"a":1},{"b":2}]"#;
    let result = process_append(data).unwrap();

    assert_eq!(result.len(), 2);
    assert_eq!(result[0], bytes(r#"{"a":1}"#));
    assert_eq!(result[1], bytes(r#"{"b":2}"#));
}

#[test]
fn test_process_append_empty_array_returns_empty_vec() {
    let data = b"[]";
    let result = process_append(data).unwrap();
    assert!(result.is_empty());
}

#[test]
fn test_process_append_invalid_json() {
    let data = b"{invalid}";
    let result = process_append(data);

    assert!(matches!(result, Err(Error::InvalidJson(_))));
}

#[test]
fn test_process_append_nested_arrays_preserved() {
    let data = br#"[{"tags":["a","b"]},{"items":[1,2,3]}]"#;
    let result = process_append(data).unwrap();

    assert_eq!(result.len(), 2);
    assert_eq!(result[0], bytes(r#"{"tags":["a","b"]}"#));
    assert_eq!(result[1], bytes(r#"{"items":[1,2,3]}"#));
}

#[test]
fn test_wrap_read_iter_empty() {
    let result = wrap_read_iter(&Vec::new());
    assert_eq!(result, bytes("[]"));
}

#[test]
fn test_wrap_read_iter_single_message() {
    let messages = vec![bytes(r#"{"a":1}"#)];
    let result = wrap_read_iter(&messages);
    assert_eq!(result, bytes(r#"[{"a":1}]"#));
}

#[test]
fn test_wrap_read_iter_multiple_messages() {
    let messages = vec![
        bytes(r#"{"a":1}"#),
        bytes(r#"{"b":2}"#),
        bytes(r#"{"c":3}"#),
    ];
    let result = wrap_read_iter(&messages);
    assert_eq!(result, bytes(r#"[{"a":1},{"b":2},{"c":3}]"#));
}

#[test]
fn test_is_json_content_type() {
    assert!(is_json_content_type("application/json"));
    assert!(!is_json_content_type("text/plain"));
    assert!(!is_json_content_type("application/xml"));
}

fn headers_with(id: &str, epoch: &str, seq: &str) -> HeaderMap {
    let mut h = HeaderMap::new();
    h.insert(names::PRODUCER_ID, id.parse().unwrap());
    h.insert(names::PRODUCER_EPOCH, epoch.parse().unwrap());
    h.insert(names::PRODUCER_SEQ, seq.parse().unwrap());
    h
}

#[test]
fn test_no_headers_returns_none() {
    let h = HeaderMap::new();
    assert!(parse_producer_headers(&h).unwrap().is_none());
}

#[test]
fn test_all_valid_headers() {
    let h = headers_with("prod-1", "0", "0");
    let result = parse_producer_headers(&h).unwrap().unwrap();
    assert_eq!(result.id, "prod-1");
    assert_eq!(result.epoch, 0);
    assert_eq!(result.seq, 0);
}

#[test]
fn test_large_values() {
    let h = headers_with("prod-1", "9007199254740991", "9007199254740991");
    let result = parse_producer_headers(&h).unwrap().unwrap();
    assert_eq!(result.epoch, 9_007_199_254_740_991);
    assert_eq!(result.seq, 9_007_199_254_740_991);
}

#[test]
fn test_partial_headers_id_only() {
    let mut h = HeaderMap::new();
    h.insert(names::PRODUCER_ID, "prod-1".parse().unwrap());
    assert!(matches!(
        parse_producer_headers(&h),
        Err(Error::InvalidProducerState(_))
    ));
}

#[test]
fn test_partial_headers_missing_seq() {
    let mut h = HeaderMap::new();
    h.insert(names::PRODUCER_ID, "prod-1".parse().unwrap());
    h.insert(names::PRODUCER_EPOCH, "0".parse().unwrap());
    assert!(matches!(
        parse_producer_headers(&h),
        Err(Error::InvalidProducerState(_))
    ));
}

#[test]
fn test_empty_producer_id() {
    let h = headers_with("", "0", "0");
    assert!(matches!(
        parse_producer_headers(&h),
        Err(Error::InvalidProducerState(_))
    ));
}

#[test]
fn test_non_integer_epoch() {
    let h = headers_with("prod-1", "abc", "0");
    assert!(matches!(
        parse_producer_headers(&h),
        Err(Error::InvalidProducerState(_))
    ));
}

#[test]
fn test_non_integer_seq() {
    let h = headers_with("prod-1", "0", "3.5");
    assert!(matches!(
        parse_producer_headers(&h),
        Err(Error::InvalidProducerState(_))
    ));
}

#[test]
fn test_negative_epoch() {
    let h = headers_with("prod-1", "-1", "0");
    assert!(matches!(
        parse_producer_headers(&h),
        Err(Error::InvalidProducerState(_))
    ));
}

#[test]
fn test_leading_zeros_rejected() {
    let h = headers_with("prod-1", "01", "0");
    assert!(matches!(
        parse_producer_headers(&h),
        Err(Error::InvalidProducerState(_))
    ));
}

#[test]
fn test_exceeds_max_safe_integer_rejected() {
    // 2^53 = 9007199254740992, one above the limit
    let h = headers_with("prod-1", "9007199254740992", "0");
    assert!(matches!(
        parse_producer_headers(&h),
        Err(Error::InvalidProducerState(_))
    ));

    let h = headers_with("prod-1", "0", "9007199254740992");
    assert!(matches!(
        parse_producer_headers(&h),
        Err(Error::InvalidProducerState(_))
    ));
}

#[test]
fn test_scientific_notation_rejected() {
    let h = headers_with("prod-1", "1e5", "0");
    assert!(matches!(
        parse_producer_headers(&h),
        Err(Error::InvalidProducerState(_))
    ));
}

#[test]
fn cursor_is_the_position_with_the_read_number_above() {
    let mut generator = CursorGenerator::new();
    assert_eq!(generate(&mut generator, &Offset::new(3, 26)), ((3u64 << 27) | 26).to_string());
    assert_eq!(generate(&mut generator, &Offset::new(3, 26)), ((3u64 << 27) + 27).to_string());
    assert_eq!(generator.last_cursor, (3u64 << 27) + 27);
}

#[test]
fn ttl_errors_say_what_is_wrong() {
    assert!(matches!(parse_ttl("01"), Err(Error::InvalidTtl(_))));
    assert!(matches!(parse_ttl("18446744073709551616"), Err(Error::InvalidTtl(_))));
    assert_eq!(parse_ttl("18446744073709551615").unwrap(), u64::MAX);
}

#[test]
fn expiry_times_are_read_as_utc() {
    let at = parse_expires_at("2024-01-01T02:00:00.5+02:00").unwrap();
    assert_eq!((at.seconds, at.nanos), (1_704_067_200, 500_000_000));
    assert!(matches!(parse_expires_at("tomorrow"), Err(Error::InvalidHeader { .. })));
}

#[test]
fn content_types_beyond_ascii_are_lowered() {
    assert_eq!(normalize_content_type("\u{c4}/X; q"), "\u{e4}/x");
    assert_eq!(normalize_content_type(&normalize_content_type("A/B ; c")), "a/b");
}

#[test]
fn process_append_writes_compact_json() {
    let result = process_append(b" { \"b\" : 1 , \"a\" : [ 1 , 2 ] } ").unwrap();
    assert_eq!(result.len(), 1);
    let text = String::from_utf8(result[0].clone()).unwrap();
    assert!(text == r#"{"b":1,"a":[1,2]}"# || text == r#"{"a":[1,2],"b":1}"#);
}

#[test]
fn bodies_of_other_types_are_one_message() {
    assert_eq!(extract_messages(bytes("[1,2]"), "text/plain").unwrap(), vec![bytes("[1,2]")]);
    assert_eq!(
        extract_messages(bytes("[1,2]"), "application/json").unwrap(),
        vec![bytes("1"), bytes("2")]
    );
    assert!(matches!(
        extract_messages(bytes("["), "application/json"),
        Err(Error::InvalidJson(_))
    ));
}

#[test]
fn what_a_read_wraps_comes_apart_into_the_same_messages() {
    let lists: [Vec<Vec<u8>>; 3] = [
        Vec::new(),
        vec![bytes("[1,[2]]"), bytes(r#"{"a":"],[","b":1.5}"#), bytes("null"), bytes("[]")],
        vec![bytes(&("[".repeat(126) + &"]".repeat(126)))],
    ];
    for messages in lists {
        assert_eq!(process_append(&wrap_read_iter(&messages)).unwrap(), messages);
    }
    let deep = vec![bytes(&("[".repeat(127) + &"]".repeat(127)))];
    assert!(process_append(&deep[0]).is_ok());
    assert!(matches!(process_append(&wrap_read_iter(&deep)), Err(Error::InvalidJson(_))));
}

#[test]
fn appended_messages_are_wrapped_back_to_the_array() {
    let messages = process_append(br#"[{"a":1},[2],null]"#).unwrap();
    assert_eq!(wrap_read_iter(&messages), bytes(r#"[{"a":1},[2],null]"#));
}

#[test]
fn producer_values_are_checked_without_a_header_map() {
    assert!(check_producer_values(None, None, None).unwrap().is_none());
    let found = check_producer_values(
        Some("p".to_string()),
        Some("1".to_string()),
        Some("2".to_string()),
    )
    .unwrap()
    .unwrap();
    assert_eq!((found.id.as_str(), found.epoch, found.seq), ("p", 1, 2));
    assert!(matches!(
        parse_non_negative_int("18446744073709551616", "Producer-Seq"),
        Err(Error::InvalidProducerState(_))
    ));
}
