//! Server-sent events: frames, lines and content types.

use durable_streams::protocol::sse::{
    ControlPayload, format_control_frame, format_data_frame, format_data_frames,
    format_keepalive_frame, is_binary_content_type, split_lines,
};

fn bytes(text: &str) -> Vec<u8> {
    text.as_bytes().to_vec()
}

#[test]
fn test_is_binary_text_types() {
    assert!(!is_binary_content_type("text/plain"));
    assert!(!is_binary_content_type("text/html"));
    assert!(!is_binary_content_type("text/csv"));
}

#[test]
fn test_is_binary_json() {
    assert!(!is_binary_content_type("application/json"));
}

#[test]
fn test_is_binary_octet_stream() {
    assert!(is_binary_content_type("application/octet-stream"));
}

#[test]
fn test_is_binary_protobuf() {
    assert!(is_binary_content_type("application/x-protobuf"));
}

#[test]
fn test_is_binary_ndjson() {
    // application/ndjson is not text/* or application/json, so it's binary
    assert!(is_binary_content_type("application/ndjson"));
}

#[test]
fn test_control_payload_serializes_camel_case() {
    let payload = ControlPayload {
        stream_next_offset: "abc_123".to_string(),
        stream_cursor: Some("cursor1".to_string()),
        up_to_date: Some(true),
        stream_closed: None,
    };
    let json = payload.to_json();
    assert!(json.contains("\"streamNextOffset\""));
    assert!(json.contains("\"streamCursor\""));
    assert!(json.contains("\"upToDate\""));
    assert!(!json.contains("\"streamClosed\""));
}

#[test]
fn test_control_payload_skips_none_fields() {
    let payload = ControlPayload {
        stream_next_offset: "offset1".to_string(),
        stream_cursor: None,
        up_to_date: None,
        stream_closed: Some(true),
    };
    let json = payload.to_json();
    assert!(json.contains("\"streamNextOffset\""));
    assert!(!json.contains("\"streamCursor\""));
    assert!(!json.contains("\"upToDate\""));
    assert!(json.contains("\"streamClosed\":true"));
}

#[test]
fn test_format_data_frame_text() {
    let data = bytes("hello world");
    let frame = format_data_frame(&data, false, false);
    assert_eq!(frame, "event: data\ndata:hello world\n\n");
}

#[test]
fn test_format_data_frame_multiline_lf() {
    let data = bytes("line1\nline2\nline3");
    let frame = format_data_frame(&data, false, false);
    assert!(frame.contains("data:line1\n"));
    assert!(frame.contains("data:line2\n"));
    assert!(frame.contains("data:line3\n"));
}

#[test]
fn test_format_data_frame_multiline_crlf() {
    let data = bytes("line1\r\nline2\r\nline3");
    let frame = format_data_frame(&data, false, false);
    assert!(frame.contains("data:line1\n"));
    assert!(frame.contains("data:line2\n"));
    assert!(frame.contains("data:line3\n"));
    // No \r should appear in the output
    assert!(!frame.contains('\r'));
}

#[test]
fn test_format_data_frame_multiline_cr() {
    let data = bytes("line1\rline2\rline3");
    let frame = format_data_frame(&data, false, false);
    assert!(frame.contains("data:line1\n"));
    assert!(frame.contains("data:line2\n"));
    assert!(frame.contains("data:line3\n"));
    assert!(!frame.contains('\r'));
}

#[test]
fn test_format_data_frame_json() {
    let data = bytes(r#"{"id":1}"#);
    let frame = format_data_frame(&data, false, true);
    assert!(frame.contains(r#"data:[{"id":1}]"#));
}

#[test]
fn test_format_data_frame_binary() {
    let data = vec![0x01, 0x02, 0x03];
    let frame = format_data_frame(&data, true, false);
    assert!(frame.contains("data:AQID"));
}

#[test]
fn test_format_control_frame() {
    let payload = ControlPayload {
        stream_next_offset: "test".to_string(),
        stream_cursor: None,
        up_to_date: Some(true),
        stream_closed: None,
    };
    let frame = format_control_frame(&payload);
    assert!(frame.starts_with("event: control\n"));
    assert!(frame.contains("data:"));
    assert!(frame.ends_with("\n\n"));
}

#[test]
fn test_split_lines_lf() {
    assert_eq!(split_lines("a\nb\nc"), vec!["a", "b", "c"]);
}

#[test]
fn test_split_lines_crlf() {
    assert_eq!(split_lines("a\r\nb\r\nc"), vec!["a", "b", "c"]);
}

#[test]
fn test_split_lines_cr() {
    assert_eq!(split_lines("a\rb\rc"), vec!["a", "b", "c"]);
}

#[test]
fn test_split_lines_mixed() {
    assert_eq!(split_lines("a\nb\rc\r\nd"), vec!["a", "b", "c", "d"]);
}

#[test]
fn test_split_lines_empty_segments() {
    // Consecutive line endings produce empty segments
    assert_eq!(split_lines("a\n\nb"), vec!["a", "", "b"]);
    assert_eq!(split_lines("a\r\rb"), vec!["a", "", "b"]);
}

#[test]
fn test_format_data_frames_json_batches_into_single_event() {
    let messages = vec![
        bytes(r#"{"id":1}"#),
        bytes(r#"{"id":2}"#),
        bytes(r#"{"id":3}"#),
    ];
    let frame = format_data_frames(&messages, false, true);
    // Should produce exactly one `event: data` with all messages in one array
    assert_eq!(
        frame.matches("event: data").count(),
        1,
        "JSON batch should produce exactly one SSE data event"
    );
    assert!(
        frame.contains(r#"data:[{"id":1},{"id":2},{"id":3}]"#),
        "JSON batch should contain all messages in one array"
    );
}

#[test]
fn test_format_data_frames_json_single_message() {
    let messages = vec![bytes(r#"{"id":1}"#)];
    let frame = format_data_frames(&messages, false, true);
    assert_eq!(frame.matches("event: data").count(), 1);
    assert!(frame.contains(r#"data:[{"id":1}]"#));
}

#[test]
fn test_format_data_frames_text_emits_per_message() {
    let messages = vec![bytes("hello"), bytes("world")];
    let frame = format_data_frames(&messages, false, false);
    // Non-JSON should produce one event: data per message
    assert_eq!(
        frame.matches("event: data").count(),
        2,
        "Text batch should produce one SSE data event per message"
    );
}

#[test]
fn test_format_data_frames_empty() {
    let result = format_data_frames(&Vec::new(), false, true);
    assert!(result.is_empty());
}

#[test]
fn control_payload_is_exact_json() {
    let payload = ControlPayload {
        stream_next_offset: "a\"b".to_string(),
        stream_cursor: Some("7".to_string()),
        up_to_date: Some(false),
        stream_closed: Some(true),
    };
    assert_eq!(
        payload.to_json(),
        r#"{"streamNextOffset":"a\"b","streamCursor":"7","upToDate":false,"streamClosed":true}"#
    );
    assert_eq!(
        format_control_frame(&payload),
        format!("event: control\ndata:{}\n\n", payload.to_json())
    );
}

#[test]
fn text_messages_become_one_frame_each() {
    let messages = vec![bytes("one\ntwo"), bytes("three")];
    assert_eq!(
        format_data_frames(&messages, false, false),
        "event: data\ndata:one\ndata:two\n\nevent: data\ndata:three\n\n"
    );
}

#[test]
fn binary_frames_hold_padded_base64() {
    assert_eq!(format_data_frame(&vec![0xff], true, false), "event: data\ndata:/w==\n\n");
    assert_eq!(format_data_frame(&Vec::new(), true, false), "event: data\ndata:\n\n");
}

#[test]
fn invalid_text_is_replaced_in_frames() {
    assert_eq!(
        format_data_frame(&vec![b'a', 0xff, b'b'], false, false),
        "event: data\ndata:a\u{fffd}b\n\n"
    );
}

#[test]
fn keepalive_is_a_comment() {
    assert_eq!(format_keepalive_frame(), ":\n\n");
}

#[test]
fn control_payload_texts_are_quoted() {
    let payload = ControlPayload {
        stream_next_offset: "a\"b\n".to_string(),
        stream_cursor: None,
        up_to_date: None,
        stream_closed: None,
    };
    assert_eq!(payload.to_json(), "{\"streamNextOffset\":\"a\\\"b\\n\"}");
}
