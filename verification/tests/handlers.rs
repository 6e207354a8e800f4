//! Handlers: what requests ask for and how they are answered.

use axum::http::{HeaderMap, HeaderValue};
use durable_streams::handlers::common::{
    ReadResult, StreamMetadata, StreamOffset, StreamResponse, parse_stream_closed,
};
use durable_streams::handlers::get::{
    LongPollStep, ReadMode, ReadQuery, SseEvent, SseSession, build_body, generate_etag,
    handle_long_poll_timeout, handle_long_poll_wake, read_catch_up, read_long_poll, read_mode,
    resolve_offset,
};
use durable_streams::handlers::head::{remaining_seconds, stream_metadata};
use durable_streams::handlers::health::{health_check, readiness_check};
use durable_streams::handlers::post::{
    PlainAppend, ProducerAppendResult, append_data, append_error, handle_non_producer_append,
    handle_producer_append,
};
use durable_streams::handlers::put::{
    CreateContent, Expiration, build_config, create_response, create_stream, created_status, expiration_of,
    parse_content_type, read_sub_offset, strip_stream_base_path,
};
use durable_streams::middleware::proxy_trust::ProxyTrustResult;
use durable_streams::protocol::cursor::CursorGenerator;
use durable_streams::protocol::error::Error;
use durable_streams::protocol::json_mode::extract_messages;
use durable_streams::protocol::offset::Offset;
use durable_streams::time::{Span, Timestamp};

fn header_map(list: &[(&'static str, &'static str)]) -> HeaderMap {
    let mut map = HeaderMap::new();
    for (name, value) in list {
        map.insert(*name, HeaderValue::from_static(value));
    }
    map
}

fn at(read_seq: u64, byte_offset: u64) -> StreamOffset {
    StreamOffset {
        token: format!("{read_seq}_{byte_offset}"),
        place: Offset::new(read_seq, byte_offset),
    }
}

fn read(messages: &[&str], at_tail: bool, closed: bool) -> ReadResult {
    ReadResult {
        messages: messages.iter().map(|m| m.as_bytes().to_vec()).collect(),
        next_offset: at(2, 10),
        at_tail,
        closed,
    }
}

fn header<'a>(response: &'a StreamResponse, name: &str) -> Option<&'a str> {
    response
        .headers
        .iter()
        .find(|(n, _)| n.eq_ignore_ascii_case(name))
        .map(|(_, value)| value.as_str())
}

fn query(offset: Option<&str>, live: Option<&str>) -> ReadQuery {
    ReadQuery {
        offset: offset.map(ToString::to_string),
        live: live.map(ToString::to_string),
        cursor: None,
    }
}

// ── Reads ──────────────────────────────────────────────────────────

#[test]
fn a_header_is_set_once_whatever_its_case() {
    let response = StreamResponse::new(200).header("x-a", "1").header("x-b", "2").header("X-A", "3");
    assert_eq!(
        response.headers,
        vec![("X-A".to_string(), "3".to_string()), ("x-b".to_string(), "2".to_string())]
    );
}

#[test]
fn offsets_are_required_for_live_reads() {
    assert_eq!(resolve_offset(&query(None, None)).unwrap(), "-1");
    assert_eq!(resolve_offset(&query(Some("5"), Some("sse"))).unwrap(), "5");
    assert!(matches!(
        resolve_offset(&query(None, Some("sse"))),
        Err(Error::InvalidHeader { .. })
    ));
    assert_eq!(read_mode(&query(None, None)).unwrap(), ReadMode::CatchUp);
    assert_eq!(read_mode(&query(None, Some("long-poll"))).unwrap(), ReadMode::LongPoll);
    assert_eq!(read_mode(&query(None, Some("sse"))).unwrap(), ReadMode::Sse);
    assert!(read_mode(&query(None, Some("other"))).is_err());
}

#[test]
fn etags_hold_both_ends() {
    assert_eq!(generate_etag("-1", &read(&[], true, false)), "\"-1:2_10\"");
    assert_eq!(generate_etag("-1", &read(&[], true, true)), "\"-1:2_10:c\"");
    assert_eq!(generate_etag("-1", &read(&[], false, true)), "\"-1:2_10\"");
}

#[test]
fn catch_up_answers_with_data_or_not_modified() {
    let result = read(&["a", "b"], true, true);
    let response = read_catch_up("-1", None, "text/plain", &result);
    assert_eq!(response.status, 200);
    assert_eq!(response.body, Some(b"ab".to_vec()));
    assert_eq!(header(&response, "Stream-Next-Offset"), Some("2_10"));
    assert_eq!(header(&response, "Stream-Up-To-Date"), Some("true"));
    assert_eq!(header(&response, "Stream-Closed"), Some("true"));
    assert_eq!(header(&response, "Stream-Cursor"), None);
    let etag = header(&response, "etag").unwrap().to_string();
    let response = read_catch_up("-1", Some(&etag), "text/plain", &result);
    assert_eq!((response.status, response.body), (304, None));
    let response = read_catch_up("-1", Some("\"x\""), "text/plain", &result);
    assert_eq!(response.status, 200);
}

#[test]
fn bodies_of_json_streams_are_arrays() {
    assert_eq!(
        build_body(&read(&["{\"a\":1}", "2"], true, false), "application/json"),
        b"[{\"a\":1},2]".to_vec()
    );
    assert_eq!(build_body(&read(&[], true, false), "application/json"), b"[]".to_vec());
}

#[test]
fn long_polls_answer_at_once_or_wait() {
    let mut cursors = CursorGenerator::new();
    match read_long_poll("1", None, "text/plain", &read(&["x"], true, false), &mut cursors) {
        LongPollStep::Respond(response) => {
            assert_eq!(response.status, 200);
            assert_eq!(header(&response, "Stream-Cursor"), Some("268435466"));
        }
        LongPollStep::Wait => panic!("data is answered at once"),
    }
    match read_long_poll("1", None, "text/plain", &read(&[], true, true), &mut cursors) {
        LongPollStep::Respond(response) => {
            assert_eq!(response.status, 204);
            assert_eq!(header(&response, "Stream-Closed"), Some("true"));
        }
        LongPollStep::Wait => panic!("a closed stream is answered at once"),
    }
    assert!(matches!(
        read_long_poll("1", None, "text/plain", &read(&[], true, false), &mut cursors),
        LongPollStep::Wait
    ));
    let response = handle_long_poll_timeout(&read(&[], true, false), &mut cursors);
    assert_eq!(response.status, 204);
    assert_eq!(header(&response, "Stream-Up-To-Date"), Some("true"));
    let response = handle_long_poll_wake("1", "text/plain", &read(&["y"], true, false), &mut cursors);
    assert_eq!((response.status, response.body), (200, Some(b"y".to_vec())));
}

#[test]
fn event_streams_send_frames_until_they_end() {
    let mut cursors = CursorGenerator::new();
    let (mut session, response, step) =
        SseSession::open("text/plain", 60, read(&["x"], true, false), &mut cursors);
    assert_eq!(header(&response, "content-type"), Some("text/event-stream"));
    assert_eq!(header(&response, "stream-sse-data-encoding"), None);
    assert_eq!(step.frames.len(), 2);
    assert_eq!(step.frames[0], "event: data\ndata:x\n\n");
    assert!(!step.done);
    assert_eq!(session.idle_timeout(), Some(Span { seconds: 60, nanos: 0 }));
    let step = session.on_event(SseEvent::KeepAlive, &mut cursors);
    assert_eq!((step.frames, step.done), (vec![":\n\n".to_string()], false));
    let step = session.on_event(SseEvent::Read(read(&[], true, true)), &mut cursors);
    assert!(step.done);
    assert!(step.frames[0].contains("\"streamClosed\":true"));
    let step = session.on_event(SseEvent::Shutdown, &mut cursors);
    assert!(step.done && step.frames.is_empty());
}

#[test]
fn binary_event_streams_say_so() {
    let mut cursors = CursorGenerator::new();
    let (session, response, _) =
        SseSession::open("application/octet-stream", 0, read(&[], true, false), &mut cursors);
    assert_eq!(header(&response, "stream-sse-data-encoding"), Some("base64"));
    assert_eq!(session.idle_timeout(), None);
}

// ── Appends ────────────────────────────────────────────────────────

#[test]
fn appends_are_read_from_headers_and_body() {
    let headers = header_map(&[
        ("content-type", "Application/JSON; charset=utf-8"),
        ("stream-seq", "7"),
        ("stream-closed", "true"),
    ]);
    let plan = append_data(&headers, b"[1,2]".to_vec()).unwrap();
    assert_eq!(plan.headers.content_type, "application/json");
    assert_eq!(plan.headers.seq.as_deref(), Some("7"));
    assert!(plan.headers.should_close && !plan.headers.is_close_only);
    assert_eq!(plan.messages, vec![b"1".to_vec(), b"2".to_vec()]);
    assert_eq!(plan.plain_append(), PlainAppend::Append);
}

#[test]
fn empty_appends_only_close() {
    let plan = append_data(&header_map(&[("stream-closed", "true")]), Vec::new()).unwrap();
    assert!(plan.headers.is_close_only);
    assert_eq!(plan.plain_append(), PlainAppend::Head);
    assert!(matches!(
        append_data(&header_map(&[("content-type", "text/plain")]), Vec::new()),
        Err(Error::EmptyBody)
    ));
    assert!(matches!(
        append_data(&header_map(&[("content-type", "application/json")]), b"[]".to_vec()),
        Err(Error::EmptyArray)
    ));
    assert!(append_data(&HeaderMap::new(), b"x".to_vec()).is_err());
    assert!(parse_stream_closed(&header_map(&[("stream-closed", " TRUE ")])));
    assert!(!parse_stream_closed(&header_map(&[("stream-closed", "1")])));
}

#[test]
fn appends_are_answered() {
    let response = handle_non_producer_append(&at(1, 2), true);
    assert_eq!(response.status, 204);
    assert_eq!(header(&response, "Stream-Next-Offset"), Some("1_2"));
    assert_eq!(header(&response, "Stream-Closed"), Some("true"));
    let accepted =
        ProducerAppendResult::Accepted { epoch: 1, seq: 4, next_offset: at(1, 2), closed: false };
    let response = handle_producer_append(&accepted, false);
    assert_eq!(response.status, 200);
    assert_eq!(header(&response, "Producer-Epoch"), Some("1"));
    assert_eq!(header(&response, "Producer-Seq"), Some("4"));
    assert_eq!(handle_producer_append(&accepted, true).status, 204);
    let duplicate =
        ProducerAppendResult::Duplicate { epoch: 1, seq: 4, next_offset: at(1, 2), closed: true };
    assert_eq!(handle_producer_append(&duplicate, false).status, 204);
}

#[test]
fn append_errors_say_what_was_expected() {
    let response = append_error(Error::SequenceGap { expected: 3, actual: 5 }, None, None);
    assert_eq!(response.problem.status, 409);
    let closed = append_error(Error::StreamClosed, None, Some(&at(1, 2)));
    assert!(
        closed
            .headers
            .iter()
            .any(|(n, v)| n.eq_ignore_ascii_case("stream-closed") && v == "true")
    );
}

// ── Creation ───────────────────────────────────────────────────────

fn origin() -> ProxyTrustResult {
    ProxyTrustResult {
        peer_ip: None,
        trusted: false,
        scheme: "http".to_string(),
        authority: Some("h".to_string()),
        client_address: None,
    }
}

#[test]
fn creations_are_planned_from_headers() {
    let headers = header_map(&[
        ("content-type", "Text/Plain"),
        ("stream-ttl", "60"),
        ("stream-closed", "true"),
    ]);
    let plan =
        create_stream(&headers, &origin(), "/v1/stream", "orders", b"hello".to_vec()).unwrap();
    assert_eq!(plan.content_type, "text/plain");
    assert!(plan.created_closed);
    assert_eq!(plan.expiration, Expiration::After(60));
    assert!(matches!(
        &plan.content,
        CreateContent::Messages(messages) if messages == &vec![b"hello".to_vec()]
    ));
    assert_eq!(plan.location, "http://h/v1/stream/orders");
    let config = build_config(
        plan.content_type,
        plan.created_closed,
        plan.expiration,
        Timestamp { seconds: 100, nanos: 5 },
    );
    assert_eq!(config.ttl_seconds, Some(60));
    assert_eq!(config.expires_at, Some(Timestamp { seconds: 160, nanos: 5 }));
}

#[test]
fn forks_name_their_source() {
    let headers = header_map(&[
        ("stream-forked-from", "/v1/stream/source"),
        ("stream-fork-offset", "3"),
        ("stream-fork-sub-offset", "2"),
    ]);
    let plan = create_stream(&headers, &origin(), "/v1/stream", "copy", b"[".to_vec()).unwrap();
    let CreateContent::Fork { plan: fork, body } = plan.content else {
        panic!("a fork");
    };
    assert_eq!(body, b"[".to_vec());
    assert_eq!(fork.source, "source");
    assert_eq!(fork.offset.as_deref(), Some("3"));
    assert_eq!(fork.sub_offset, 2);
    assert!(fork.inherit_content_type);
    assert!(read_sub_offset(&header_map(&[("stream-fork-sub-offset", "x")])).is_err());
    assert_eq!(strip_stream_base_path("/v1/stream/a/b", "/v1/stream"), "a/b");
    assert_eq!(strip_stream_base_path("/a", "/"), "a");
}

#[test]
fn creations_reject_conflicting_headers() {
    let both = header_map(&[("stream-ttl", "1"), ("stream-expires-at", "2030-01-01T00:00:00Z")]);
    assert!(matches!(
        create_stream(&both, &origin(), "/", "a", Vec::new()),
        Err(Error::ConflictingExpiration)
    ));
    assert!(matches!(
        expiration_of(Some(1), Some(Timestamp { seconds: 0, nanos: 0 })),
        Err(Error::ConflictingExpiration)
    ));
    assert!(matches!(expiration_of(None, None), Ok(Expiration::Never)));
    assert_eq!(parse_content_type(&HeaderMap::new()).unwrap(), "application/octet-stream");
    assert!(parse_content_type(&header_map(&[("content-type", "")])).is_err());
}

#[test]
fn creations_split_their_body_first() {
    let json = header_map(&[("content-type", "application/json")]);
    let plan = create_stream(&json, &origin(), "/", "a", b"[1,{\"b\":2}]".to_vec()).unwrap();
    assert!(matches!(
        &plan.content,
        CreateContent::Messages(messages)
            if messages == &vec![b"1".to_vec(), b"{\"b\":2}".to_vec()]
    ));
    let plan = create_stream(&json, &origin(), "/", "a", b"[]".to_vec()).unwrap();
    assert!(matches!(&plan.content, CreateContent::Messages(messages) if messages.is_empty()));
    assert!(matches!(
        create_stream(&json, &origin(), "/", "a", b"{".to_vec()),
        Err(Error::InvalidJson(_))
    ));
    let lost = header_map(&[("stream-fork-offset", "3")]);
    assert!(matches!(
        create_stream(&lost, &origin(), "/", "a", Vec::new()),
        Err(Error::InvalidHeader { header, .. }) if header == "Stream-Forked-From"
    ));
}

#[test]
fn creations_are_answered() {
    assert_eq!((created_status(true), created_status(false)), (201, 200));
    let response = create_response(true, "text/plain", &at(0, 0), "http://h/a", true);
    assert_eq!(response.status, 201);
    assert_eq!(header(&response, "location"), Some("http://h/a"));
    assert_eq!(header(&response, "Stream-Closed"), Some("true"));
    assert_eq!(header(&response, "Stream-Next-Offset"), Some("0_0"));
}

// ── Metadata and health ────────────────────────────────────────────

#[test]
fn metadata_tells_what_is_left() {
    let meta = StreamMetadata {
        content_type: "text/plain".to_string(),
        next_offset: at(1, 2),
        closed: false,
        ttl_seconds: Some(60),
        expires_at: Some(Timestamp { seconds: 1_704_067_260, nanos: 0 }),
    };
    let response = stream_metadata(&meta, Timestamp { seconds: 1_704_067_200, nanos: 0 });
    assert_eq!(response.status, 200);
    assert_eq!(header(&response, "content-type"), Some("text/plain"));
    assert_eq!(header(&response, "Stream-TTL"), Some("60"));
    assert_eq!(header(&response, "Stream-Expires-At"), Some("2024-01-01T00:01:00+00:00"));
    let now = Timestamp { seconds: 100, nanos: 0 };
    assert_eq!(remaining_seconds(now, Timestamp { seconds: 160, nanos: 0 }, true), Some(60));
}

#[test]
fn health_is_told_by_status() {
    assert_eq!(health_check(), (200, "ok"));
    assert_eq!(readiness_check(true), (200, "ready"));
    assert_eq!(readiness_check(false), (503, "not ready"));
}

#[test]
fn remaining_seconds_follow_chrono_over_leap_seconds() {
    let moments: [(i64, u32); 7] = [
        (50_000, 0),
        (86_400 + 45_299, 1_000_000_000),
        (86_400 + 45_299, 1_999_999_999),
        (86_400 + 60_059, 1_500_000_000),
        (3 * 86_400 + 10, 999_999_999),
        (-86_400 + 70_000, 5),
        (86_399, 1_000_000_000),
    ];
    for (now_seconds, now_nanos) in moments {
        for (seconds, nanos) in moments {
            let now = chrono::DateTime::from_timestamp(now_seconds, now_nanos).expect("a moment");
            let at = chrono::DateTime::from_timestamp(seconds, nanos).expect("a moment");
            let whole = (at - now).num_seconds();
            let rounded = ((at - now).num_milliseconds() + 999) / 1000;
            let here = Timestamp { seconds: now_seconds, nanos: now_nanos };
            let there = Timestamp { seconds, nanos };
            let expected = |n: i64| if n > 0 { Some(i128::from(n)) } else { None };
            assert_eq!(remaining_seconds(here, there, false), expected(whole));
            assert_eq!(remaining_seconds(here, there, true), expected(rounded));
        }
    }
}

#[test]
fn a_read_returns_what_was_appended() {
    let mut raw = Vec::new();
    for body in ["abc", "", "de"] {
        raw.extend(extract_messages(body.as_bytes().to_vec(), "text/plain").expect("plain text"));
    }
    let result = ReadResult { messages: raw, next_offset: at(1, 5), at_tail: true, closed: false };
    assert_eq!(build_body(&result, "text/plain"), b"abcde".to_vec());

    let mut values = Vec::new();
    for body in ["[1, 2]", "{\"a\": null}", "[]"] {
        let split = extract_messages(body.as_bytes().to_vec(), "application/json");
        values.extend(split.expect("valid JSON"));
    }
    let result = ReadResult { messages: values, next_offset: at(3, 9), at_tail: true, closed: false };
    assert_eq!(build_body(&result, "application/json"), b"[1,2,{\"a\":null}]".to_vec());
}
