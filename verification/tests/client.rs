//! The client: builders, requests, replies, reads, retries and configuration.

use axum::http::{HeaderMap, HeaderName, HeaderValue};
use durable_streams::client::auth::{AuthConfig, auth_type};
use durable_streams::client::builders::Client;
use durable_streams::client::collect::{ControlEvent, SseCollector};
use durable_streams::client::config::{
    ClientConfigLoader, ClientConfigLoaderError, FileConfig, merge_layers, resolve,
};
use durable_streams::client::error::{
    Error, ErrorKind, HttpError, TransportFailure, error_kind_name,
};
use durable_streams::client::idempotent::{
    Attempt, IdempotentProducer, IdempotentProducerConfig, combine_bodies,
};
use durable_streams::client::model::{
    AppendResponse, CloseStreamResponse, LiveMode, ReadChunk, ReadPayload, ReadRequest,
    ReadResponse, RequestOptions, live_mode_name,
};
use durable_streams::client::protocol::{build_http_error_from_parts, collect_catch_up};
use durable_streams::client::read::{
    LongPoll, auto_first, auto_result, auto_second, read_timed_out, subscription_step,
};
use durable_streams::client::requests::{
    Method, append_reply, append_request, bare_request, close_reply, create_reply, create_request,
    delete_reply, head_reply, is_success, read_request, sse_request, stream_url,
};
use durable_streams::client::retry::{
    Multiplier, RetryOptions, RetryPolicy, RetryStep, next_delay,
};
use durable_streams::client::sse::{ParsedEvent, SseParser};
use durable_streams::client::types::{Offset, StreamInfo};
use durable_streams::handlers::common::{ReadResult, StreamOffset};
use durable_streams::handlers::get::read_catch_up;
use durable_streams::handlers::put::{Expiration, read_create_headers};
use durable_streams::protocol::offset;
use durable_streams::protocol::producer::check_producer_values;
use durable_streams::protocol::sse::format_data_frames;
use durable_streams::time::Span;

fn s(text: &str) -> String {
    text.to_string()
}

fn pairs(list: &[(&str, &str)]) -> Vec<(String, String)> {
    list.iter().map(|(a, b)| (s(a), s(b))).collect()
}

fn header_map(list: &[(&'static str, &'static str)]) -> HeaderMap {
    let mut map = HeaderMap::new();
    for (name, value) in list {
        map.insert(*name, HeaderValue::from_static(value));
    }
    map
}

fn no_options() -> RequestOptions {
    RequestOptions { headers: Vec::new(), query: Vec::new() }
}

// ── Builders ───────────────────────────────────────────────────────

#[test]
fn client_create_builder_uses_client_default_content_type() {
    let client = Client::builder()
        .default_content_type(s("application/json"))
        .build()
        .expect("client builds");
    let request = client.stream(s("/orders")).create().into_raw();

    assert_eq!(request.content_type, "application/json");
}

#[test]
fn client_append_builder_maps_expected_seq_to_raw_stream_seq() {
    let client = Client::builder().build().expect("client builds");
    let request = client
        .stream(s("/orders"))
        .append(b"payload".to_vec())
        .expected_seq(s("42-0"))
        .into_raw();

    assert_eq!(request.stream_seq.as_deref(), Some("42-0"));
}

#[test]
fn client_read_builder_uses_typed_offsets() {
    let client = Client::builder().build().expect("client builds");
    let request = client
        .stream(s("/orders"))
        .read()
        .offset(Offset::Now)
        .live(LiveMode::Auto)
        .until_up_to_date()
        .to_raw_request();

    assert_eq!(request.offset.as_deref(), Some("now"));
    assert_eq!(request.live, LiveMode::Auto);
    assert!(request.wait_for_up_to_date);
}

#[test]
fn tests_create_builder_uses_client_default_content_type() {
    let client = Client::builder()
        .default_content_type(s("application/json"))
        .build()
        .expect("client builds");
    let request = client.stream(s("/orders")).create().into_raw();

    assert_eq!(request.content_type, "application/json");
}

#[test]
fn tests_append_builder_maps_expected_seq_to_raw_stream_seq() {
    let client = Client::builder().build().expect("client builds");
    let request = client
        .stream(s("/orders"))
        .append(b"payload".to_vec())
        .expected_seq(s("42-0"))
        .into_raw();

    assert_eq!(request.stream_seq.as_deref(), Some("42-0"));
}

#[test]
fn tests_read_builder_uses_typed_offsets() {
    let client = Client::builder().build().expect("client builds");
    let request = client
        .stream(s("/orders"))
        .read()
        .offset(Offset::Now)
        .live(LiveMode::Auto)
        .until_up_to_date()
        .to_raw_request();

    assert_eq!(request.offset.as_deref(), Some("now"));
    assert_eq!(request.live, LiveMode::Auto);
    assert!(request.wait_for_up_to_date);
}

#[test]
fn builders_reject_bad_urls_and_headers() {
    assert!(Client::builder().base_url("not a url").build().is_err());
    assert!(Client::builder().bearer_auth(s(" ")).build().is_err());
    assert!(Client::builder().default_header(s("bad name"), s("v")).build().is_err());
    assert!(Client::builder().default_header(s("x"), s("a\nb")).build().is_err());
    assert!(
        Client::builder()
            .connect_timeout(Span { seconds: 0, nanos: 0 })
            .build()
            .is_err()
    );
    let client = Client::builder()
        .base_url("http://h/v1/stream/")
        .default_header(s("X-A"), s("1"))
        .build()
        .unwrap();
    assert_eq!(client.config().base_url, "http://h/v1/stream/");
    assert_eq!(client.default_headers, pairs(&[("x-a", "1")]));
}

#[test]
fn create_builder_holds_what_it_is_given() {
    let client = Client::builder().build().unwrap();
    let request = client
        .stream(s("/orders"))
        .create()
        .content_type(s("text/plain"))
        .ttl(Span { seconds: 60, nanos: 5 })
        .expires_at(s("later"))
        .closed(true)
        .body(b"x".to_vec())
        .header(s("a"), s("1"))
        .query(s("q"), s("2"))
        .into_raw();
    assert_eq!(request.content_type, "text/plain");
    assert_eq!(request.ttl_seconds, Some(60));
    assert_eq!(request.expires_at.as_deref(), Some("later"));
    assert!(request.closed);
    assert_eq!(request.body, Some(b"x".to_vec()));
    assert_eq!(request.options.headers, pairs(&[("a", "1")]));
    assert_eq!(request.options.query, pairs(&[("q", "2")]));
}

// ── Offsets ────────────────────────────────────────────────────────

#[test]
fn parses_protocol_offset_sentinels() {
    assert_eq!(Offset::parse("-1"), Offset::Beginning);
    assert_eq!(Offset::parse("now"), Offset::Now);
    assert_eq!(Offset::parse("42-0"), Offset::At("42-0".to_string()));
}

#[test]
fn displays_protocol_offset_tokens() {
    assert_eq!(Offset::Beginning.to_string(), "-1");
    assert_eq!(Offset::Now.to_string(), "now");
    assert_eq!(Offset::at("42-0").to_string(), "42-0");
}

#[test]
fn tokens_read_back() {
    for token in ["-1", "now", "abc"] {
        assert_eq!(Offset::parse(token).to_string(), token);
        assert_eq!(Offset::from(s(token)).as_str(), token);
    }
    assert_eq!(Offset::parse(""), Offset::Beginning);
}

// ── Requests ───────────────────────────────────────────────────────

fn client() -> Client {
    Client::builder()
        .base_url("http://h:1/v1/stream/")
        .default_header(s("X-Default"), s("d"))
        .default_query(s("tenant"), s("t 1"))
        .build()
        .unwrap()
}

#[test]
fn requests_override_the_defaults() {
    let client = Client::builder()
        .base_url("http://127.0.0.1:8080/")
        .default_header(s("X-A"), s("d"))
        .default_header(s("X-B"), s("d"))
        .default_query(s("k"), s("d"))
        .default_query(s("l"), s("d"))
        .build()
        .unwrap();
    let options = RequestOptions {
        headers: pairs(&[("x-a", "r")]),
        query: pairs(&[("k", "r")]),
    };
    assert_eq!(
        stream_url(client.config(), "/orders", &options).unwrap(),
        "http://127.0.0.1:8080/orders?l=d&k=r"
    );
    let request =
        bare_request(client.config(), &client.default_headers, Method::Head, "/orders", &options)
            .unwrap();
    assert_eq!(request.general_headers, pairs(&[("x-b", "d"), ("x-a", "r")]));
}

#[test]
fn batches_stay_within_their_limits() {
    let producer = |content_type: &str, bytes: usize, items: Option<usize>| {
        IdempotentProducer::new(
            s("/o"),
            s(content_type),
            no_options(),
            IdempotentProducerConfig {
                producer_id: s("p"),
                max_batch_bytes: bytes,
                max_batch_items: items,
                ..Default::default()
            },
        )
        .unwrap()
    };
    let bodies = vec![b"abc".to_vec(), b"def".to_vec()];
    assert!(matches!(
        producer("text/plain", 4, None).append_batch(&bodies),
        Err(Error::InvalidArgument(m)) if m == "batch exceeds maxBatchBytes"
    ));
    assert_eq!(
        producer("text/plain", 6, Some(2)).append_batch(&bodies).unwrap().body,
        b"abcdef".to_vec()
    );
    assert!(matches!(
        producer("text/plain", 6, Some(1)).append_batch(&bodies),
        Err(Error::InvalidArgument(m)) if m == "batch exceeds maxBatchItems"
    ));
    let values = vec![s("1"), s("2")];
    let json = |bytes, items| producer("application/json", bytes, items).append_json_values(&values);
    assert_eq!(json(5, Some(2)).unwrap().body, b"[1,2]".to_vec());
    assert!(matches!(json(4, None), Err(Error::InvalidArgument(_))));
    assert!(matches!(json(5, Some(1)), Err(Error::InvalidArgument(_))));
}

#[test]
fn stream_urls_join_the_base_and_carry_queries() {
    let client = client();
    let options = RequestOptions { headers: Vec::new(), query: pairs(&[("k", "v&w")]) };
    assert_eq!(
        stream_url(client.config(), "/orders", &options).unwrap(),
        "http://h:1/v1/stream/orders?tenant=t+1&k=v%26w"
    );
}

#[test]
fn create_requests_carry_their_headers() {
    let client = client();
    let raw = client
        .stream(s("/o"))
        .create()
        .content_type(s("a/b"))
        .ttl_seconds(7)
        .expires_at(s("t"))
        .closed(true)
        .into_raw();
    let request = create_request(client.config(), &client.default_headers, "/o", &raw).unwrap();
    assert_eq!(request.method, Method::Put);
    assert_eq!(request.general_headers, pairs(&[("x-default", "d")]));
    assert_eq!(
        request.headers,
        pairs(&[
            ("content-type", "a/b"),
            ("stream-ttl", "7"),
            ("stream-expires-at", "t"),
            ("stream-closed", "true"),
        ])
    );
    assert_eq!(request.body, None);
}

#[test]
fn append_requests_carry_the_producer() {
    let client = client();
    let producer = IdempotentProducer::new(
        s("/o"),
        s("text/plain"),
        no_options(),
        IdempotentProducerConfig { producer_id: s("p"), epoch: 2, ..Default::default() },
    )
    .unwrap();
    let raw = producer.append(b"x".to_vec());
    let request = append_request(
        client.config(),
        &client.default_headers,
        "/o",
        &raw.options,
        raw.content_type.as_deref(),
        Some("9"),
        raw.producer.as_ref(),
        &raw.body,
    )
    .unwrap();
    assert_eq!(request.method, Method::Post);
    assert_eq!(
        request.headers,
        pairs(&[
            ("content-type", "text/plain"),
            ("stream-seq", "9"),
            ("producer-id", "p"),
            ("producer-epoch", "2"),
            ("producer-seq", "0"),
        ])
    );
    assert_eq!(request.body, Some(b"x".to_vec()));
}

#[test]
fn the_server_reads_the_producer_of_an_append() {
    let client = client();
    let producer = IdempotentProducer::new(
        s("/o"),
        s("text/plain"),
        no_options(),
        IdempotentProducerConfig { producer_id: s("p"), epoch: 41, ..Default::default() },
    )
    .unwrap();
    let raw = producer.append(b"x".to_vec());
    let request = append_request(
        client.config(),
        &client.default_headers,
        "/o",
        &raw.options,
        raw.content_type.as_deref(),
        None,
        raw.producer.as_ref(),
        &raw.body,
    )
    .unwrap();
    let value = |name: &str| {
        request.headers.iter().find(|(n, _)| n == name).map(|(_, v)| v.clone())
    };
    let read = check_producer_values(
        value("producer-id"),
        value("producer-epoch"),
        value("producer-seq"),
    )
    .unwrap()
    .expect("a producer");
    assert_eq!(read.id, "p");
    assert_eq!(read.epoch, 41);
    assert_eq!(read.seq, 0);
}

#[test]
fn the_server_reads_what_a_creation_asks_for() {
    let client = client();
    let raw = client
        .stream(s("/o"))
        .create()
        .content_type(s("text/plain"))
        .ttl_seconds(3600)
        .closed(true)
        .into_raw();
    let request = create_request(client.config(), &client.default_headers, "/o", &raw).unwrap();
    let mut headers = HeaderMap::new();
    for (name, value) in &request.headers {
        headers.insert(
            HeaderName::try_from(name.as_str()).unwrap(),
            HeaderValue::from_str(value).unwrap(),
        );
    }
    let read = read_create_headers(&headers, "/v1/stream").unwrap();
    assert_eq!(read.content_type, "text/plain");
    assert_eq!(read.expiration, Expiration::After(3600));
    assert!(read.created_closed);
    assert!(read.fork.is_none());
}

#[test]
fn read_requests_carry_offset_mode_and_etag() {
    let client = Client::builder().base_url("http://h/").build().unwrap();
    let mut read = ReadRequest::default();
    read.if_none_match = Some(s("\"e\""));
    let request =
        read_request(client.config(), &client.default_headers, "o", &read, None).unwrap();
    assert_eq!(request.method, Method::Get);
    assert!(!request.url.contains("offset="));
    assert_eq!(request.headers, pairs(&[("if-none-match", "\"e\"")]));
    read.cursor = Some(s("7"));
    let request =
        read_request(client.config(), &client.default_headers, "o", &read, Some("long-poll"))
            .unwrap();
    assert_eq!(request.url, "http://h/o?offset=-1&live=long-poll&cursor=7");
    let request = sse_request(client.config(), &client.default_headers, "o", &read).unwrap();
    assert_eq!(request.url, "http://h/o?offset=-1&live=sse&cursor=7");
    assert!(request.headers.is_empty());
}

#[test]
fn requests_without_a_body_carry_nothing_of_their_own() {
    let client = client();
    let request = bare_request(
        client.config(),
        &client.default_headers,
        Method::Delete,
        "/o",
        &no_options(),
    )
    .unwrap();
    assert_eq!(request.method, Method::Delete);
    assert!(request.headers.is_empty());
    assert_eq!(request.body, None);
}

// ── Replies ────────────────────────────────────────────────────────

#[test]
fn replies_are_read_by_status() {
    let headers = header_map(&[
        ("stream-next-offset", "5"),
        ("stream-closed", "true"),
        ("producer-epoch", "1"),
        ("producer-seq", "x"),
    ]);
    let created = create_reply(201, &headers, String::new()).unwrap();
    assert_eq!((created.status, created.next_offset.as_deref()), (201, Some("5")));
    assert!(created.stream_closed);
    let appended = append_reply(204, &headers, String::new()).unwrap();
    assert_eq!((appended.producer_epoch, appended.producer_seq), (Some(1), None));
    assert_eq!(close_reply(200, &headers, String::new()).unwrap().final_offset, "5");
    assert!(matches!(close_reply(200, &HeaderMap::new(), String::new()), Err(Error::Parse(_))));
    assert_eq!(delete_reply(204, &headers, String::new()).unwrap().status, 204);
    assert!(delete_reply(201, &headers, String::new()).is_err());
    assert!(is_success(299));
    assert!(!is_success(304));
}

#[test]
fn head_replies_become_stream_info() {
    let headers = header_map(&[
        ("stream-next-offset", "5"),
        ("content-type", "text/plain"),
        ("stream-ttl", "60"),
        ("etag", "\"e\""),
    ]);
    let head = head_reply(200, &headers, String::new()).unwrap();
    assert_eq!(head.ttl_seconds, Some(60));
    assert_eq!(head.etag.as_deref(), Some("\"e\""));
    let info = StreamInfo::from(head);
    assert_eq!(info.content_type.as_deref(), Some("text/plain"));
}

#[test]
fn error_replies_keep_protocol_details() {
    let headers = header_map(&[
        ("stream-next-offset", "5"),
        ("producer-expected-seq", "3"),
        ("producer-received-seq", "4"),
        ("x-other", "z"),
    ]);
    let error = append_reply(409, &headers, s("gap")).unwrap_err();
    match error {
        Error::Http(http) => {
            assert_eq!(http.kind, ErrorKind::Conflict);
            assert_eq!(http.message, "gap");
            assert_eq!(http.next_offset.as_deref(), Some("5"));
            assert_eq!(http.producer_expected_seq, Some(3));
            assert_eq!(http.producer_received_seq, Some(4));
            assert!(http.headers.iter().all(|(name, _)| name != "x-other"));
        }
        _ => panic!("an error reply is an HTTP error"),
    }
}

#[test]
fn error_kinds_follow_status_and_message() {
    let kind = |status: u16, headers: Vec<(String, String)>, body: &str| {
        build_http_error_from_parts(status, headers, s(body)).kind
    };
    assert_eq!(kind(404, Vec::new(), ""), ErrorKind::NotFound);
    assert_eq!(kind(403, Vec::new(), ""), ErrorKind::Forbidden);
    assert_eq!(kind(429, Vec::new(), ""), ErrorKind::RateLimited);
    assert_eq!(kind(400, Vec::new(), "Bad OFFSET"), ErrorKind::InvalidOffset);
    assert_eq!(kind(409, Vec::new(), ""), ErrorKind::Conflict);
    assert_eq!(kind(409, pairs(&[("stream-closed", "TRUE")]), ""), ErrorKind::StreamClosed);
    assert_eq!(kind(500, Vec::new(), ""), ErrorKind::UnexpectedStatus);
    let error = build_http_error_from_parts(404, Vec::new(), String::new());
    assert_eq!(error.message, "Not Found");
    assert_eq!(build_http_error_from_parts(599, Vec::new(), String::new()).message, "request failed");
}

#[test]
fn catch_up_reads_bodies_by_type() {
    let json = header_map(&[("content-type", "application/json"), ("stream-next-offset", "2")]);
    let read = collect_catch_up(200, &json, b"[{\"a\":1}, 2]".to_vec()).unwrap();
    assert!(read.up_to_date);
    assert_eq!(read.chunks.len(), 1);
    assert_eq!(
        read.payload,
        Some(ReadPayload::Json(vec![s("{\"a\":1}"), s("2")]))
    );
    let empty = collect_catch_up(200, &json, b"[]".to_vec()).unwrap();
    assert!(empty.chunks.is_empty());
    assert!(matches!(collect_catch_up(200, &json, b"{".to_vec()), Err(Error::Json(_))));
    let bytes = header_map(&[("stream-next-offset", "2")]);
    let read = collect_catch_up(206, &bytes, vec![1, 2]).unwrap();
    assert!(!read.up_to_date);
    assert_eq!(read.payload, Some(ReadPayload::Bytes(vec![1, 2])));
    for (said, up_to_date) in [("false", false), ("true", true)] {
        let headers = header_map(&[
            ("content-type", "application/json"),
            ("stream-next-offset", "2"),
            ("stream-up-to-date", said),
        ]);
        let read = collect_catch_up(200, &headers, b"[{\"id\":1}]".to_vec()).unwrap();
        assert_eq!(read.up_to_date, up_to_date);
    }
    assert!(matches!(
        collect_catch_up(200, &HeaderMap::new(), Vec::new()),
        Err(Error::Parse(_))
    ));
}

// ── Events ─────────────────────────────────────────────────────────

#[test]
fn parses_multiline_sse_event() {
    let mut parser = SseParser::new();
    let events = parser
        .push(
            b"event: data\ndata: [\ndata: {\"k\":1}\ndata: ]\n\nevent: control\ndata: {\"streamNextOffset\":\"1\",\"upToDate\":true}\n\n",
        )
        .expect("parser works");
    assert_eq!(events.len(), 2);
    assert_eq!(events[0].kind.as_deref(), Some("data"));
    assert_eq!(events[1].kind.as_deref(), Some("control"));
}

#[test]
fn events_may_come_in_pieces() {
    let whole = b"event: data\ndata:a\r\ndata:b\n\n: note\n\nevent: control\ndata:{}\n\n";
    let mut parser = SseParser::new();
    let all = parser.push(whole).unwrap();
    for cut in 0..whole.len() {
        let mut parser = SseParser::new();
        let mut got = parser.push(&whole[..cut]).unwrap();
        got.extend(parser.push(&whole[cut..]).unwrap());
        assert_eq!(got.len(), all.len());
        for (a, b) in got.iter().zip(all.iter()) {
            assert_eq!((&a.kind, &a.data), (&b.kind, &b.data));
        }
    }
    assert_eq!(all[0].data, "a\nb");
}

#[test]
fn invalid_text_in_events_fails() {
    let mut parser = SseParser::new();
    assert!(parser.push(&[b'd', b'a', b't', b'a', b':', 0xff, b'\n', b'\n']).is_err());
}

fn event(kind: &str, data: &str) -> ParsedEvent {
    ParsedEvent { kind: Some(s(kind)), data: s(data) }
}

fn control(next: &str, up_to_date: bool, closed: bool) -> Result<ControlEvent, String> {
    Ok(ControlEvent {
        stream_next_offset: s(next),
        stream_cursor: None,
        up_to_date,
        stream_closed: closed,
    })
}

#[test]
fn events_are_collected_until_done() {
    let mut collector = SseCollector::new(&HeaderMap::new(), None, true);
    let events = vec![event("data", "one"), event("control", ""), event("data", "two")];
    let controls = vec![control("", false, false), control("3", true, false), control("", false, false)];
    collector.on_events(&events, &controls).unwrap();
    assert!(collector.is_done());
    let read = collector.finish(Some(s("text/plain")), None).unwrap();
    assert_eq!(read.next_offset, "3");
    assert_eq!(read.chunks[0].data, b"one".to_vec());
}

#[test]
fn encoded_events_are_decoded() {
    let headers = header_map(&[("stream-sse-data-encoding", "BASE64")]);
    let mut collector = SseCollector::new(&headers, Some(1), false);
    collector.on_event(&event("data", "AQI\nD"), &control("", false, false)).unwrap();
    assert_eq!(collector.chunks[0].data, vec![1, 2, 3]);
    let mut collector = SseCollector::new(&headers, None, false);
    assert!(matches!(
        collector.on_event(&event("data", "!"), &control("", false, false)),
        Err(Error::Base64(_))
    ));
}

#[test]
fn a_collection_without_control_events_fails() {
    let collector = SseCollector::new(&HeaderMap::new(), None, false);
    assert!(collector.finish(None, None).is_err());
}

// ── Reads of several requests ──────────────────────────────────────

fn response(chunks: usize, next: &str, closed: bool) -> ReadResponse {
    ReadResponse {
        status: 200,
        next_offset: s(next),
        up_to_date: false,
        stream_closed: closed,
        cursor: None,
        content_type: None,
        etag: None,
        chunks: (0..chunks)
            .map(|i| ReadChunk { data: vec![i as u8], next_offset: s(next) })
            .collect(),
        payload: None,
    }
}

#[test]
fn long_polls_go_on_until_there_is_enough() {
    let mut request = ReadRequest::default();
    request.max_chunks = Some(2);
    request.timeout = Some(Span { seconds: 10, nanos: 0 });
    let mut poll = LongPoll::new(&request);
    assert!(poll.before_request(Span { seconds: 4, nanos: 0 }).is_none());
    assert_eq!(poll.request.timeout, Some(Span { seconds: 6, nanos: 0 }));
    assert!(poll.on_response(response(1, "1", false)).is_none());
    assert_eq!(poll.request.offset.as_deref(), Some("1"));
    let read = poll.on_response(response(1, "2", false)).unwrap();
    assert_eq!((read.chunks.len(), read.next_offset.as_str()), (2, "2"));
}

#[test]
fn long_polls_end_when_time_is_up() {
    let mut request = ReadRequest::default();
    request.timeout = Some(Span { seconds: 1, nanos: 0 });
    let mut poll = LongPoll::new(&request);
    let read = poll.before_request(Span { seconds: 1, nanos: 0 }).unwrap();
    assert_eq!((read.status, read.next_offset.as_str()), (200, "-1"));
    let mut live = ReadRequest::default();
    live.live = LiveMode::LongPoll;
    assert_eq!(read_timed_out(&live).unwrap().status, 204);
    assert!(matches!(read_timed_out(&ReadRequest::default()), Err(Error::Parse(_))));
}

#[test]
fn automatic_reads_poll_only_where_nothing_was_found() {
    let mut request = ReadRequest::default();
    request.live = LiveMode::Auto;
    assert_eq!(auto_first(&request).live, LiveMode::CatchUp);
    assert!(auto_second(&request, &response(1, "1", false)).is_none());
    assert!(auto_second(&request, &response(0, "1", true)).is_none());
    let second = auto_second(&request, &response(0, "1", false)).unwrap();
    assert_eq!((second.live, second.offset.as_deref()), (LiveMode::LongPoll, Some("1")));
    assert_eq!(auto_result(response(0, "1", false), response(0, "2", false)).next_offset, "1");
    assert_eq!(auto_result(response(0, "1", false), response(1, "2", false)).next_offset, "2");
}

#[test]
fn subscriptions_follow_open_streams() {
    let step = subscription_step(ReadRequest::default(), &response(2, "5", false));
    assert_eq!(step.event.chunk.unwrap().data, vec![1]);
    let next = step.next.unwrap();
    assert_eq!((next.live, next.offset.as_deref()), (LiveMode::LongPoll, Some("5")));
    assert!(subscription_step(ReadRequest::default(), &response(0, "5", true)).next.is_none());
}

// ── Retries ────────────────────────────────────────────────────────

fn millis(n: u64) -> Span {
    Span::from_millis(n)
}

fn multiplied(span: Span, factor: f64) -> Span {
    let grown = std::time::Duration::new(span.seconds, span.nanos).mul_f64(factor);
    Span { seconds: grown.as_secs(), nanos: grown.subsec_nanos() }
}

#[test]
fn caps_backoff_at_maximum() {
    let current = millis(100);
    let next = next_delay(multiplied(current, 2.0), millis(150));
    assert_eq!(next, millis(150));
}

fn options(max_retries: u32) -> RetryOptions {
    RetryOptions {
        max_retries,
        initial_backoff: millis(100),
        max_backoff: millis(150),
        backoff_multiplier: Multiplier { bits: 2.0f64.to_bits(), below_one: false },
    }
}

fn failed(connect: bool) -> Error {
    Error::Transport(TransportFailure { message: s("x"), timeout: false, connect })
}

#[test]
fn retries_stop_after_the_last_attempt() {
    let mut policy = RetryPolicy::new(options(2));
    assert_eq!(policy.on_failure(&failed(true)), RetryStep::RetryAfter(millis(100)));
    policy.grow_delay(multiplied(policy.delay, 2.0));
    assert_eq!(policy.on_failure(&failed(true)), RetryStep::RetryAfter(millis(150)));
    assert_eq!(policy.on_failure(&failed(true)), RetryStep::GiveUp);
    let mut policy = RetryPolicy::new(options(2));
    assert_eq!(policy.on_failure(&Error::Parse(s("x"))), RetryStep::GiveUp);
}

#[test]
fn delays_stay_below_the_maximum() {
    let mut policy = RetryPolicy::new(options(50));
    let mut retries = 0;
    while let RetryStep::RetryAfter(delay) = policy.on_failure(&failed(true)) {
        assert!(!millis(150).less_than(&delay));
        policy.grow_delay(multiplied(delay, 2.0));
        retries += 1;
    }
    assert_eq!(retries, 50);
}

#[test]
fn retry_options_are_checked() {
    assert!(RetryPolicy::validate(options(0)).is_ok());
    let mut bad = options(0);
    bad.initial_backoff = millis(0);
    assert!(RetryPolicy::validate(bad).is_err());
    let mut bad = options(0);
    bad.max_backoff = millis(99);
    assert!(RetryPolicy::validate(bad).is_err());
    let mut bad = options(0);
    bad.backoff_multiplier = Multiplier { bits: 0.5f64.to_bits(), below_one: true };
    assert!(RetryPolicy::validate(bad).is_err());
}

// ── Producers ──────────────────────────────────────────────────────

#[test]
fn rejects_zero_max_batch_bytes() {
    let config = IdempotentProducerConfig {
        producer_id: "producer".to_string(),
        epoch: 0,
        auto_claim: false,
        max_batch_bytes: 0,
        max_batch_items: None,
    };

    assert!(config.validate().is_err());
}

fn http(status: u16, producer_epoch: Option<i64>) -> Error {
    let mut error: HttpError = build_http_error_from_parts(status, Vec::new(), s("x"));
    error.producer_epoch = producer_epoch;
    error.next_offset = Some(s("9"));
    Error::Http(Box::new(error))
}

fn producer(auto_claim: bool) -> IdempotentProducer {
    IdempotentProducer::new(
        s("/o"),
        s("application/json"),
        no_options(),
        IdempotentProducerConfig { producer_id: s("p"), auto_claim, ..Default::default() },
    )
    .unwrap()
}

fn appended(next: &str) -> AppendResponse {
    AppendResponse {
        status: 200,
        next_offset: Some(s(next)),
        stream_closed: false,
        producer_epoch: None,
        producer_seq: None,
    }
}

#[test]
fn sequences_advance_on_success_only() {
    let mut p = producer(false);
    assert!(matches!(p.on_append_reply(false, Ok(appended("1"))), Attempt::Finish(Ok(_))));
    assert_eq!((p.state.epoch, p.state.next_seq), (0, 1));
    assert!(matches!(p.on_append_reply(false, Err(http(500, None))), Attempt::Finish(Err(_))));
    assert_eq!((p.state.epoch, p.state.next_seq), (0, 1));
    assert_eq!(p.progress().acked_server_offset.as_deref(), Some("1"));
}

#[test]
fn fenced_producers_claim_the_next_epoch_once() {
    let mut p = producer(true);
    assert!(matches!(p.on_append_reply(false, Ok(appended("1"))), Attempt::Finish(Ok(_))));
    assert!(matches!(p.on_append_reply(false, Err(http(403, Some(4)))), Attempt::Retry));
    assert_eq!((p.state.epoch, p.state.next_seq), (5, 0));
    assert!(matches!(p.on_append_reply(true, Err(http(403, Some(9)))), Attempt::Finish(Err(_))));
    assert_eq!(p.state.epoch, 5);
    let mut p = producer(false);
    assert!(matches!(p.on_append_reply(false, Err(http(403, Some(4)))), Attempt::Finish(Err(_))));
}

#[test]
fn closing_twice_is_no_error() {
    let mut p = producer(false);
    let closed = CloseStreamResponse { status: 200, final_offset: s("7"), stream_closed: true };
    assert!(matches!(p.on_close_reply(false, Ok(closed)), Attempt::Finish(Ok(_))));
    assert!(p.state.closed);
    match p.on_close_reply(false, Err(http(409, None))) {
        Attempt::Finish(Ok(response)) => {
            assert_eq!((response.status, response.final_offset.as_str()), (200, "9"));
        }
        _ => panic!("a closed stream can be closed again"),
    }
    assert!(matches!(p.on_close_reply(false, Err(http(404, None))), Attempt::Finish(Err(_))));
}

#[test]
fn json_batches_become_one_array() {
    let p = producer(false);
    let request = p.append_batch(&vec![b"{\"a\": 1}".to_vec(), b"[2]".to_vec()]).unwrap();
    assert_eq!(request.body, b"[{\"a\":1},[2]]".to_vec());
    assert!(matches!(p.append_batch(&vec![b"{".to_vec()]), Err(Error::Json(_))));
    let request = p.append_json_values(&vec![s("1"), s("\"x\"")]).unwrap();
    assert_eq!(request.body, b"[1,\"x\"]".to_vec());
    assert_eq!(combine_bodies("text/plain", &vec![vec![1], vec![2, 3]]).unwrap(), vec![1, 2, 3]);
    let mut text = producer(false);
    text.content_type = s("text/plain");
    assert!(matches!(text.append_json_values(&Vec::new()), Err(Error::InvalidArgument(_))));
}

#[test]
fn producer_configurations_are_checked() {
    let ok = IdempotentProducerConfig { producer_id: s("p"), ..Default::default() };
    assert!(ok.validate().is_ok());
    assert!(IdempotentProducerConfig { producer_id: s(" "), ..ok.clone() }.validate().is_err());
    assert!(IdempotentProducerConfig { epoch: -1, ..ok.clone() }.validate().is_err());
    assert!(
        IdempotentProducerConfig { max_batch_items: Some(0), ..ok.clone() }.validate().is_err()
    );
}

// ── Configuration ──────────────────────────────────────────────────

#[test]
fn env_override_wins() {
    let loader = ClientConfigLoader::default();
    let config = resolve(
        FileConfig::default(),
        &loader.env_prefix,
        &pairs(&[
            ("DURABLE_STREAMS_CLIENT__CLIENT__BASE_URL", "http://example.test"),
            ("DURABLE_STREAMS_CLIENT__AUTH__TYPE", "bearer"),
            ("DURABLE_STREAMS_CLIENT__AUTH__BEARER_TOKEN", "secret"),
        ]),
        None,
    )
    .expect("config loads");

    assert_eq!(config.base_url.as_str(), "http://example.test/");
    assert!(matches!(config.auth, AuthConfig::Bearer { .. }));
}

#[test]
fn loader_looks_for_files_in_order() {
    let mut loader = ClientConfigLoader::default();
    assert_eq!(loader.config_dir, "config");
    loader.profile = s(" dev ");
    assert_eq!(loader.file_names(), vec!["default.toml", "dev.toml", "local.toml"]);
}

#[test]
fn later_files_win() {
    let mut first = FileConfig::default();
    first.client.base_url = Some(s("http://a/"));
    first.transport.user_agent = Some(s("one"));
    let mut second = FileConfig::default();
    second.client.base_url = Some(s("http://b/"));
    let config = resolve(merge_layers(vec![first, second]), "P__", &Vec::new(), None).unwrap();
    assert_eq!(config.base_url, "http://b/");
    assert_eq!(config.transport.user_agent, "one");
}

#[test]
fn bad_settings_are_reported() {
    let env = pairs(&[("P__RETRY__MAX_RETRIES", "many")]);
    assert!(matches!(
        resolve(FileConfig::default(), "P__", &env, None),
        Err(ClientConfigLoaderError::Config(_))
    ));
    let env = pairs(&[("P__CLIENT__BASE_URL", "no url")]);
    assert!(resolve(FileConfig::default(), "P__", &env, None).is_err());
    let env = pairs(&[("P__AUTH__TYPE", "magic")]);
    assert!(resolve(FileConfig::default(), "P__", &env, None).is_err());
    let env = pairs(&[("P__DEFAULTS__HEADERS_JSON", "[1]")]);
    assert!(resolve(FileConfig::default(), "P__", &env, None).is_err());
}

#[test]
fn header_maps_in_the_environment_are_json() {
    let env = pairs(&[("P__DEFAULTS__HEADERS_JSON", "{\"x-a\": \"1\"}")]);
    let config = resolve(FileConfig::default(), "P__", &env, None).unwrap();
    assert_eq!(config.defaults.headers, pairs(&[("x-a", "1")]));
}

#[test]
fn secrets_are_not_shown() {
    let auth = AuthConfig::Bearer { token: s("secret") };
    assert_eq!(auth.to_string(), "bearer");
    assert_eq!(auth_type(&auth), "bearer");
    let auth = AuthConfig::Header { name: s("x-key"), value: s("secret") };
    assert_eq!(auth.to_string(), "header(x-key)");
}

// ── Names in diagnostics ───────────────────────────────────────────

#[test]
fn kinds_and_modes_have_names() {
    assert_eq!(error_kind_name(ErrorKind::InvalidOffset), "invalid_offset");
    assert_eq!(error_kind_name(ErrorKind::RateLimited), "rate_limited");
    assert_eq!(live_mode_name(LiveMode::CatchUp), "catch_up");
    assert_eq!(live_mode_name(LiveMode::Sse), "sse");
}

#[test]
fn header_auth_names_its_header() {
    let client = Client::builder().header_auth(s("x-key"), s("k")).build().unwrap();
    assert_eq!(auth_type(&client.config().auth), "header");
    assert!(Client::builder().header_auth(s(""), s("k")).build().is_err());
}

// ── Batches over events ────────────────────────────────────────────

#[test]
fn a_json_batch_is_read_as_one_event() {
    let frames = format_data_frames(&vec![b"1".to_vec(), b"{\"a\":2}".to_vec()], false, true);
    let events = SseParser::new().push(frames.as_bytes()).unwrap();
    assert_eq!(events.len(), 1);
    assert_eq!(events[0].kind.as_deref(), Some("data"));
    assert_eq!(events[0].data, "[1,{\"a\":2}]");
}

// ── Layers ─────────────────────────────────────────────────────────

#[test]
fn merging_layers_does_not_depend_on_grouping() {
    let layer = |url: Option<&str>, headers: &[(&str, &str)]| {
        let mut file = FileConfig::default();
        file.client.base_url = url.map(s);
        file.defaults.headers = pairs(headers);
        file
    };
    let a = || layer(Some("http://a/"), &[("x", "1"), ("y", "1")]);
    let b = || layer(None, &[("y", "2"), ("z", "2")]);
    let c = || layer(Some("http://c/"), &[("z", "3")]);
    let left = a().merge(b()).merge(c());
    let right = a().merge(b().merge(c()));
    assert_eq!(left.client.base_url.as_deref(), Some("http://c/"));
    assert_eq!(right.client.base_url.as_deref(), Some("http://c/"));
    assert_eq!(left.defaults.headers, pairs(&[("x", "1"), ("y", "2"), ("z", "3")]));
    assert_eq!(right.defaults.headers, left.defaults.headers);
}

#[test]
fn base_urls_are_normalized() {
    let client = Client::builder().base_url("HTTP://Example.COM").build().unwrap();
    assert_eq!(client.config().base_url, "http://example.com/");
    assert!(Client::builder().base_url("no url").build().is_err());
}

#[test]
fn the_client_reads_what_the_server_answers() {
    for closed in [false, true] {
        let result = ReadResult {
            messages: vec![b"{\"a\":1}".to_vec(), b"2".to_vec()],
            next_offset: StreamOffset { token: s("2_10"), place: offset::Offset::new(2, 10) },
            at_tail: true,
            closed,
        };
        let answer = read_catch_up("-1", None, "application/json", &result);
        let mut headers = HeaderMap::new();
        for (name, value) in &answer.headers {
            let name = axum::http::HeaderName::try_from(name.as_str()).unwrap();
            headers.insert(name, HeaderValue::try_from(value.as_str()).unwrap());
        }
        let read = collect_catch_up(answer.status, &headers, answer.body.unwrap()).unwrap();
        assert_eq!(read.next_offset, "2_10");
        assert!(read.up_to_date);
        assert_eq!(read.stream_closed, closed);
        assert_eq!(read.content_type.as_deref(), Some("application/json"));
        let etag = if closed { "\"-1:2_10:c\"" } else { "\"-1:2_10\"" };
        assert_eq!(read.etag.as_deref(), Some(etag));
        match read.payload {
            Some(ReadPayload::Json(values)) => assert_eq!(values, vec![s("{\"a\":1}"), s("2")]),
            _ => panic!("a JSON stream is read as values"),
        }
    }
}
