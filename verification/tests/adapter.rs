//! The conformance adapter: commands, requests and results.

use durable_streams::client::adapter::{
    AdapterCall, AdapterOutput, AdapterState, AdapterStep, AppendParams, BatchItem, Command,
    CreateParams, LiveValue, ProducerChoice, ProducerParams, ReadParams, Sent, SuccessResult,
    escape_line_ends, finish_append, finish_close, finish_delete, finish_idempotent_append,
    finish_idempotent_append_batch, finish_idempotent_close, finish_read, is_shutdown,
};
use durable_streams::client::dynamic::{DynamicValue, next_dynamic_value};
use durable_streams::client::error::{Error, ErrorCode};
use durable_streams::client::model::{
    AppendResponse, CloseStreamResponse, ConnectResponse, CreateStreamResponse, DeleteResponse,
    HeadResponse, LiveMode, ReadChunk, ReadResponse,
};
use durable_streams::client::protocol::build_http_error_from_parts;
use durable_streams::client::reports::{
    ErrorResult, ValidateTarget, contextualize_message, error_to_output, read_error_output,
    validate_target,
};
use durable_streams::client::retry::Multiplier;
use durable_streams::time::Span;

fn s(text: &str) -> String {
    text.to_string()
}

fn pairs(list: &[(&str, &str)]) -> Vec<(String, String)> {
    list.iter().map(|(a, b)| (s(a), s(b))).collect()
}

fn ready() -> AdapterState {
    let mut state = AdapterState::default();
    let init = Command::Init { server_url: s("http://h:1/"), timeout_ms: Some(500) };
    match state.handle_command(init, 0) {
        AdapterStep::Start { client, timeout_ms } => {
            assert_eq!(client.config().base_url, "http://h:1/");
            state.finish_init(timeout_ms, s("1.0"));
        }
        other => panic!("a URL starts a client: {other:?}"),
    }
    state
}

fn success(output: AdapterOutput) -> SuccessResult {
    match output {
        AdapterOutput::Success(result) => result,
        AdapterOutput::Error(error) => panic!("unexpected error: {error:?}"),
    }
}

fn failure(output: AdapterOutput) -> ErrorResult {
    match output {
        AdapterOutput::Error(error) => error,
        AdapterOutput::Success(result) => panic!("unexpected success: {result:?}"),
    }
}

fn done(step: AdapterStep) -> AdapterOutput {
    match step {
        AdapterStep::Done(output) => output,
        other => panic!("unexpected step: {other:?}"),
    }
}

fn call(step: AdapterStep) -> AdapterCall {
    match step {
        AdapterStep::Call(call) => call,
        other => panic!("unexpected step: {other:?}"),
    }
}

fn append(path: &str, data: &str) -> AppendParams {
    AppendParams {
        path: s(path),
        data: s(data),
        binary: None,
        seq: None,
        headers: None,
        producer_id: None,
        producer_epoch: None,
        producer_seq: None,
    }
}

fn read(path: &str) -> ReadParams {
    ReadParams {
        path: s(path),
        offset: None,
        live: None,
        timeout_ms: None,
        max_chunks: None,
        wait_for_up_to_date: None,
        headers: None,
    }
}

fn producer(path: &str, id: &str) -> ProducerParams {
    ProducerParams {
        path: s(path),
        producer_id: s(id),
        epoch: Some(3),
        auto_claim: Some(true),
        headers: None,
    }
}

#[test]
fn init_reports_the_client() {
    let mut state = AdapterState::default();
    let result = success(state.finish_init(None, s("1.2")));
    assert_eq!(result.result_type, "init");
    assert_eq!(result.client_name.as_deref(), Some("durable-streams-client-rust"));
    assert_eq!(result.client_version.as_deref(), Some("1.2"));
    let features = result.features.unwrap();
    assert!(features.sse && features.long_poll && !features.batching);
    assert_eq!(state.timeout_ms, 30_000);
    let bad = Command::Init { server_url: s("no url"), timeout_ms: None };
    let error = failure(done(state.handle_command(bad, 0)));
    assert_eq!((error.command_type, error.error_code), ("init", ErrorCode::InvalidArgument));
}

#[test]
fn commands_need_a_client() {
    let mut state = AdapterState::default();
    let commands = vec![
        Command::Connect { path: s("/o"), headers: None },
        Command::Append(append("/o", "x")),
        Command::Read(read("/o")),
        Command::Head { path: s("/o"), headers: None },
        Command::Delete { path: s("/o"), headers: None },
        Command::Close { path: s("/o"), data: None, content_type: None },
        Command::IdempotentAppend { producer: producer("/o", "p"), data: s("x") },
        Command::IdempotentClose { producer: producer("/o", "p"), data: None },
        Command::IdempotentAppendBatch { producer: producer("/o", "p"), items: Vec::new() },
    ];
    for command in commands {
        let error = failure(done(state.handle_command(command, 0)));
        assert_eq!(error.error_code, ErrorCode::InternalError);
        assert_eq!(error.message, "client adapter not initialized");
    }
    assert!(state.producers.is_empty());
}

#[test]
fn created_streams_are_remembered() {
    let mut state = ready();
    let params = CreateParams {
        path: s("/o"),
        content_type: Some(s("text/plain")),
        ttl_seconds: Some(5),
        expires_at: None,
        headers: Some(pairs(&[("a", "1")])),
        closed: None,
        data: Some(s("hi")),
    };
    match call(state.handle_command(Command::Create(params), 0)) {
        AdapterCall::Create { path, request } => {
            assert_eq!(request.content_type, "text/plain");
            assert_eq!(request.body, Some(b"hi".to_vec()));
            assert!(!request.closed);
            assert_eq!(request.options.headers, pairs(&[("a", "1")]));
            let reply =
                CreateStreamResponse { status: 201, next_offset: Some(s("2")), stream_closed: false };
            let result = success(state.finish_create(path, request.content_type, Ok(reply)));
            assert_eq!((result.status, result.offset.as_deref()), (Some(201), Some("2")));
        }
        other => panic!("unexpected call: {other:?}"),
    }
    match call(state.handle_command(Command::Append(append("/o", "x")), 0)) {
        AdapterCall::Append { request, .. } => {
            assert_eq!(request.content_type.as_deref(), Some("text/plain"));
        }
        other => panic!("unexpected call: {other:?}"),
    }
    match call(state.handle_command(Command::Append(append("/other", "x")), 0)) {
        AdapterCall::Append { request, .. } => {
            assert_eq!(request.content_type.as_deref(), Some("application/octet-stream"));
        }
        other => panic!("unexpected call: {other:?}"),
    }
}

#[test]
fn heads_and_connects_remember_types() {
    let mut state = ready();
    let head = HeadResponse {
        status: 200,
        offset: Some(s("1")),
        content_type: Some(s("a/b")),
        ttl_seconds: None,
        expires_at: None,
        stream_closed: true,
        etag: None,
    };
    let result = success(state.finish_head(s("/h"), Ok(head)));
    assert_eq!(result.content_type.as_deref(), Some("a/b"));
    assert_eq!(result.stream_closed, Some(true));
    let connect = ConnectResponse {
        status: 200,
        offset: None,
        content_type: Some(s("c/d")),
        stream_closed: false,
    };
    success(state.finish_connect(s("/c"), Ok(connect)));
    assert_eq!(state.content_types, pairs(&[("/h", "a/b"), ("/c", "c/d")]));
    let close = Command::Close { path: s("/c"), data: None, content_type: None };
    match call(state.handle_command(close, 0)) {
        AdapterCall::Close { request, .. } => {
            assert_eq!(request.content_type.as_deref(), Some("c/d"));
        }
        other => panic!("unexpected call: {other:?}"),
    }
}

#[test]
fn binary_appends_are_decoded() {
    let mut state = ready();
    let mut params = append("/o", "AQID");
    params.binary = Some(true);
    params.seq = Some(-4);
    params.producer_id = Some(s("p"));
    params.producer_epoch = Some(2);
    match call(state.handle_command(Command::Append(params), 0)) {
        AdapterCall::Append { request, .. } => {
            assert_eq!(request.body, vec![1, 2, 3]);
            assert_eq!(request.stream_seq.as_deref(), Some("-4"));
            let producer = request.producer.unwrap();
            assert_eq!((producer.producer_epoch, producer.producer_seq), (2, 0));
        }
        other => panic!("unexpected call: {other:?}"),
    }
    let mut params = append("/o", "!");
    params.binary = Some(true);
    let error = failure(done(state.handle_command(Command::Append(params), 0)));
    assert_eq!(error.error_code, ErrorCode::ParseError);
}

#[test]
fn dynamic_values_go_on_and_given_headers_win() {
    let mut state = ready();
    let set = Command::SetDynamicHeader {
        name: s("x-count"),
        value_type: s("counter"),
        initial_value: None,
    };
    assert_eq!(success(done(state.handle_command(set, 0))).result_type, "set-dynamic-header");
    let set = Command::SetDynamicHeader {
        name: s("x-token"),
        value_type: s("token"),
        initial_value: Some(s("t")),
    };
    state.handle_command(set, 0);
    let set = Command::SetDynamicParam { name: s("at"), value_type: s("timestamp") };
    state.handle_command(set, 0);
    for count in ["1", "2"] {
        let mut params = append("/o", "x");
        params.headers = Some(pairs(&[("x-token", "mine")]));
        match call(state.handle_command(Command::Append(params), 77)) {
            AdapterCall::Append { request, sent, .. } => {
                assert_eq!(sent.headers, pairs(&[("x-count", count), ("x-token", "t")]));
                assert_eq!(sent.params, pairs(&[("at", "77")]));
                assert_eq!(
                    request.options.headers,
                    pairs(&[("x-token", "mine"), ("x-count", count)])
                );
            }
            other => panic!("unexpected call: {other:?}"),
        }
    }
    state.handle_command(Command::ClearDynamic, 0);
    match call(state.handle_command(Command::Append(append("/o", "x")), 0)) {
        AdapterCall::Append { sent, .. } => assert!(sent.headers.is_empty() && sent.params.is_empty()),
        other => panic!("unexpected call: {other:?}"),
    }
    let unknown = DynamicValue { kind: s("other"), counter: 0, token: None };
    assert_eq!(next_dynamic_value(unknown, 5).1, "");
}

#[test]
fn reads_take_their_mode_and_time() {
    let modes = vec![
        (None, LiveMode::CatchUp),
        (Some(LiveValue::Flag(true)), LiveMode::Auto),
        (Some(LiveValue::Flag(false)), LiveMode::CatchUp),
        (Some(LiveValue::Text(s("long-poll"))), LiveMode::LongPoll),
        (Some(LiveValue::Text(s("sse"))), LiveMode::Sse),
        (Some(LiveValue::Text(s("x"))), LiveMode::CatchUp),
        (Some(LiveValue::Other), LiveMode::CatchUp),
    ];
    let mut state = ready();
    for (live, expected) in modes {
        let mut params = read("/o");
        params.live = live;
        match call(state.handle_command(Command::Read(params), 0)) {
            AdapterCall::Read { request, .. } => {
                assert_eq!(request.live, expected);
                assert_eq!(request.timeout, Some(Span { seconds: 0, nanos: 500_000_000 }));
            }
            other => panic!("unexpected call: {other:?}"),
        }
    }
}

#[test]
fn read_results_show_text_and_offsets() {
    let reply = ReadResponse {
        status: 200,
        next_offset: s("2"),
        up_to_date: true,
        stream_closed: false,
        cursor: None,
        content_type: None,
        etag: None,
        chunks: vec![ReadChunk { data: vec![b'a', 0xff], next_offset: s("2") }],
        payload: None,
    };
    let sent = Sent { headers: pairs(&[("h", "1")]), params: Vec::new() };
    let result = success(finish_read("/o", LiveMode::CatchUp, None, sent, Ok(reply)));
    let chunks = result.chunks.unwrap();
    assert_eq!(chunks[0].data, "a\u{fffd}");
    assert_eq!(chunks[0].offset.as_deref(), Some("2"));
    assert_eq!(result.headers_sent, Some(pairs(&[("h", "1")])));
    assert_eq!(result.params_sent, None);
}

#[test]
fn producers_are_made_once_and_given_up() {
    let mut state = ready();
    let first = Command::IdempotentAppend { producer: producer("/o", "p"), data: s("x") };
    match call(state.handle_command(first, 0)) {
        AdapterCall::ProducerAppend { producer: ProducerChoice::New { key, setup }, data, .. } => {
            assert_eq!(key, "/o|p|3");
            assert_eq!(setup.config.epoch, 3);
            assert!(setup.config.auto_claim);
            assert_eq!(setup.config.max_batch_bytes, 1024 * 1024);
            assert_eq!(data, b"x".to_vec());
        }
        other => panic!("unexpected call: {other:?}"),
    }
    let second = Command::IdempotentClose { producer: producer("/o", "p"), data: None };
    assert!(matches!(
        call(state.handle_command(second, 0)),
        AdapterCall::ProducerClose { producer: ProducerChoice::Known { .. }, data: None, .. }
    ));
    let detach =
        Command::IdempotentDetach { path: s("/o"), producer_id: s("p"), epoch: Some(3) };
    assert_eq!(success(done(state.handle_command(detach, 0))).status, Some(200));
    assert!(state.producers.is_empty());
    let bad = Command::IdempotentAppend { producer: producer("/o", " "), data: s("x") };
    let error = failure(done(state.handle_command(bad, 0)));
    assert_eq!(error.message, "producerId must not be empty [/o]");
    assert!(state.producers.is_empty());
}

#[test]
fn batches_have_a_producer_of_their_own() {
    let mut state = ready();
    let batch = Command::IdempotentAppendBatch {
        producer: producer("/o", "p"),
        items: vec![BatchItem::Value(s("1")), BatchItem::Wrapped { data: s("2") }],
    };
    match call(state.handle_command(batch, 0)) {
        AdapterCall::ProducerAppendBatch { items, .. } => {
            assert_eq!(items, vec![b"1".to_vec(), b"2".to_vec()]);
        }
        other => panic!("unexpected call: {other:?}"),
    }
    assert!(state.producers.is_empty());
}

fn http(status: u16, message: &str) -> Error {
    Error::Http(Box::new(build_http_error_from_parts(status, Vec::new(), s(message))))
}

#[test]
fn errors_are_reported_by_code() {
    let code = |error: Error| error_to_output("append", Some("/o"), &error).error_code;
    assert_eq!(code(http(404, "gone")), ErrorCode::NotFound);
    assert_eq!(code(http(409, "bad Sequence")), ErrorCode::SequenceConflict);
    assert_eq!(code(http(409, "is Closed")), ErrorCode::StreamClosed);
    assert_eq!(code(http(409, "no")), ErrorCode::Conflict);
    assert_eq!(code(http(400, "offset")), ErrorCode::InvalidOffset);
    assert_eq!(code(http(500, "x")), ErrorCode::UnexpectedStatus);
    assert_eq!(code(Error::Parse(s("x"))), ErrorCode::ParseError);
    assert_eq!(code(Error::InvalidArgument(s("x"))), ErrorCode::InvalidArgument);
    let report = error_to_output("append", Some("/o"), &http(409, "no"));
    assert_eq!((report.status, report.message.as_str()), (Some(409), "no [/o]"));
    assert_eq!(report.error_code.as_str(), "CONFLICT");
    assert_eq!(contextualize_message(s("at /o"), Some("/o")), "at /o");
}

#[test]
fn refused_tails_of_events_are_parse_errors() {
    let report = read_error_output("/o", LiveMode::Sse, Some("now"), &http(400, "offset"));
    assert_eq!(report.error_code, ErrorCode::ParseError);
    let report = read_error_output("/o", LiveMode::Sse, Some("5"), &http(400, "offset"));
    assert_eq!(report.error_code, ErrorCode::InvalidOffset);
    let report = read_error_output("/o", LiveMode::LongPoll, None, &http(400, "offset"));
    assert_eq!(report.error_code, ErrorCode::InvalidOffset);
}

#[test]
fn options_are_validated() {
    let retry = |n: Option<i64>, initial: Option<i64>, max: Option<i64>, below: Option<bool>| {
        validate_target(ValidateTarget::RetryOptions {
            max_retries: n,
            initial_delay_ms: initial,
            max_delay_ms: max,
            multiplier: below.map(|b| Multiplier { bits: 0, below_one: b }),
        })
    };
    assert!(retry(Some(0), Some(1), Some(1), Some(false)).is_ok());
    assert_eq!(retry(Some(-1), None, None, None), Err(s("maxRetries must not be negative")));
    assert!(retry(None, Some(0), None, None).is_err());
    assert!(retry(None, Some(2), Some(1), None).is_err());
    assert!(retry(None, None, None, Some(true)).is_err());
    let mut state = AdapterState::default();
    let target = ValidateTarget::IdempotentProducer {
        producer_id: None,
        epoch: None,
        max_batch_bytes: Some(0),
        max_batch_items: None,
    };
    let error = failure(done(state.handle_command(Command::Validate { target }, 0)));
    assert_eq!(error.error_code, ErrorCode::InvalidArgument);
    let target = ValidateTarget::IdempotentProducer {
        producer_id: None,
        epoch: None,
        max_batch_bytes: None,
        max_batch_items: None,
    };
    assert_eq!(
        success(done(state.handle_command(Command::Validate { target }, 0))).result_type,
        "validate"
    );
}

#[test]
fn replies_become_results() {
    let appended = AppendResponse {
        status: 204,
        next_offset: Some(s("3")),
        stream_closed: false,
        producer_epoch: None,
        producer_seq: None,
    };
    let sent = Sent { headers: Vec::new(), params: Vec::new() };
    let result = success(finish_append("/o", sent, Ok(appended.clone())));
    assert_eq!((result.status, result.offset.as_deref()), (Some(200), Some("3")));
    assert_eq!(result.headers_sent, None);
    assert_eq!(success(finish_delete("/o", Ok(DeleteResponse { status: 204 }))).status, Some(200));
    let closed = CloseStreamResponse { status: 204, final_offset: s("9"), stream_closed: true };
    let result = success(finish_close("/o", Ok(closed.clone())));
    assert_eq!(result.final_offset.as_deref(), Some("9"));
    let result = success(finish_idempotent_close("/o", Ok(closed)));
    assert_eq!(result.result_type, "idempotent-close");
    assert_eq!(
        success(finish_idempotent_append("/o", Ok(appended.clone()))).result_type,
        "idempotent-append"
    );
    assert_eq!(
        success(finish_idempotent_append_batch("/o", Ok(appended))).result_type,
        "idempotent-append-batch"
    );
    assert_eq!(
        failure(finish_delete("/o", Err(http(404, "gone")))).error_code,
        ErrorCode::NotFound
    );
}

#[test]
fn shutdown_ends_the_adapter() {
    let mut state = ready();
    let output = done(state.handle_command(Command::Shutdown, 0));
    assert!(is_shutdown(&output));
    let output = done(state.handle_command(Command::ClearDynamic, 0));
    assert!(!is_shutdown(&output));
}

#[test]
fn output_is_one_line() {
    assert_eq!(escape_line_ends("a\u{85}b\u{2028}c\u{2029}d\ne"), "a\\u0085b\\u2028c\\u2029d\ne");
}
