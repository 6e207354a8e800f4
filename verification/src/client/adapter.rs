//! The conformance adapter: commands in, requests to a server and results out.
//!
//! Each command is turned into a request that somebody else sends, or into a result at once;
//! what comes back from the server is turned into a result.

use vstd::prelude::*;
use vstd::utf8::encode_utf8;
use crate::bytes::byte_lists;
use crate::client::builders::Client;
use crate::client::config::{ClientConfig, is_default_client};
use crate::client::dynamic::{
    Dynamic, DynamicValue, DynamicView, add_missing, after_values, counts_fit, dynamic_of,
    has_distinct_values, lemma_missing_keeps, lemma_without_name, make_values, set_dynamic,
    values_of, with_missing, without_name,
};
use crate::client::error::{Error, ErrorCode};
use crate::client::idempotent::IdempotentProducerConfig;
use crate::client::model::{
    AppendRequest, AppendResponse, CloseStreamRequest, CloseStreamResponse, ConnectRequest,
    ConnectResponse, CreateStreamRequest, CreateStreamResponse, DeleteRequest, DeleteResponse,
    HeadRequest, HeadResponse, LiveMode, ProducerRequest, ReadChunk, ReadRequest, ReadResponse,
    RequestOptions,
};
use crate::client::reports::{
    ErrorReport, ErrorResult, ValidateTarget, contextualized, error_output, error_report, error_to_output,
    read_error_output, read_report, sizes_fit, target_rejection, validate_target,
};
use crate::decimal::{i64_text, signed_decimal};
use crate::encoding::{base64_bytes, base64_decode, lossy_text, utf8_lossy};
use crate::fields::{field_of, fields, get_field, has_distinct_names, set_field, with_field};
use crate::text::{chars_of, joined, joined5, same, str_opt, text_opt, texts, trim_spec};
use crate::time::Span;
use crate::urls::{normal_url, normal_url_spec};

verus! {

/// A chunk in the result of a read.
#[derive(Debug)]
pub struct ReadChunkResult {
    pub data: String,
    pub offset: Option<String>,
}

/// What the client can do.
#[derive(Debug, Clone, Copy, PartialEq, Eq, Structural)]
pub struct FeatureFlags {
    pub sse: bool,
    pub long_poll: bool,
    pub auto_mode: bool,
    pub batching: bool,
    pub streaming: bool,
    pub dynamic_headers: bool,
    pub strict_zero_validation: bool,
}

/// A command that succeeded.
#[derive(Debug)]
pub struct SuccessResult {
    pub result_type: &'static str,
    pub status: Option<u16>,
    pub offset: Option<String>,
    pub final_offset: Option<String>,
    pub up_to_date: Option<bool>,
    pub stream_closed: Option<bool>,
    pub content_type: Option<String>,
    pub headers_sent: Option<Vec<(String, String)>>,
    pub params_sent: Option<Vec<(String, String)>>,
    pub chunks: Option<Vec<ReadChunkResult>>,
    pub client_name: Option<String>,
    pub client_version: Option<String>,
    pub features: Option<FeatureFlags>,
}

/// Fields by name.
pub type Fields = Seq<(Seq<char>, Seq<char>)>;

/// What a command that succeeded reports.
#[verifier::ext_equal]
pub struct SuccessReport {
    pub result_type: Seq<char>,
    pub status: Option<u16>,
    pub offset: Option<Seq<char>>,
    pub final_offset: Option<Seq<char>>,
    pub up_to_date: Option<bool>,
    pub stream_closed: Option<bool>,
    pub content_type: Option<Seq<char>>,
    pub headers_sent: Option<Fields>,
    pub params_sent: Option<Fields>,
    pub chunks: Option<Seq<(Seq<char>, Option<Seq<char>>)>>,
    pub client_name: Option<Seq<char>>,
    pub client_version: Option<Seq<char>>,
    pub features: Option<FeatureFlags>,
}

/// What fields hold, if there are any.
pub open spec fn fields_opt(list: Option<Vec<(String, String)>>) -> Option<Fields> {
    match list {
        Some(l) => Some(fields(l@)),
        None => None,
    }
}

/// What fields hold; none where they are left out.
pub open spec fn fields_or_none(list: Option<Vec<(String, String)>>) -> Fields {
    match list {
        Some(l) => fields(l@),
        None => Seq::empty(),
    }
}

/// What chunks of a result hold.
pub open spec fn chunk_results(chunks: Seq<ReadChunkResult>) -> Seq<(Seq<char>, Option<Seq<char>>)> {
    chunks.map_values(|c: ReadChunkResult| (c.data@, text_opt(c.offset)))
}

impl View for SuccessResult {
    type V = SuccessReport;

    open spec fn view(&self) -> SuccessReport {
        SuccessReport {
            result_type: self.result_type@,
            status: self.status,
            offset: text_opt(self.offset),
            final_offset: text_opt(self.final_offset),
            up_to_date: self.up_to_date,
            stream_closed: self.stream_closed,
            content_type: text_opt(self.content_type),
            headers_sent: fields_opt(self.headers_sent),
            params_sent: fields_opt(self.params_sent),
            chunks: match self.chunks {
                Some(c) => Some(chunk_results(c@)),
                None => None,
            },
            client_name: text_opt(self.client_name),
            client_version: text_opt(self.client_version),
            features: self.features,
        }
    }
}

/// A report with nothing but its type.
pub open spec fn bare(result_type: Seq<char>) -> SuccessReport {
    SuccessReport {
        result_type,
        status: None,
        offset: None,
        final_offset: None,
        up_to_date: None,
        stream_closed: None,
        content_type: None,
        headers_sent: None,
        params_sent: None,
        chunks: None,
        client_name: None,
        client_version: None,
        features: None,
    }
}

/// Makes a result with nothing but its type.
pub fn empty_success(result_type: &'static str) -> (r: SuccessResult)
    ensures
        r@ == bare(result_type@),
{
    SuccessResult {
        result_type,
        status: None,
        offset: None,
        final_offset: None,
        up_to_date: None,
        stream_closed: None,
        content_type: None,
        headers_sent: None,
        params_sent: None,
        chunks: None,
        client_name: None,
        client_version: None,
        features: None,
    }
}

/// The result of a command.
#[derive(Debug)]
pub enum AdapterOutput {
    Success(SuccessResult),
    Error(ErrorResult),
}

/// Whether an output reports what is expected.
pub open spec fn reports(r: AdapterOutput, expected: Result<SuccessReport, ErrorReport>) -> bool {
    match r {
        AdapterOutput::Success(s) => expected == Ok::<SuccessReport, ErrorReport>(s@),
        AdapterOutput::Error(e) => expected == Err::<SuccessReport, ErrorReport>(e@),
    }
}

/// What the adapter knows between commands.
#[derive(Debug)]
pub struct AdapterState {
    /// Whether there is a client.
    pub initialized: bool,
    pub timeout_ms: u64,
    /// The content types of streams that were met.
    pub content_types: Vec<(String, String)>,
    /// The producers that were made and not given up.
    pub producers: Vec<String>,
    pub dynamic_headers: Vec<(String, DynamicValue)>,
    pub dynamic_params: Vec<(String, DynamicValue)>,
}

/// The dynamic values that a request carries.
#[derive(Debug)]
pub struct Sent {
    pub headers: Vec<(String, String)>,
    pub params: Vec<(String, String)>,
}

impl Sent {
    /// Whether no header and no parameter is named twice.
    pub open spec fn is_valid(self) -> bool {
        has_distinct_names(fields(self.headers@)) && has_distinct_names(fields(self.params@))
    }
}

/// The key of a producer.
pub open spec fn producer_key_spec(path: Seq<char>, producer_id: Seq<char>, epoch: int) -> Seq<char> {
    path + "|"@ + producer_id + "|"@ + signed_decimal(epoch)
}

/// The key of a producer.
pub fn producer_key(path: &str, producer_id: &str, epoch: i64) -> (r: String)
    ensures
        r@ == producer_key_spec(path@, producer_id@, epoch as int),
{
    joined5(path, "|", producer_id, "|", i64_text(epoch).as_str())
}

/// The content type for a stream that was not met.
pub open spec fn type_or_bytes(t: Option<Seq<char>>) -> Seq<char> {
    match t {
        Some(t) => t,
        None => "application/octet-stream"@,
    }
}

/// How a producer is made.
#[derive(Debug)]
pub struct ProducerSetup {
    pub path: String,
    pub content_type: String,
    pub options: RequestOptions,
    pub config: IdempotentProducerConfig,
}

/// The producer that a command goes to: one that was made before, or a new one.
#[derive(Debug)]
pub enum ProducerChoice {
    Known { key: String },
    New { key: String, setup: ProducerSetup },
}

/// What is sent for a command.
#[derive(Debug)]
pub enum AdapterCall {
    Create { path: String, request: CreateStreamRequest },
    Connect { path: String, request: ConnectRequest },
    Append { path: String, request: AppendRequest, sent: Sent },
    Read { path: String, request: ReadRequest, sent: Sent },
    Head { path: String, request: HeadRequest },
    Delete { path: String, request: DeleteRequest },
    Close { path: String, request: CloseStreamRequest },
    ProducerAppend { path: String, producer: ProducerChoice, data: Vec<u8> },
    ProducerAppendBatch { path: String, setup: ProducerSetup, items: Vec<Vec<u8>> },
    ProducerClose { path: String, producer: ProducerChoice, data: Option<Vec<u8>> },
}

/// What follows from a command: a result, a client to start with, or something to send.
#[derive(Debug)]
pub enum AdapterStep {
    Done(AdapterOutput),
    Start { client: Client, timeout_ms: Option<u64> },
    Call(AdapterCall),
}

/// A stream to create.
#[derive(Debug)]
pub struct CreateParams {
    pub path: String,
    pub content_type: Option<String>,
    pub ttl_seconds: Option<u64>,
    pub expires_at: Option<String>,
    pub headers: Option<Vec<(String, String)>>,
    pub closed: Option<bool>,
    pub data: Option<String>,
}

/// Data to append.
#[derive(Debug)]
pub struct AppendParams {
    pub path: String,
    pub data: String,
    pub binary: Option<bool>,
    pub seq: Option<i64>,
    pub headers: Option<Vec<(String, String)>>,
    pub producer_id: Option<String>,
    pub producer_epoch: Option<i64>,
    pub producer_seq: Option<i64>,
}

/// How a read goes on at the tail, as a command says it.
#[derive(Debug)]
pub enum LiveValue {
    Flag(bool),
    Text(String),
    Other,
}

/// A range to read.
#[derive(Debug)]
pub struct ReadParams {
    pub path: String,
    pub offset: Option<String>,
    pub live: Option<LiveValue>,
    pub timeout_ms: Option<u64>,
    pub max_chunks: Option<usize>,
    pub wait_for_up_to_date: Option<bool>,
    pub headers: Option<Vec<(String, String)>>,
}

/// A producer and its stream.
#[derive(Debug)]
pub struct ProducerParams {
    pub path: String,
    pub producer_id: String,
    pub epoch: Option<i64>,
    pub auto_claim: Option<bool>,
    pub headers: Option<Vec<(String, String)>>,
}

/// An item of a batch.
#[derive(Debug)]
pub enum BatchItem {
    Value(String),
    Wrapped { data: String },
}

impl BatchItem {
    /// The data of the item.
    pub open spec fn data(self) -> Seq<char> {
        match self {
            BatchItem::Value(value) => value@,
            BatchItem::Wrapped { data } => data@,
        }
    }

    /// Gives the data of the item.
    pub fn into_data(self) -> (r: String)
        ensures
            r@ == self.data(),
    {
        match self {
            BatchItem::Value(value) => value,
            BatchItem::Wrapped { data } => data,
        }
    }
}

/// A command to the adapter.
#[derive(Debug)]
pub enum Command {
    Init { server_url: String, timeout_ms: Option<u64> },
    Create(CreateParams),
    Connect { path: String, headers: Option<Vec<(String, String)>> },
    Append(AppendParams),
    Read(ReadParams),
    Head { path: String, headers: Option<Vec<(String, String)>> },
    Delete { path: String, headers: Option<Vec<(String, String)>> },
    Close { path: String, data: Option<String>, content_type: Option<String> },
    Shutdown,
    SetDynamicHeader { name: String, value_type: String, initial_value: Option<String> },
    SetDynamicParam { name: String, value_type: String },
    ClearDynamic,
    Validate { target: ValidateTarget },
    IdempotentAppend { producer: ProducerParams, data: String },
    IdempotentAppendBatch { producer: ProducerParams, items: Vec<BatchItem> },
    IdempotentClose { producer: ProducerParams, data: Option<String> },
    IdempotentDetach { path: String, producer_id: String, epoch: Option<i64> },
}

/// Whether a step is a result that reports what is expected.
pub open spec fn is_done(r: AdapterStep, expected: Result<SuccessReport, ErrorReport>) -> bool {
    r matches AdapterStep::Done(output) && reports(output, expected)
}

/// What a command that needs a client reports where there is none.
pub open spec fn no_client(command_type: Seq<char>) -> Result<SuccessReport, ErrorReport> {
    Err(
        ErrorReport {
            command_type,
            status: None,
            error_code: ErrorCode::InternalError,
            message: "client adapter not initialized"@,
        },
    )
}

fn without_client(command_type: &'static str) -> (r: AdapterStep)
    ensures
        is_done(r, no_client(command_type@)),
{
    AdapterStep::Done(
        AdapterOutput::Error(
            error_output(
                command_type,
                None,
                ErrorCode::InternalError,
                "client adapter not initialized".to_owned(),
            ),
        ),
    )
}

/// Whether options hold given headers and nothing else.
pub open spec fn is_options(options: RequestOptions, headers: Fields) -> bool {
    fields(options.headers@) == headers && options.query@.len() == 0
}

fn plain_options(headers: Option<Vec<(String, String)>>) -> (r: RequestOptions)
    ensures
        is_options(r, fields_or_none(headers)),
{
    let headers = match headers {
        Some(h) => h,
        None => {
            let none: Vec<(String, String)> = Vec::new();
            assert(fields(none@) =~= Seq::empty());
            none
        },
    };
    RequestOptions { headers, query: Vec::new() }
}

/// The bytes of a body, if there is one.
pub open spec fn body_of(body: Option<Vec<u8>>) -> Option<Seq<u8>> {
    match body {
        Some(b) => Some(b@),
        None => None,
    }
}

/// The bytes of a text, if there is one.
pub open spec fn encoded_opt(text: Option<String>) -> Option<Seq<u8>> {
    match text {
        Some(t) => Some(encode_utf8(t@)),
        None => None,
    }
}

fn encode_opt(text: Option<String>) -> (r: Option<Vec<u8>>)
    ensures
        body_of(r) == encoded_opt(text),
{
    match text {
        Some(t) => Some(t.as_str().as_bytes_vec()),
        None => None,
    }
}

/// What an `init` command leads to.
pub open spec fn is_init_step(server_url: Seq<char>, timeout_ms: Option<u64>, r: AdapterStep) -> bool {
    match normal_url_spec(server_url) {
        Err(m) => is_done(
            r,
            Err(
                ErrorReport {
                    command_type: "init"@,
                    status: None,
                    error_code: ErrorCode::InvalidArgument,
                    message: m,
                },
            ),
        ),
        Ok(url) => r matches AdapterStep::Start { client, timeout_ms: t } && t == timeout_ms
            && is_default_client(client.config, url) && client.default_headers@.len() == 0,
    }
}

/// What a `create` command leads to.
pub open spec fn is_create_step(s: AdapterState, p: CreateParams, r: AdapterStep) -> bool {
    if !s.initialized {
        is_done(r, no_client("create"@))
    } else {
        &&& r matches AdapterStep::Call(AdapterCall::Create { path, request })
        &&& path@ == p.path@
        &&& request.content_type@ == type_or_bytes(text_opt(p.content_type))
        &&& request.ttl_seconds == p.ttl_seconds
        &&& text_opt(request.expires_at) == text_opt(p.expires_at)
        &&& request.closed == (p.closed == Some(true))
        &&& body_of(request.body) == encoded_opt(p.data)
        &&& is_options(request.options, fields_or_none(p.headers))
    }
}

/// What a `connect` command leads to.
pub open spec fn is_connect_step(
    s: AdapterState,
    path: Seq<char>,
    headers: Option<Vec<(String, String)>>,
    r: AdapterStep,
) -> bool {
    if !s.initialized {
        is_done(r, no_client("connect"@))
    } else {
        &&& r matches AdapterStep::Call(AdapterCall::Connect { path: to, request })
        &&& to@ == path
        &&& is_options(request.options, fields_or_none(headers))
    }
}

/// What a `head` command leads to.
pub open spec fn is_head_step(
    s: AdapterState,
    path: Seq<char>,
    headers: Option<Vec<(String, String)>>,
    r: AdapterStep,
) -> bool {
    if !s.initialized {
        is_done(r, no_client("head"@))
    } else {
        &&& r matches AdapterStep::Call(AdapterCall::Head { path: to, request })
        &&& to@ == path
        &&& is_options(request.options, fields_or_none(headers))
    }
}

/// What a `delete` command leads to.
pub open spec fn is_delete_step(
    s: AdapterState,
    path: Seq<char>,
    headers: Option<Vec<(String, String)>>,
    r: AdapterStep,
) -> bool {
    if !s.initialized {
        is_done(r, no_client("delete"@))
    } else {
        &&& r matches AdapterStep::Call(AdapterCall::Delete { path: to, request })
        &&& to@ == path
        &&& is_options(request.options, fields_or_none(headers))
    }
}

/// What a `close` command leads to: a content type that is not given is that of the stream,
/// where it was met.
pub open spec fn is_close_step(
    s: AdapterState,
    path: Seq<char>,
    data: Option<String>,
    content_type: Option<String>,
    r: AdapterStep,
) -> bool {
    if !s.initialized {
        is_done(r, no_client("close"@))
    } else {
        &&& r matches AdapterStep::Call(AdapterCall::Close { path: to, request })
        &&& to@ == path
        &&& body_of(request.body) == encoded_opt(data)
        &&& text_opt(request.content_type) == (match content_type {
            Some(t) => Some(t@),
            None => s.type_of(path),
        })
        &&& request.producer is None
        &&& is_options(request.options, Seq::empty())
    }
}

/// Whether the dynamic values went on by one request, and nothing else changed.
pub open spec fn went_on(before: AdapterState, after: AdapterState) -> bool {
    &&& dynamic_of(after.dynamic_headers@) == after_values(dynamic_of(before.dynamic_headers@))
    &&& dynamic_of(after.dynamic_params@) == after_values(dynamic_of(before.dynamic_params@))
    &&& after == (AdapterState {
        dynamic_headers: after.dynamic_headers,
        dynamic_params: after.dynamic_params,
        ..before
    })
}

/// Whether a request carries the dynamic values that come next.
pub open spec fn carries(s: AdapterState, sent: Sent, now_millis: int) -> bool {
    &&& fields(sent.headers@) == values_of(dynamic_of(s.dynamic_headers@), now_millis)
    &&& fields(sent.params@) == values_of(dynamic_of(s.dynamic_params@), now_millis)
}

/// The headers of a request: those that are given, and the dynamic ones that they leave out.
pub open spec fn merged_headers(s: AdapterState, headers: Option<Vec<(String, String)>>, now_millis: int) -> Fields {
    with_missing(
        fields_or_none(headers),
        values_of(dynamic_of(s.dynamic_headers@), now_millis),
    )
}

/// The bytes that an `append` command appends, or why there are none.
pub open spec fn append_body(p: AppendParams) -> Result<Seq<u8>, Seq<char>> {
    if p.binary == Some(true) {
        base64_bytes(p.data@)
    } else {
        Ok(encode_utf8(p.data@))
    }
}

/// Whether a producer of a request is the one that is given.
pub open spec fn is_producer(request: Option<ProducerRequest>, p: AppendParams) -> bool {
    match p.producer_id {
        Some(id) => request matches Some(q) && q.producer_id@ == id@ && q.producer_epoch == (
        match p.producer_epoch {
            Some(n) => n,
            None => 0,
        }) && q.producer_seq == (match p.producer_seq {
            Some(n) => n,
            None => 0,
        }),
        None => request is None,
    }
}

/// What an `append` command leads to.
pub open spec fn is_append_step(s: AdapterState, p: AppendParams, now_millis: int, r: AdapterStep) -> bool {
    if !s.initialized {
        is_done(r, no_client("append"@))
    } else {
        match append_body(p) {
            Err(message) => is_done(
                r,
                Err(
                    ErrorReport {
                        command_type: "append"@,
                        status: None,
                        error_code: ErrorCode::ParseError,
                        message,
                    },
                ),
            ),
            Ok(body) => {
                &&& r matches AdapterStep::Call(AdapterCall::Append { path, request, sent })
                &&& path@ == p.path@
                &&& request.body@ == body
                &&& text_opt(request.content_type) == Some(type_or_bytes(s.type_of(p.path@)))
                &&& text_opt(request.stream_seq) == (match p.seq {
                    Some(n) => Some(signed_decimal(n as int)),
                    None => None,
                })
                &&& is_producer(request.producer, p)
                &&& is_options(request.options, merged_headers(s, p.headers, now_millis))
                &&& carries(s, sent, now_millis)
            },
        }
    }
}

/// The read mode that a command asks for.
pub open spec fn live_mode(live: Option<LiveValue>) -> LiveMode {
    match live {
        Some(LiveValue::Flag(b)) => if b {
            LiveMode::Auto
        } else {
            LiveMode::CatchUp
        },
        Some(LiveValue::Text(t)) => if t@ == "long-poll"@ {
            LiveMode::LongPoll
        } else if t@ == "sse"@ {
            LiveMode::Sse
        } else {
            LiveMode::CatchUp
        },
        _ => LiveMode::CatchUp,
    }
}

fn read_live(live: &Option<LiveValue>) -> (r: LiveMode)
    ensures
        r == live_mode(*live),
{
    match live {
        Some(LiveValue::Flag(b)) => {
            if *b {
                LiveMode::Auto
            } else {
                LiveMode::CatchUp
            }
        },
        Some(LiveValue::Text(t)) => {
            if same(t.as_str(), "long-poll") {
                LiveMode::LongPoll
            } else if same(t.as_str(), "sse") {
                LiveMode::Sse
            } else {
                LiveMode::CatchUp
            }
        },
        _ => LiveMode::CatchUp,
    }
}

/// What a `read` command leads to.
pub open spec fn is_read_step(s: AdapterState, p: ReadParams, now_millis: int, r: AdapterStep) -> bool {
    if !s.initialized {
        is_done(r, no_client("read"@))
    } else {
        &&& r matches AdapterStep::Call(AdapterCall::Read { path, request, sent })
        &&& path@ == p.path@
        &&& text_opt(request.offset) == text_opt(p.offset)
        &&& request.live == live_mode(p.live)
        &&& request.timeout matches Some(t) && t.total() == 1_000_000 * (match p.timeout_ms {
            Some(n) => n,
            None => s.timeout_ms,
        })
        &&& request.max_chunks == p.max_chunks
        &&& request.wait_for_up_to_date == (p.wait_for_up_to_date == Some(true))
        &&& request.cursor is None
        &&& request.if_none_match is None
        &&& is_options(request.options, merged_headers(s, p.headers, now_millis))
        &&& carries(s, sent, now_millis)
    }
}

/// The epoch that a command names, or the first.
pub open spec fn epoch_or_zero(epoch: Option<i64>) -> i64 {
    match epoch {
        Some(n) => n,
        None => 0,
    }
}

/// Whether a producer is made as a command asks.
pub open spec fn is_setup(s: AdapterState, p: ProducerParams, setup: ProducerSetup) -> bool {
    &&& setup.path@ == p.path@
    &&& setup.content_type@ == type_or_bytes(s.type_of(p.path@))
    &&& is_options(setup.options, fields_or_none(p.headers))
    &&& setup.config.producer_id@ == p.producer_id@
    &&& setup.config.epoch == epoch_or_zero(p.epoch)
    &&& setup.config.auto_claim == (p.auto_claim == Some(true))
    &&& setup.config.max_batch_bytes == 1024 * 1024
    &&& setup.config.max_batch_items is None
}

/// Why no producer is made, if none is.
pub open spec fn producer_rejection(p: ProducerParams) -> Option<Seq<char>> {
    if trim_spec(p.producer_id@).len() == 0 {
        Some("producerId must not be empty"@)
    } else if epoch_or_zero(p.epoch) < 0 {
        Some("epoch must not be negative"@)
    } else {
        None
    }
}

/// What a command reports where no producer is made.
pub open spec fn no_producer(command_type: Seq<char>, path: Seq<char>, message: Seq<char>) -> Result<
    SuccessReport,
    ErrorReport,
> {
    Err(
        ErrorReport {
            command_type,
            status: None,
            error_code: ErrorCode::InvalidArgument,
            message: contextualized(message, Some(path)),
        },
    )
}

/// The key of the producer that a command names.
pub open spec fn key_of(p: ProducerParams) -> Seq<char> {
    producer_key_spec(p.path@, p.producer_id@, epoch_or_zero(p.epoch) as int)
}

/// Whether the adapter has a producer.
pub open spec fn has_producer(s: AdapterState, key: Seq<char>) -> bool {
    texts(s.producers@).contains(key)
}

/// Whether a producer is the one that a command names.
pub open spec fn is_choice(s: AdapterState, p: ProducerParams, choice: ProducerChoice) -> bool {
    match choice {
        ProducerChoice::Known { key } => has_producer(s, key_of(p)) && key@ == key_of(p),
        ProducerChoice::New { key, setup } => !has_producer(s, key_of(p)) && key@ == key_of(p)
            && is_setup(s, p, setup),
    }
}

/// Whether the adapter has one producer more.
pub open spec fn has_added(before: AdapterState, after: AdapterState, key: Seq<char>) -> bool {
    &&& texts(after.producers@) == texts(before.producers@).push(key)
    &&& after == (AdapterState { producers: after.producers, ..before })
}

/// How the adapter changes where a command goes to a producer that stays.
pub open spec fn keeps_producer(before: AdapterState, after: AdapterState, p: ProducerParams) -> bool {
    if !before.initialized || has_producer(before, key_of(p)) || producer_rejection(p) is Some {
        after == before
    } else {
        has_added(before, after, key_of(p))
    }
}

/// What an `idempotent-append` command leads to.
pub open spec fn is_producer_append_step(s: AdapterState, p: ProducerParams, data: Seq<char>, r: AdapterStep) -> bool {
    if !s.initialized {
        is_done(r, no_client("idempotent-append"@))
    } else if !has_producer(s, key_of(p)) && producer_rejection(p) is Some {
        is_done(r, no_producer("idempotent-append"@, p.path@, producer_rejection(p)->0))
    } else {
        &&& r matches AdapterStep::Call(AdapterCall::ProducerAppend { path, producer, data: body })
        &&& path@ == p.path@
        &&& is_choice(s, p, producer)
        &&& body@ == encode_utf8(data)
    }
}

/// What an `idempotent-close` command leads to.
pub open spec fn is_producer_close_step(
    s: AdapterState,
    p: ProducerParams,
    data: Option<String>,
    r: AdapterStep,
) -> bool {
    if !s.initialized {
        is_done(r, no_client("idempotent-close"@))
    } else if !has_producer(s, key_of(p)) && producer_rejection(p) is Some {
        is_done(r, no_producer("idempotent-close"@, p.path@, producer_rejection(p)->0))
    } else {
        &&& r matches AdapterStep::Call(AdapterCall::ProducerClose { path, producer, data: body })
        &&& path@ == p.path@
        &&& is_choice(s, p, producer)
        &&& body_of(body) == encoded_opt(data)
    }
}

/// The bytes of the items of a batch.
pub open spec fn item_bytes(items: Seq<BatchItem>) -> Seq<Seq<u8>> {
    items.map_values(|item: BatchItem| encode_utf8(item.data()))
}

/// What an `idempotent-append-batch` command leads to: a producer is made for it alone.
pub open spec fn is_producer_batch_step(
    s: AdapterState,
    p: ProducerParams,
    items: Seq<BatchItem>,
    r: AdapterStep,
) -> bool {
    if !s.initialized {
        is_done(r, no_client("idempotent-append-batch"@))
    } else if producer_rejection(p) is Some {
        is_done(r, no_producer("idempotent-append-batch"@, p.path@, producer_rejection(p)->0))
    } else {
        &&& r matches AdapterStep::Call(AdapterCall::ProducerAppendBatch { path, setup, items: bytes })
        &&& path@ == p.path@
        &&& is_setup(s, p, setup)
        &&& byte_lists(bytes@) == item_bytes(items)
    }
}

/// Texts without those that equal one.
pub open spec fn without_text(list: Seq<Seq<char>>, t: Seq<char>) -> Seq<Seq<char>>
    decreases list.len(),
{
    if list.len() == 0 {
        list
    } else if list.last() == t {
        without_text(list.drop_last(), t)
    } else {
        without_text(list.drop_last(), t).push(list.last())
    }
}

/// What a `validate` command reports.
pub open spec fn validate_report(target: ValidateTarget) -> Result<SuccessReport, ErrorReport> {
    match target_rejection(target) {
        None => Ok(bare("validate"@)),
        Some(message) => Err(
            ErrorReport {
                command_type: "validate"@,
                status: None,
                error_code: ErrorCode::InvalidArgument,
                message,
            },
        ),
    }
}

/// Whether dynamic headers and parameters are those given, and nothing else changed.
pub open spec fn has_dynamic(
    before: AdapterState,
    after: AdapterState,
    headers: Dynamic,
    params: Dynamic,
) -> bool {
    &&& dynamic_of(after.dynamic_headers@) == headers
    &&& dynamic_of(after.dynamic_params@) == params
    &&& after == (AdapterState {
        dynamic_headers: after.dynamic_headers,
        dynamic_params: after.dynamic_params,
        ..before
    })
}

/// What a command leads to.
pub open spec fn is_step(s: AdapterState, command: Command, now_millis: int, r: AdapterStep) -> bool {
    match command {
        Command::Init { server_url, timeout_ms } => is_init_step(server_url@, timeout_ms, r),
        Command::Create(p) => is_create_step(s, p, r),
        Command::Connect { path, headers } => is_connect_step(s, path@, headers, r),
        Command::Append(p) => is_append_step(s, p, now_millis, r),
        Command::Read(p) => is_read_step(s, p, now_millis, r),
        Command::Head { path, headers } => is_head_step(s, path@, headers, r),
        Command::Delete { path, headers } => is_delete_step(s, path@, headers, r),
        Command::Close { path, data, content_type } => is_close_step(
            s,
            path@,
            data,
            content_type,
            r,
        ),
        Command::Shutdown => is_done(r, Ok(bare("shutdown"@))),
        Command::SetDynamicHeader { .. } => is_done(r, Ok(bare("set-dynamic-header"@))),
        Command::SetDynamicParam { .. } => is_done(r, Ok(bare("set-dynamic-param"@))),
        Command::ClearDynamic => is_done(r, Ok(bare("clear-dynamic"@))),
        Command::Validate { target } => is_done(r, validate_report(target)),
        Command::IdempotentAppend { producer, data } => is_producer_append_step(
            s,
            producer,
            data@,
            r,
        ),
        Command::IdempotentAppendBatch { producer, items } => is_producer_batch_step(
            s,
            producer,
            items@,
            r,
        ),
        Command::IdempotentClose { producer, data } => is_producer_close_step(s, producer, data, r),
        Command::IdempotentDetach { .. } => is_done(
            r,
            Ok(SuccessReport { status: Some(200), ..bare("idempotent-detach"@) }),
        ),
    }
}

/// What a command leaves of what the adapter knows.
pub open spec fn is_after(s: AdapterState, command: Command, after: AdapterState) -> bool {
    let headers = dynamic_of(s.dynamic_headers@);
    let params = dynamic_of(s.dynamic_params@);
    match command {
        Command::Append(_) | Command::Read(_) => if s.initialized {
            went_on(s, after)
        } else {
            after == s
        },
        Command::SetDynamicHeader { name, value_type, initial_value } => has_dynamic(
            s,
            after,
            without_name(headers, name@).push(
                (
                    name@,
                    DynamicView { kind: value_type@, counter: 0, token: text_opt(initial_value) },
                ),
            ),
            params,
        ),
        Command::SetDynamicParam { name, value_type } => has_dynamic(
            s,
            after,
            headers,
            without_name(params, name@).push(
                (name@, DynamicView { kind: value_type@, counter: 0, token: None }),
            ),
        ),
        Command::ClearDynamic => has_dynamic(s, after, Seq::empty(), Seq::empty()),
        Command::IdempotentAppend { producer, .. } => keeps_producer(s, after, producer),
        Command::IdempotentClose { producer, .. } => keeps_producer(s, after, producer),
        Command::IdempotentDetach { path, producer_id, epoch } => {
            &&& texts(after.producers@) == without_text(
                texts(s.producers@),
                producer_key_spec(path@, producer_id@, epoch_or_zero(epoch) as int),
            )
            &&& after == (AdapterState { producers: after.producers, ..s })
        },
        _ => after == s,
    }
}

impl Default for AdapterState {
    fn default() -> (r: Self)
        ensures
            r.is_fresh(30_000),
            !r.initialized,
            r.is_valid(),
    {
        AdapterState {
            initialized: false,
            timeout_ms: 30_000,
            content_types: Vec::new(),
            producers: Vec::new(),
            dynamic_headers: Vec::new(),
            dynamic_params: Vec::new(),
        }
    }
}

impl AdapterState {
    /// Whether nothing has been met yet.
    pub open spec fn is_fresh(self, timeout_ms: u64) -> bool {
        self.timeout_ms == timeout_ms && self.content_types@.len() == 0 && self.producers@.len() == 0
            && self.dynamic_headers@.len() == 0 && self.dynamic_params@.len() == 0
    }

    /// Whether nothing is named twice: no stream, no producer, no dynamic header and no dynamic
    /// parameter.
    pub open spec fn is_valid(self) -> bool {
        &&& has_distinct_names(fields(self.content_types@))
        &&& texts(self.producers@).no_duplicates()
        &&& has_distinct_values(dynamic_of(self.dynamic_headers@))
        &&& has_distinct_values(dynamic_of(self.dynamic_params@))
    }

    /// Whether every count can go on.
    pub open spec fn can_count(self) -> bool {
        counts_fit(self.dynamic_headers@) && counts_fit(self.dynamic_params@)
    }

    /// The content type of a stream that was met.
    pub open spec fn type_of(self, path: Seq<char>) -> Option<Seq<char>> {
        field_of(fields(self.content_types@), path)
    }

    /// Makes the dynamic values for a request, and adds the headers to those that are given.
    pub fn resolve_dynamic(&mut self, explicit_headers: Option<Vec<(String, String)>>, now_millis: i64) -> (r:
        (Sent, Vec<(String, String)>))
        requires
            old(self).can_count(),
        ensures
            fields(r.0.headers@) == values_of(
                dynamic_of(old(self).dynamic_headers@),
                now_millis as int,
            ),
            fields(r.0.params@) == values_of(
                dynamic_of(old(self).dynamic_params@),
                now_millis as int,
            ),
            fields(r.1@) == with_missing(
                match explicit_headers {
                    Some(h) => fields(h@),
                    None => Seq::empty(),
                },
                fields(r.0.headers@),
            ),
            dynamic_of(final(self).dynamic_headers@) == after_values(
                dynamic_of(old(self).dynamic_headers@),
            ),
            dynamic_of(final(self).dynamic_params@) == after_values(
                dynamic_of(old(self).dynamic_params@),
            ),
            *final(self) == (AdapterState {
                dynamic_headers: final(self).dynamic_headers,
                dynamic_params: final(self).dynamic_params,
                ..*old(self)
            }),
            old(self).is_valid() ==> final(self).is_valid() && r.0.is_valid(),
            has_distinct_names(fields_or_none(explicit_headers)) ==> has_distinct_names(fields(r.1@)),
    {
        let mut held: Vec<(String, DynamicValue)> = Vec::new();
        std::mem::swap(&mut held, &mut self.dynamic_headers);
        let (held, headers) = make_values(held, now_millis);
        self.dynamic_headers = held;
        let mut held: Vec<(String, DynamicValue)> = Vec::new();
        std::mem::swap(&mut held, &mut self.dynamic_params);
        let (held, params) = make_values(held, now_millis);
        self.dynamic_params = held;
        let explicit = match explicit_headers {
            Some(h) => h,
            None => {
                let none: Vec<(String, String)> = Vec::new();
                assert(fields(none@) =~= Seq::empty());
                none
            },
        };
        let merged = add_missing(explicit, &headers);
        (Sent { headers, params }, merged)
    }

    /// Sets a dynamic header.
    pub fn handle_set_dynamic_header(&mut self, name: String, value_type: String, initial_value: Option<
        String,
    >)
        ensures
            dynamic_of(final(self).dynamic_headers@) == without_name(
                dynamic_of(old(self).dynamic_headers@),
                name@,
            ).push(
                (
                    name@,
                    DynamicView {
                        kind: value_type@,
                        counter: 0,
                        token: text_opt(initial_value),
                    },
                ),
            ),
            *final(self) == (AdapterState {
                dynamic_headers: final(self).dynamic_headers,
                ..*old(self)
            }),
            old(self).is_valid() ==> final(self).is_valid(),
            old(self).can_count() ==> final(self).can_count(),
    {
        let mut held: Vec<(String, DynamicValue)> = Vec::new();
        std::mem::swap(&mut held, &mut self.dynamic_headers);
        self.dynamic_headers = set_dynamic(
            held,
            name,
            DynamicValue { kind: value_type, counter: 0, token: initial_value },
        );
    }

    /// Sets a dynamic parameter.
    pub fn handle_set_dynamic_param(&mut self, name: String, value_type: String)
        ensures
            dynamic_of(final(self).dynamic_params@) == without_name(
                dynamic_of(old(self).dynamic_params@),
                name@,
            ).push((name@, DynamicView { kind: value_type@, counter: 0, token: None })),
            *final(self) == (AdapterState {
                dynamic_params: final(self).dynamic_params,
                ..*old(self)
            }),
            old(self).is_valid() ==> final(self).is_valid(),
            old(self).can_count() ==> final(self).can_count(),
    {
        let mut held: Vec<(String, DynamicValue)> = Vec::new();
        std::mem::swap(&mut held, &mut self.dynamic_params);
        self.dynamic_params = set_dynamic(
            held,
            name,
            DynamicValue { kind: value_type, counter: 0, token: None },
        );
    }

    /// Forgets the dynamic headers and parameters.
    pub fn handle_clear_dynamic(&mut self)
        ensures
            final(self).dynamic_headers@.len() == 0,
            final(self).dynamic_params@.len() == 0,
            *final(self) == (AdapterState {
                dynamic_headers: final(self).dynamic_headers,
                dynamic_params: final(self).dynamic_params,
                ..*old(self)
            }),
    {
        self.dynamic_headers = Vec::new();
        self.dynamic_params = Vec::new();
    }

    fn remember_type(&mut self, path: String, content_type: String)
        ensures
            fields(final(self).content_types@) == with_field(
                fields(old(self).content_types@),
                path@,
                content_type@,
            ),
            *final(self) == (AdapterState {
                content_types: final(self).content_types,
                ..*old(self)
            }),
            old(self).is_valid() ==> final(self).is_valid(),
    {
        set_field(&mut self.content_types, path, content_type);
    }

    /// Reads an `init` command: a client for the server, with nothing configured but its URL.
    pub fn handle_init(server_url: &str, timeout_ms: Option<u64>) -> (r: AdapterStep)
        ensures
            is_init_step(server_url@, timeout_ms, r),
    {
        let base_url = match normal_url(server_url) {
            Ok(url) => url,
            Err(m) => return AdapterStep::Done(
                AdapterOutput::Error(error_output("init", None, ErrorCode::InvalidArgument, m)),
            ),
        };
        let mut config = ClientConfig::default();
        config.base_url = base_url;
        match Client::from_config(config) {
            Ok(client) => {
                assert(fields(client.default_headers@).len() == 0);
                AdapterStep::Start { client, timeout_ms }
            },
            Err(e) => AdapterStep::Done(AdapterOutput::Error(error_to_output("init", None, &e))),
        }
    }

    /// Starts anew with a client that was made, and says what it can do.
    pub fn finish_init(&mut self, timeout_ms: Option<u64>, client_version: String) -> (r: AdapterOutput)
        ensures
            final(self).initialized,
            final(self).is_fresh(
                match timeout_ms {
                    Some(n) => n,
                    None => 30_000,
                },
            ),
            reports(
                r,
                Ok(
                    SuccessReport {
                        client_name: Some("durable-streams-client-rust"@),
                        client_version: Some(client_version@),
                        features: Some(
                            FeatureFlags {
                                sse: true,
                                long_poll: true,
                                auto_mode: true,
                                batching: false,
                                streaming: true,
                                dynamic_headers: true,
                                strict_zero_validation: true,
                            },
                        ),
                        ..bare("init"@)
                    },
                ),
            ),
    {
        self.initialized = true;
        self.timeout_ms = match timeout_ms {
            Some(n) => n,
            None => 30_000,
        };
        self.content_types = Vec::new();
        self.producers = Vec::new();
        self.dynamic_headers = Vec::new();
        self.dynamic_params = Vec::new();
        let mut result = empty_success("init");
        result.client_name = Some("durable-streams-client-rust".to_owned());
        result.client_version = Some(client_version);
        result.features = Some(
            FeatureFlags {
                sse: true,
                long_poll: true,
                auto_mode: true,
                batching: false,
                streaming: true,
                dynamic_headers: true,
                strict_zero_validation: true,
            },
        );
        AdapterOutput::Success(result)
    }

    /// Reads a `create` command.
    pub fn handle_create(&self, params: CreateParams) -> (r: AdapterStep)
        ensures
            is_create_step(*self, params, r),
    {
        if !self.initialized {
            return without_client("create");
        }
        let content_type = match params.content_type {
            Some(t) => t,
            None => "application/octet-stream".to_owned(),
        };
        let request = CreateStreamRequest {
            content_type,
            ttl_seconds: params.ttl_seconds,
            expires_at: params.expires_at,
            closed: match params.closed {
                Some(c) => c,
                None => false,
            },
            body: encode_opt(params.data),
            options: plain_options(params.headers),
        };
        AdapterStep::Call(AdapterCall::Create { path: params.path, request })
    }

    /// Reads a `connect` command.
    pub fn handle_connect(&self, path: String, headers: Option<Vec<(String, String)>>) -> (r: AdapterStep)
        ensures
            is_connect_step(*self, path@, headers, r),
    {
        if !self.initialized {
            return without_client("connect");
        }
        AdapterStep::Call(
            AdapterCall::Connect { path, request: ConnectRequest { options: plain_options(headers) } },
        )
    }

    /// Reads a `head` command.
    pub fn handle_head(&self, path: String, headers: Option<Vec<(String, String)>>) -> (r: AdapterStep)
        ensures
            is_head_step(*self, path@, headers, r),
    {
        if !self.initialized {
            return without_client("head");
        }
        AdapterStep::Call(
            AdapterCall::Head { path, request: HeadRequest { options: plain_options(headers) } },
        )
    }

    /// Reads a `delete` command.
    pub fn handle_delete(&self, path: String, headers: Option<Vec<(String, String)>>) -> (r: AdapterStep)
        ensures
            is_delete_step(*self, path@, headers, r),
    {
        if !self.initialized {
            return without_client("delete");
        }
        AdapterStep::Call(
            AdapterCall::Delete { path, request: DeleteRequest { options: plain_options(headers) } },
        )
    }

    /// Reads a `close` command.
    pub fn handle_close(&self, path: String, data: Option<String>, content_type: Option<String>) -> (r:
        AdapterStep)
        ensures
            is_close_step(*self, path@, data, content_type, r),
    {
        if !self.initialized {
            return without_client("close");
        }
        let content_type = match content_type {
            Some(t) => Some(t),
            None => get_field(&self.content_types, path.as_str()),
        };
        let request = CloseStreamRequest {
            body: encode_opt(data),
            content_type,
            producer: None,
            options: plain_options(None),
        };
        AdapterStep::Call(AdapterCall::Close { path, request })
    }

    fn type_or_default(&self, path: &str) -> (r: String)
        ensures
            r@ == type_or_bytes(self.type_of(path@)),
    {
        match get_field(&self.content_types, path) {
            Some(t) => t,
            None => "application/octet-stream".to_owned(),
        }
    }

    /// Reads an `append` command. The dynamic values go on even where the data is no base64.
    pub fn handle_append(&mut self, params: AppendParams, now_millis: i64) -> (r: AdapterStep)
        requires
            old(self).can_count(),
        ensures
            is_append_step(*old(self), params, now_millis as int, r),
            if old(self).initialized {
                went_on(*old(self), *final(self))
            } else {
                *final(self) == *old(self)
            },
    {
        if !self.initialized {
            return without_client("append");
        }
        let (sent, merged) = self.resolve_dynamic(params.headers, now_millis);
        let binary = match params.binary {
            Some(b) => b,
            None => false,
        };
        let body = if binary {
            match base64_decode(params.data.as_str()) {
                Ok(body) => body,
                Err(m) => return AdapterStep::Done(
                    AdapterOutput::Error(error_output("append", None, ErrorCode::ParseError, m)),
                ),
            }
        } else {
            params.data.as_str().as_bytes_vec()
        };
        let producer = match params.producer_id {
            Some(producer_id) => Some(
                ProducerRequest {
                    producer_id,
                    producer_epoch: match params.producer_epoch {
                        Some(n) => n,
                        None => 0,
                    },
                    producer_seq: match params.producer_seq {
                        Some(n) => n,
                        None => 0,
                    },
                },
            ),
            None => None,
        };
        let request = AppendRequest {
            body,
            content_type: Some(self.type_or_default(params.path.as_str())),
            stream_seq: match params.seq {
                Some(n) => Some(i64_text(n)),
                None => None,
            },
            producer,
            options: RequestOptions { headers: merged, query: Vec::new() },
        };
        AdapterStep::Call(AdapterCall::Append { path: params.path, request, sent })
    }

    /// Reads a `read` command.
    pub fn handle_read(&mut self, params: ReadParams, now_millis: i64) -> (r: AdapterStep)
        requires
            old(self).can_count(),
        ensures
            is_read_step(*old(self), params, now_millis as int, r),
            if old(self).initialized {
                went_on(*old(self), *final(self))
            } else {
                *final(self) == *old(self)
            },
    {
        if !self.initialized {
            return without_client("read");
        }
        let (sent, merged) = self.resolve_dynamic(params.headers, now_millis);
        let live = read_live(&params.live);
        let millis = match params.timeout_ms {
            Some(n) => n,
            None => self.timeout_ms,
        };
        let request = ReadRequest {
            offset: params.offset,
            live,
            timeout: Some(Span::from_millis(millis)),
            max_chunks: params.max_chunks,
            wait_for_up_to_date: match params.wait_for_up_to_date {
                Some(b) => b,
                None => false,
            },
            cursor: None,
            if_none_match: None,
            options: RequestOptions { headers: merged, query: Vec::new() },
        };
        AdapterStep::Call(AdapterCall::Read { path: params.path, request, sent })
    }

    fn knows_producer(&self, key: &str) -> (r: bool)
        ensures
            r == has_producer(*self, key@),
    {
        let mut i: usize = 0;
        while i < self.producers.len()
            invariant
                i <= self.producers@.len(),
                forall|j: int| 0 <= j < i ==> (#[trigger] self.producers@[j])@ != key@,
            decreases self.producers.len() - i,
        {
            if same(self.producers[i].as_str(), key) {
                assert(texts(self.producers@)[i as int] == key@);
                return true;
            }
            i += 1;
        }
        assert forall|j: int| 0 <= j < texts(self.producers@).len() implies texts(
            self.producers@,
        )[j] != key@ by {
            assert(self.producers@[j]@ != key@);
        }
        false
    }

    /// Says how a producer is made for a command.
    ///
    /// # Errors
    ///
    /// Returns why the producer is rejected.
    pub fn create_producer(&self, params: ProducerParams) -> (r: Result<ProducerSetup, Error>)
        ensures
            match r {
                Ok(setup) => producer_rejection(params) is None && is_setup(*self, params, setup),
                Err(e) => producer_rejection(params) matches Some(t) && e matches Error::InvalidArgument(
                    m,
                ) && m@ == t,
            },
    {
        let config = IdempotentProducerConfig {
            producer_id: params.producer_id,
            epoch: match params.epoch {
                Some(n) => n,
                None => 0,
            },
            auto_claim: match params.auto_claim {
                Some(b) => b,
                None => false,
            },
            max_batch_bytes: 1024 * 1024,
            max_batch_items: None,
        };
        match config.validate() {
            Ok(_) => {},
            Err(e) => return Err(e),
        }
        let content_type = self.type_or_default(params.path.as_str());
        Ok(
            ProducerSetup {
                path: params.path,
                content_type,
                options: plain_options(params.headers),
                config,
            },
        )
    }

    /// Finds the producer of a command, or says how it is made and remembers it.
    ///
    /// # Errors
    ///
    /// Returns why the producer is rejected.
    pub fn get_or_create_producer(&mut self, params: ProducerParams) -> (r: Result<ProducerChoice, Error>)
        ensures
            match r {
                Ok(choice) => is_choice(*old(self), params, choice) && (has_producer(
                    *old(self),
                    key_of(params),
                ) || producer_rejection(params) is None),
                Err(e) => !has_producer(*old(self), key_of(params)) && (producer_rejection(
                    params,
                ) matches Some(t) && e matches Error::InvalidArgument(m) && m@ == t),
            },
            if has_producer(*old(self), key_of(params)) || producer_rejection(params) is Some {
                *final(self) == *old(self)
            } else {
                has_added(*old(self), *final(self), key_of(params))
            },
    {
        let epoch: i64 = match params.epoch {
            Some(n) => n,
            None => 0,
        };
        let key = producer_key(params.path.as_str(), params.producer_id.as_str(), epoch);
        if self.knows_producer(key.as_str()) {
            return Ok(ProducerChoice::Known { key });
        }
        match self.create_producer(params) {
            Ok(setup) => {
                let ghost before = self.producers@;
                self.producers.push(key.clone());
                assert(texts(self.producers@) =~= texts(before).push(key@));
                Ok(ProducerChoice::New { key, setup })
            },
            Err(e) => Err(e),
        }
    }

    /// Reads an `idempotent-append` command.
    pub fn handle_idempotent_append(&mut self, params: ProducerParams, data: String) -> (r: AdapterStep)
        ensures
            is_producer_append_step(*old(self), params, data@, r),
            keeps_producer(*old(self), *final(self), params),
    {
        if !self.initialized {
            return without_client("idempotent-append");
        }
        let path = params.path.clone();
        match self.get_or_create_producer(params) {
            Ok(producer) => {
                let data = data.as_str().as_bytes_vec();
                AdapterStep::Call(AdapterCall::ProducerAppend { path, producer, data })
            },
            Err(e) => AdapterStep::Done(
                AdapterOutput::Error(
                    error_to_output("idempotent-append", Some(path.as_str()), &e),
                ),
            ),
        }
    }

    /// Reads an `idempotent-close` command.
    pub fn handle_idempotent_close(&mut self, params: ProducerParams, data: Option<String>) -> (r: AdapterStep)
        ensures
            is_producer_close_step(*old(self), params, data, r),
            keeps_producer(*old(self), *final(self), params),
    {
        if !self.initialized {
            return without_client("idempotent-close");
        }
        let path = params.path.clone();
        match self.get_or_create_producer(params) {
            Ok(producer) => AdapterStep::Call(
                AdapterCall::ProducerClose { path, producer, data: encode_opt(data) },
            ),
            Err(e) => AdapterStep::Done(
                AdapterOutput::Error(error_to_output("idempotent-close", Some(path.as_str()), &e)),
            ),
        }
    }

    /// Reads an `idempotent-append-batch` command.
    pub fn handle_idempotent_append_batch(&self, params: ProducerParams, items: Vec<BatchItem>) -> (r:
        AdapterStep)
        ensures
            is_producer_batch_step(*self, params, items@, r),
    {
        if !self.initialized {
            return without_client("idempotent-append-batch");
        }
        let path = params.path.clone();
        match self.create_producer(params) {
            Ok(setup) => AdapterStep::Call(
                AdapterCall::ProducerAppendBatch { path, setup, items: encode_items(items) },
            ),
            Err(e) => AdapterStep::Done(
                AdapterOutput::Error(
                    error_to_output("idempotent-append-batch", Some(path.as_str()), &e),
                ),
            ),
        }
    }

    /// Gives a producer up.
    pub fn handle_idempotent_detach(&mut self, path: &str, producer_id: &str, epoch: Option<i64>) -> (r:
        AdapterOutput)
        ensures
            reports(r, Ok(SuccessReport { status: Some(200), ..bare("idempotent-detach"@) })),
            texts(final(self).producers@) == without_text(
                texts(old(self).producers@),
                producer_key_spec(path@, producer_id@, epoch_or_zero(epoch) as int),
            ),
            *final(self) == (AdapterState { producers: final(self).producers, ..*old(self) }),
    {
        let epoch: i64 = match epoch {
            Some(n) => n,
            None => 0,
        };
        let key = producer_key(path, producer_id, epoch);
        let mut held: Vec<String> = Vec::new();
        std::mem::swap(&mut held, &mut self.producers);
        self.producers = remove_text(held, key.as_str());
        let mut result = empty_success("idempotent-detach");
        result.status = Some(200);
        AdapterOutput::Success(result)
    }

    /// Reads a command.
    pub fn handle_command(&mut self, command: Command, now_millis: i64) -> (r: AdapterStep)
        requires
            old(self).can_count(),
            command matches Command::Validate { target } ==> sizes_fit(target),
        ensures
            is_step(*old(self), command, now_millis as int, r),
            is_after(*old(self), command, *final(self)),
            old(self).is_valid() ==> final(self).is_valid(),
    {
        let ghost before = *self;
        let ghost given = command;
        let step = match command {
            Command::Init { server_url, timeout_ms } => AdapterState::handle_init(
                server_url.as_str(),
                timeout_ms,
            ),
            Command::Create(params) => self.handle_create(params),
            Command::Connect { path, headers } => self.handle_connect(path, headers),
            Command::Append(params) => self.handle_append(params, now_millis),
            Command::Read(params) => self.handle_read(params, now_millis),
            Command::Head { path, headers } => self.handle_head(path, headers),
            Command::Delete { path, headers } => self.handle_delete(path, headers),
            Command::Close { path, data, content_type } => self.handle_close(
                path,
                data,
                content_type,
            ),
            Command::Shutdown => AdapterStep::Done(
                AdapterOutput::Success(empty_success("shutdown")),
            ),
            Command::SetDynamicHeader { name, value_type, initial_value } => {
                self.handle_set_dynamic_header(name, value_type, initial_value);
                AdapterStep::Done(AdapterOutput::Success(empty_success("set-dynamic-header")))
            },
            Command::SetDynamicParam { name, value_type } => {
                self.handle_set_dynamic_param(name, value_type);
                AdapterStep::Done(AdapterOutput::Success(empty_success("set-dynamic-param")))
            },
            Command::ClearDynamic => {
                self.handle_clear_dynamic();
                assert(dynamic_of(self.dynamic_headers@) =~= Seq::empty());
                assert(dynamic_of(self.dynamic_params@) =~= Seq::empty());
                AdapterStep::Done(AdapterOutput::Success(empty_success("clear-dynamic")))
            },
            Command::Validate { target } => AdapterStep::Done(handle_validate(target)),
            Command::IdempotentAppend { producer, data } => self.handle_idempotent_append(
                producer,
                data,
            ),
            Command::IdempotentAppendBatch { producer, items } =>
            self.handle_idempotent_append_batch(producer, items),
            Command::IdempotentClose { producer, data } => self.handle_idempotent_close(
                producer,
                data,
            ),
            Command::IdempotentDetach { path, producer_id, epoch } => AdapterStep::Done(
                self.handle_idempotent_detach(path.as_str(), producer_id.as_str(), epoch),
            ),
        };
        proof {
            if before.is_valid() {
                law_adapter_stays_valid(before, given, *self);
            }
        }
        step
    }
}

fn encode_items(items: Vec<BatchItem>) -> (r: Vec<Vec<u8>>)
    ensures
        byte_lists(r@) == item_bytes(items@),
{
    let mut out: Vec<Vec<u8>> = Vec::new();
    let ghost all = item_bytes(items@);
    assert(byte_lists(out@) =~= all.take(0));
    for item in it: items
        invariant
            it.seq() == items@,
            all == item_bytes(items@),
            byte_lists(out@) == all.take(it.index() as int),
    {
        let ghost i = it.index() as int;
        let ghost before = out@;
        assert(item == items@[i]);
        let data = item.into_data();
        out.push(data.as_str().as_bytes_vec());
        assert(byte_lists(out@) =~= byte_lists(before).push(all[i]));
        assert(all.take(i + 1) =~= all.take(i).push(all[i]));
    }
    assert(all.take(all.len() as int) =~= all);
    out
}

fn remove_text(list: Vec<String>, t: &str) -> (r: Vec<String>)
    ensures
        texts(r@) == without_text(texts(list@), t@),
{
    let mut kept: Vec<String> = Vec::new();
    let ghost all = texts(list@);
    assert(all.take(0) =~= Seq::<Seq<char>>::empty());
    assert(texts(kept@) =~= without_text(all.take(0), t@));
    for entry in it: list
        invariant
            it.seq() == list@,
            all == texts(list@),
            texts(kept@) == without_text(all.take(it.index() as int), t@),
    {
        let ghost i = it.index() as int;
        let ghost before = kept@;
        let ghost e = entry@;
        assert(entry == list@[i]);
        assert(all.take(i + 1).drop_last() =~= all.take(i));
        assert(all.take(i + 1).last() == e);
        if !same(entry.as_str(), t) {
            kept.push(entry);
            assert(texts(kept@) =~= texts(before).push(e));
        }
    }
    assert(all.take(all.len() as int) =~= all);
    kept
}

/// Reads a `validate` command.
pub fn handle_validate(target: ValidateTarget) -> (r: AdapterOutput)
    requires
        sizes_fit(target),
    ensures
        reports(r, validate_report(target)),
{
    match validate_target(target) {
        Ok(_) => AdapterOutput::Success(empty_success("validate")),
        Err(m) => AdapterOutput::Error(
            error_output("validate", None, ErrorCode::InvalidArgument, m),
        ),
    }
}

/// Whether a content type was remembered for a path, and nothing else changed.
pub open spec fn remembers(before: AdapterState, after: AdapterState, path: Seq<char>, content_type: Option<Seq<char>>) -> bool {
    match content_type {
        Some(t) => {
            &&& fields(after.content_types@) == with_field(fields(before.content_types@), path, t)
            &&& before.is_valid() ==> after.is_valid()
            &&& after == (AdapterState { content_types: after.content_types, ..before })
        },
        None => after == before,
    }
}

/// What a `create` command reports.
pub open spec fn create_report(path: Seq<char>, reply: Result<CreateStreamResponse, Error>) -> Result<
    SuccessReport,
    ErrorReport,
> {
    match reply {
        Ok(v) => Ok(
            SuccessReport {
                status: Some(v.status),
                offset: text_opt(v.next_offset),
                stream_closed: Some(v.stream_closed),
                ..bare("create"@)
            },
        ),
        Err(e) => Err(error_report("create"@, Some(path), e)),
    }
}

/// What a `connect` command reports.
pub open spec fn connect_report(path: Seq<char>, reply: Result<ConnectResponse, Error>) -> Result<
    SuccessReport,
    ErrorReport,
> {
    match reply {
        Ok(v) => Ok(
            SuccessReport {
                status: Some(v.status),
                offset: text_opt(v.offset),
                stream_closed: Some(v.stream_closed),
                ..bare("connect"@)
            },
        ),
        Err(e) => Err(error_report("connect"@, Some(path), e)),
    }
}

/// What a `head` command reports.
pub open spec fn head_report(path: Seq<char>, reply: Result<HeadResponse, Error>) -> Result<
    SuccessReport,
    ErrorReport,
> {
    match reply {
        Ok(v) => Ok(
            SuccessReport {
                status: Some(v.status),
                offset: text_opt(v.offset),
                stream_closed: Some(v.stream_closed),
                content_type: text_opt(v.content_type),
                ..bare("head"@)
            },
        ),
        Err(e) => Err(error_report("head"@, Some(path), e)),
    }
}

/// What an `append` command reports.
pub open spec fn append_report(
    path: Seq<char>,
    headers: Fields,
    params: Fields,
    reply: Result<AppendResponse, Error>,
) -> Result<SuccessReport, ErrorReport> {
    match reply {
        Ok(v) => Ok(
            SuccessReport {
                status: Some(200),
                offset: text_opt(v.next_offset),
                stream_closed: Some(v.stream_closed),
                headers_sent: shown(headers),
                params_sent: shown(params),
                ..bare("append"@)
            },
        ),
        Err(e) => Err(error_report("append"@, Some(path), e)),
    }
}

/// What a `read` command reports.
pub open spec fn read_outcome(
    path: Seq<char>,
    live: LiveMode,
    offset: Option<Seq<char>>,
    headers: Fields,
    params: Fields,
    reply: Result<ReadResponse, Error>,
) -> Result<SuccessReport, ErrorReport> {
    match reply {
        Ok(v) => Ok(
            SuccessReport {
                status: Some(v.status),
                offset: Some(v.next_offset@),
                up_to_date: Some(v.up_to_date),
                stream_closed: Some(v.stream_closed),
                headers_sent: shown(headers),
                params_sent: shown(params),
                chunks: Some(shown_chunks(v.chunks@)),
                ..bare("read"@)
            },
        ),
        Err(e) => Err(read_report(path, live, offset, e)),
    }
}

/// What a `delete` command reports.
pub open spec fn delete_report(path: Seq<char>, reply: Result<DeleteResponse, Error>) -> Result<
    SuccessReport,
    ErrorReport,
> {
    match reply {
        Ok(_) => Ok(SuccessReport { status: Some(200), ..bare("delete"@) }),
        Err(e) => Err(error_report("delete"@, Some(path), e)),
    }
}

impl AdapterState {
    /// Turns the reply to a `create` command into a result.
    pub fn finish_create(
        &mut self,
        path: String,
        content_type: String,
        reply: Result<CreateStreamResponse, Error>,
    ) -> (r: AdapterOutput)
        ensures
            match reply {
                Ok(_) => remembers(*old(self), *final(self), path@, Some(content_type@)),
                Err(_) => *final(self) == *old(self),
            },
            reports(r, create_report(path@, reply)),
    {
        match reply {
            Ok(v) => {
                self.remember_type(path, content_type);
                let mut result = empty_success("create");
                result.status = Some(v.status);
                result.offset = v.next_offset;
                result.stream_closed = Some(v.stream_closed);
                AdapterOutput::Success(result)
            },
            Err(e) => AdapterOutput::Error(error_to_output("create", Some(path.as_str()), &e)),
        }
    }

    /// Turns the reply to a `connect` command into a result.
    pub fn finish_connect(&mut self, path: String, reply: Result<ConnectResponse, Error>) -> (r:
        AdapterOutput)
        ensures
            match reply {
                Ok(v) => remembers(*old(self), *final(self), path@, text_opt(v.content_type)),
                Err(_) => *final(self) == *old(self),
            },
            reports(r, connect_report(path@, reply)),
    {
        match reply {
            Ok(v) => {
                if let Some(t) = v.content_type {
                    self.remember_type(path, t);
                }
                let mut result = empty_success("connect");
                result.status = Some(v.status);
                result.offset = v.offset;
                result.stream_closed = Some(v.stream_closed);
                AdapterOutput::Success(result)
            },
            Err(e) => AdapterOutput::Error(error_to_output("connect", Some(path.as_str()), &e)),
        }
    }

    /// Turns the reply to a `head` command into a result.
    pub fn finish_head(&mut self, path: String, reply: Result<HeadResponse, Error>) -> (r: AdapterOutput)
        ensures
            match reply {
                Ok(v) => remembers(*old(self), *final(self), path@, text_opt(v.content_type)),
                Err(_) => *final(self) == *old(self),
            },
            reports(r, head_report(path@, reply)),
    {
        match reply {
            Ok(v) => {
                if let Some(t) = &v.content_type {
                    self.remember_type(path, t.clone());
                }
                let mut result = empty_success("head");
                result.status = Some(v.status);
                result.offset = v.offset;
                result.stream_closed = Some(v.stream_closed);
                result.content_type = v.content_type;
                AdapterOutput::Success(result)
            },
            Err(e) => AdapterOutput::Error(error_to_output("head", Some(path.as_str()), &e)),
        }
    }
}

/// Fields as a result shows them: left out where there are none.
pub open spec fn shown(list: Fields) -> Option<Fields> {
    if list.len() == 0 {
        None
    } else {
        Some(list)
    }
}

fn show(list: Vec<(String, String)>) -> (r: Option<Vec<(String, String)>>)
    ensures
        fields_opt(r) == shown(fields(list@)),
{
    if list.len() == 0 {
        None
    } else {
        Some(list)
    }
}

/// Turns the reply to an `append` command into a result.
pub fn finish_append(path: &str, sent: Sent, reply: Result<AppendResponse, Error>) -> (r: AdapterOutput)
    ensures
        reports(r, append_report(path@, fields(sent.headers@), fields(sent.params@), reply)),
{
    match reply {
        Ok(v) => {
            let mut result = empty_success("append");
            result.status = Some(200);
            result.offset = v.next_offset;
            result.stream_closed = Some(v.stream_closed);
            result.headers_sent = show(sent.headers);
            result.params_sent = show(sent.params);
            AdapterOutput::Success(result)
        },
        Err(e) => AdapterOutput::Error(error_to_output("append", Some(path), &e)),
    }
}

/// Chunks as a result shows them: as text, each with the offset that follows it.
pub open spec fn shown_chunks(chunks: Seq<ReadChunk>) -> Seq<(Seq<char>, Option<Seq<char>>)> {
    chunks.map_values(|c: ReadChunk| (lossy_text(c.data@), Some(c.next_offset@)))
}

fn show_chunks(chunks: Vec<ReadChunk>) -> (r: Vec<ReadChunkResult>)
    ensures
        chunk_results(r@) == shown_chunks(chunks@),
{
    let mut out: Vec<ReadChunkResult> = Vec::new();
    let ghost all = shown_chunks(chunks@);
    assert(chunk_results(out@) =~= all.take(0));
    for chunk in it: chunks
        invariant
            it.seq() == chunks@,
            all == shown_chunks(chunks@),
            chunk_results(out@) == all.take(it.index() as int),
    {
        let ghost i = it.index() as int;
        let ghost before = out@;
        assert(chunk == chunks@[i]);
        let data = utf8_lossy(chunk.data.as_slice());
        out.push(ReadChunkResult { data, offset: Some(chunk.next_offset) });
        assert(chunk_results(out@) =~= chunk_results(before).push(all[i]));
        assert(all.take(i + 1) =~= all.take(i).push(all[i]));
    }
    assert(all.take(all.len() as int) =~= all);
    out
}

/// Turns the reply to a `read` command into a result.
pub fn finish_read(
    path: &str,
    live: LiveMode,
    offset: Option<&str>,
    sent: Sent,
    reply: Result<ReadResponse, Error>,
) -> (r: AdapterOutput)
    ensures
        reports(
            r,
            read_outcome(
                path@,
                live,
                str_opt(offset),
                fields(sent.headers@),
                fields(sent.params@),
                reply,
            ),
        ),
{
    match reply {
        Ok(v) => {
            let mut result = empty_success("read");
            result.status = Some(v.status);
            result.offset = Some(v.next_offset);
            result.up_to_date = Some(v.up_to_date);
            result.stream_closed = Some(v.stream_closed);
            result.headers_sent = show(sent.headers);
            result.params_sent = show(sent.params);
            result.chunks = Some(show_chunks(v.chunks));
            AdapterOutput::Success(result)
        },
        Err(e) => AdapterOutput::Error(read_error_output(path, live, offset, &e)),
    }
}

/// Turns the reply to a `delete` command into a result.
pub fn finish_delete(path: &str, reply: Result<DeleteResponse, Error>) -> (r: AdapterOutput)
    ensures
        reports(r, delete_report(path@, reply)),
{
    match reply {
        Ok(_) => {
            let mut result = empty_success("delete");
            result.status = Some(200);
            AdapterOutput::Success(result)
        },
        Err(e) => AdapterOutput::Error(error_to_output("delete", Some(path), &e)),
    }
}

/// What a command that closes a stream reports.
pub open spec fn close_report(
    command_type: Seq<char>,
    path: Seq<char>,
    reply: Result<CloseStreamResponse, Error>,
) -> Result<SuccessReport, ErrorReport> {
    match reply {
        Ok(v) => Ok(
            SuccessReport {
                status: Some(200),
                final_offset: Some(v.final_offset@),
                stream_closed: Some(v.stream_closed),
                ..bare(command_type)
            },
        ),
        Err(e) => Err(error_report(command_type, Some(path), e)),
    }
}

fn finish_closing(command_type: &'static str, path: &str, reply: Result<CloseStreamResponse, Error>) -> (r:
    AdapterOutput)
    ensures
        reports(r, close_report(command_type@, path@, reply)),
{
    match reply {
        Ok(v) => {
            let mut result = empty_success(command_type);
            result.status = Some(200);
            result.final_offset = Some(v.final_offset);
            result.stream_closed = Some(v.stream_closed);
            AdapterOutput::Success(result)
        },
        Err(e) => AdapterOutput::Error(error_to_output(command_type, Some(path), &e)),
    }
}

/// Turns the reply to a `close` command into a result.
pub fn finish_close(path: &str, reply: Result<CloseStreamResponse, Error>) -> (r: AdapterOutput)
    ensures
        reports(r, close_report("close"@, path@, reply)),
{
    finish_closing("close", path, reply)
}

/// Turns what a producer's close came to into a result.
pub fn finish_idempotent_close(path: &str, reply: Result<CloseStreamResponse, Error>) -> (r: AdapterOutput)
    ensures
        reports(r, close_report("idempotent-close"@, path@, reply)),
{
    finish_closing("idempotent-close", path, reply)
}

/// What a command that appends through a producer reports.
pub open spec fn producer_report(
    command_type: Seq<char>,
    path: Seq<char>,
    reply: Result<AppendResponse, Error>,
) -> Result<SuccessReport, ErrorReport> {
    match reply {
        Ok(_) => Ok(SuccessReport { status: Some(200), ..bare(command_type) }),
        Err(e) => Err(error_report(command_type, Some(path), e)),
    }
}

fn finish_producer(command_type: &'static str, path: &str, reply: Result<AppendResponse, Error>) -> (r:
    AdapterOutput)
    ensures
        reports(r, producer_report(command_type@, path@, reply)),
{
    match reply {
        Ok(_) => {
            let mut result = empty_success(command_type);
            result.status = Some(200);
            AdapterOutput::Success(result)
        },
        Err(e) => AdapterOutput::Error(error_to_output(command_type, Some(path), &e)),
    }
}

/// Turns what a producer's append came to into a result.
pub fn finish_idempotent_append(path: &str, reply: Result<AppendResponse, Error>) -> (r: AdapterOutput)
    ensures
        reports(r, producer_report("idempotent-append"@, path@, reply)),
{
    finish_producer("idempotent-append", path, reply)
}

/// Turns what a producer's batch came to into a result.
pub fn finish_idempotent_append_batch(path: &str, reply: Result<AppendResponse, Error>) -> (r:
    AdapterOutput)
    ensures
        reports(r, producer_report("idempotent-append-batch"@, path@, reply)),
{
    finish_producer("idempotent-append-batch", path, reply)
}

/// Whether an output ends the adapter.
pub fn is_shutdown(output: &AdapterOutput) -> (r: bool)
    ensures
        r == (output matches AdapterOutput::Success(s) && s.result_type@ == "shutdown"@),
{
    match output {
        AdapterOutput::Success(s) => same(s.result_type, "shutdown"),
        AdapterOutput::Error(_) => false,
    }
}

/// A character as it stands in a line of output: one that ends lines is written as an escape.
pub open spec fn escaped_char(c: char) -> Seq<char> {
    if c == '\u{85}' {
        "\\u0085"@
    } else if c == '\u{2028}' {
        "\\u2028"@
    } else if c == '\u{2029}' {
        "\\u2029"@
    } else {
        seq![c]
    }
}

/// A text as it stands in a line of output.
pub open spec fn escaped(s: Seq<char>) -> Seq<char>
    decreases s.len(),
{
    if s.len() == 0 {
        s
    } else {
        escaped(s.drop_last()) + escaped_char(s.last())
    }
}

/// Escapes the characters that end lines.
pub fn escape_line_ends(s: &str) -> (r: String)
    ensures
        r@ == escaped(s@),
{
    let chars = chars_of(s);
    let mut out = String::new();
    let mut i: usize = 0;
    assert(s@.take(0) =~= Seq::<char>::empty());
    assert(out@ =~= escaped(s@.take(0)));
    while i < chars.len()
        invariant
            i <= chars@.len(),
            chars@ == s@,
            out@ == escaped(s@.take(i as int)),
        decreases chars.len() - i,
    {
        let c = chars[i];
        let ghost before = out@;
        assert(s@.take(i + 1).drop_last() =~= s@.take(i as int));
        assert(s@.take(i + 1).last() == c);
        if c == '\u{85}' {
            out = joined(out.as_str(), "\\u0085");
        } else if c == '\u{2028}' {
            out = joined(out.as_str(), "\\u2028");
        } else if c == '\u{2029}' {
            out = joined(out.as_str(), "\\u2029");
        } else {
            out.push(c);
            assert(out@ =~= before + seq![c]);
        }
        i += 1;
    }
    assert(s@.take(s@.len() as int) =~= s@);
    out
}

proof fn lemma_escapes()
    ensures
        forall|c: char, i: int|
            0 <= i < escaped_char(c).len() ==> !ends_line(#[trigger] escaped_char(c)[i]),
{
    reveal_strlit("\\u0085");
    reveal_strlit("\\u2028");
    reveal_strlit("\\u2029");
}

/// Whether a character beyond ASCII ends a line.
pub open spec fn ends_line(c: char) -> bool {
    c == '\u{85}' || c == '\u{2028}' || c == '\u{2029}'
}

/// An escaped line holds no character beyond ASCII that ends a line.
pub proof fn law_output_is_one_line(s: Seq<char>)
    ensures
        forall|i: int| 0 <= i < escaped(s).len() ==> !ends_line(#[trigger] escaped(s)[i]),
    decreases s.len(),
{
    lemma_escapes();
    if s.len() > 0 {
        law_output_is_one_line(s.drop_last());
        let a = escaped(s.drop_last());
        let b = escaped_char(s.last());
        assert forall|i: int| 0 <= i < escaped(s).len() implies !ends_line(#[trigger] escaped(s)[i]) by {
            if i < a.len() {
                assert(escaped(s)[i] == a[i]);
            } else {
                assert(escaped(s)[i] == b[i - a.len()]);
            }
        }
    }
}

/// A command never leaves anything named twice.
pub proof fn law_adapter_stays_valid(s: AdapterState, command: Command, after: AdapterState)
    requires
        s.is_valid(),
        is_after(s, command, after),
    ensures
        after.is_valid(),
{
    let headers = dynamic_of(s.dynamic_headers@);
    let params = dynamic_of(s.dynamic_params@);
    match command {
        Command::Append(_) | Command::Read(_) => {
            let h = dynamic_of(after.dynamic_headers@);
            let p = dynamic_of(after.dynamic_params@);
            if s.initialized {
                assert(forall|i: int| 0 <= i < headers.len() ==> (#[trigger] h[i]).0 == headers[i].0);
                assert(forall|i: int| 0 <= i < params.len() ==> (#[trigger] p[i]).0 == params[i].0);
            }
        },
        Command::SetDynamicHeader { name, .. } => lemma_set_value_distinct(headers, name@),
        Command::SetDynamicParam { name, .. } => lemma_set_value_distinct(params, name@),
        Command::IdempotentAppend { producer, .. } => lemma_kept_producer(s, after, producer),
        Command::IdempotentClose { producer, .. } => lemma_kept_producer(s, after, producer),
        Command::IdempotentDetach { path, producer_id, epoch } => {
            lemma_without_text(
                texts(s.producers@),
                producer_key_spec(path@, producer_id@, epoch_or_zero(epoch) as int),
            );
        },
        _ => {},
    }
}

proof fn lemma_set_value_distinct(list: Dynamic, name: Seq<char>)
    requires
        has_distinct_values(list),
    ensures
        forall|value: DynamicView|
            has_distinct_values(#[trigger] without_name(list, name).push((name, value))),
{
    let rest = without_name(list, name);
    lemma_without_name(list, name);
    assert forall|value: DynamicView| has_distinct_values(#[trigger] rest.push((name, value))) by {
        let r = rest.push((name, value));
        assert forall|i: int, j: int| 0 <= i < j < r.len() implies (#[trigger] r[i]).0 != (
        #[trigger] r[j]).0 by {
            assert(r[i] == rest[i]);
            if j < rest.len() {
                assert(r[j] == rest[j]);
            }
        }
    }
}

proof fn lemma_kept_producer(before: AdapterState, after: AdapterState, p: ProducerParams)
    requires
        before.is_valid(),
        keeps_producer(before, after, p),
    ensures
        after.is_valid(),
{
    if has_added(before, after, key_of(p)) && !has_producer(before, key_of(p)) {
        let a = texts(before.producers@);
        let b = texts(after.producers@);
        assert forall|i: int, j: int| 0 <= i < b.len() && 0 <= j < b.len() && i != j implies b[i]
            != b[j] by {
            if i < a.len() {
                assert(a.contains(a[i]));
            }
            if j < a.len() {
                assert(a.contains(a[j]));
            }
        }
    }
}

/// A producer that was given up is not known any more.
pub proof fn law_detached_producer_is_gone(s: AdapterState, path: String, producer_id: String, epoch: Option<i64>, after: AdapterState)
    requires
        is_after(s, Command::IdempotentDetach { path, producer_id, epoch }, after),
    ensures
        !has_producer(after, producer_key_spec(path@, producer_id@, epoch_or_zero(epoch) as int)),
{
    lemma_without_text(
        texts(s.producers@),
        producer_key_spec(path@, producer_id@, epoch_or_zero(epoch) as int),
    );
}

proof fn lemma_without_text(list: Seq<Seq<char>>, t: Seq<char>)
    ensures
        !without_text(list, t).contains(t),
        forall|x: Seq<char>| #[trigger] without_text(list, t).contains(x) ==> list.contains(x),
        list.no_duplicates() ==> without_text(list, t).no_duplicates(),
    decreases list.len(),
{
    if list.len() > 0 {
        lemma_without_text(list.drop_last(), t);
        let most = list.drop_last();
        let rest = without_text(most, t);
        let all = without_text(list, t);
        assert forall|x: Seq<char>| #[trigger] all.contains(x) implies list.contains(x) by {
            let i = choose|i: int| 0 <= i < all.len() && all[i] == x;
            if i < rest.len() {
                assert(rest.contains(rest[i]));
                let k = choose|k: int| 0 <= k < most.len() && most[k] == x;
                assert(list[k] == x);
            } else {
                assert(list[list.len() - 1] == x);
            }
        }
        if list.no_duplicates() {
            assert forall|i: int, j: int| 0 <= i < most.len() && 0 <= j < most.len() && i != j implies
                most[i] != most[j] by {
                assert(list[i] != list[j]);
            }
            assert forall|i: int| 0 <= i < rest.len() implies #[trigger] rest[i] != list.last() by {
                assert(rest.contains(rest[i]));
                let k = choose|k: int| 0 <= k < most.len() && most[k] == rest[i];
                assert(list[k] != list[list.len() - 1]);
            }
        }
        if list.last() != t {
            assert forall|i: int| 0 <= i < rest.push(list.last()).len() implies rest.push(
                list.last(),
            )[i] != t by {
                if i < rest.len() {
                    assert(rest[i] != t) by {
                        assert(rest.contains(rest[i]));
                    }
                }
            }
        }
    }
}

/// The same producer is used again: a command that follows another one for the same stream,
/// producer and epoch goes to the producer that the first one made.
pub proof fn law_producer_is_reused(
    s: AdapterState,
    first: ProducerParams,
    after: AdapterState,
    second: ProducerParams,
    data: Seq<char>,
    r: AdapterStep,
)
    requires
        s.initialized,
        producer_rejection(first) is None,
        keeps_producer(s, after, first),
        key_of(second) == key_of(first),
        is_producer_append_step(after, second, data, r),
    ensures
        r matches AdapterStep::Call(AdapterCall::ProducerAppend { producer, .. })
            && producer matches ProducerChoice::Known { key } && key@ == key_of(first),
{
    if !has_producer(s, key_of(first)) {
        let n = texts(s.producers@).len() as int;
        assert(texts(after.producers@)[n] == key_of(first));
    }
}

/// Headers that a command gives are sent as they are, whatever dynamic headers there are.
pub proof fn law_given_headers_win(
    s: AdapterState,
    headers: Option<Vec<(String, String)>>,
    now_millis: int,
    name: Seq<char>,
)
    requires
        field_of(fields_or_none(headers), name) is Some,
    ensures
        field_of(merged_headers(s, headers, now_millis), name) == field_of(
            fields_or_none(headers),
            name,
        ),
{
    lemma_missing_keeps(
        fields_or_none(headers),
        values_of(dynamic_of(s.dynamic_headers@), now_millis),
        name,
    );
}

} // verus!
