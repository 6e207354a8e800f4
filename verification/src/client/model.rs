//! Protocol-shaped request and response models.

use vstd::prelude::*;
use crate::fields::{fields, has_distinct_names};
use crate::time::Span;

verus! {

/// Shared per-request headers and query parameters.
#[derive(Debug, Clone, PartialEq, Eq, Default)]
pub struct RequestOptions {
    pub headers: Vec<(String, String)>,
    pub query: Vec<(String, String)>,
}

impl RequestOptions {
    /// Whether no header and no parameter is named twice.
    pub open spec fn is_valid(self) -> bool {
        has_distinct_names(fields(self.headers@)) && has_distinct_names(fields(self.query@))
    }
}

/// Producer headers for idempotent appends.
#[derive(Debug, Clone, PartialEq, Eq)]
pub struct ProducerRequest {
    pub producer_id: String,
    pub producer_epoch: i64,
    pub producer_seq: i64,
}

/// Read mode.
#[derive(Debug, Clone, Copy, PartialEq, Eq, Structural)]
pub enum LiveMode {
    CatchUp,
    LongPoll,
    Sse,
    Auto,
}

impl Default for LiveMode {
    fn default() -> (r: Self)
        ensures
            r == LiveMode::CatchUp,
    {
        LiveMode::CatchUp
    }
}

impl LiveMode {
    /// The name of the mode in diagnostics.
    pub open spec fn name(self) -> Seq<char> {
        match self {
            LiveMode::CatchUp => "catch_up"@,
            LiveMode::LongPoll => "long_poll"@,
            LiveMode::Sse => "sse"@,
            LiveMode::Auto => "auto"@,
        }
    }
}

/// The name of a read mode in diagnostics.
pub fn live_mode_name(mode: LiveMode) -> (r: &'static str)
    ensures
        r@ == mode.name(),
{
    match mode {
        LiveMode::CatchUp => "catch_up",
        LiveMode::LongPoll => "long_poll",
        LiveMode::Sse => "sse",
        LiveMode::Auto => "auto",
    }
}

/// Response body representation. JSON values are held as compact text.
#[derive(Debug, Clone, PartialEq, Eq)]
pub enum ReadPayload {
    Bytes(Vec<u8>),
    Json(Vec<String>),
}

/// Single read chunk for collected read responses or subscriptions.
#[derive(Debug, Clone, PartialEq, Eq)]
pub struct ReadChunk {
    pub data: Vec<u8>,
    pub next_offset: String,
}

/// What a chunk holds.
#[verifier::ext_equal]
pub struct ChunkView {
    pub data: Seq<u8>,
    pub next_offset: Seq<char>,
}

impl View for ReadChunk {
    type V = ChunkView;

    open spec fn view(&self) -> ChunkView {
        ChunkView { data: self.data@, next_offset: self.next_offset@ }
    }
}

/// What the chunks hold.
pub open spec fn chunk_views(chunks: Seq<ReadChunk>) -> Seq<ChunkView> {
    chunks.map_values(|c: ReadChunk| c@)
}

/// Copies bytes.
pub fn copy_bytes(data: &Vec<u8>) -> (r: Vec<u8>)
    ensures
        r@ == data@,
{
    let mut r: Vec<u8> = Vec::new();
    let mut i: usize = 0;
    while i < data.len()
        invariant
            i <= data@.len(),
            r@ == data@.take(i as int),
        decreases data.len() - i,
    {
        r.push(data[i]);
        i += 1;
        assert(r@ =~= data@.take(i as int));
    }
    assert(data@.take(data@.len() as int) =~= data@);
    r
}

impl ReadChunk {
    /// A copy of the chunk.
    pub fn copy(&self) -> (r: Self)
        ensures
            r@ == self@,
    {
        ReadChunk { data: copy_bytes(&self.data), next_offset: self.next_offset.clone() }
    }
}

/// Event yielded by subscriptions.
#[derive(Debug, Clone, PartialEq, Eq)]
pub struct SubscriptionEvent {
    pub chunk: Option<ReadChunk>,
    pub next_offset: String,
    pub up_to_date: bool,
    pub stream_closed: bool,
    pub cursor: Option<String>,
}

/// Request to create a stream.
#[derive(Debug, Clone, PartialEq, Eq)]
pub struct CreateStreamRequest {
    pub content_type: String,
    pub ttl_seconds: Option<u64>,
    pub expires_at: Option<String>,
    pub closed: bool,
    pub body: Option<Vec<u8>>,
    pub options: RequestOptions,
}

/// Create response.
#[derive(Debug, Clone, PartialEq, Eq)]
pub struct CreateStreamResponse {
    pub status: u16,
    pub next_offset: Option<String>,
    pub stream_closed: bool,
}

/// Request to connect to a known stream.
#[derive(Debug, Clone, PartialEq, Eq, Default)]
pub struct ConnectRequest {
    pub options: RequestOptions,
}

/// Connect response.
#[derive(Debug, Clone, PartialEq, Eq)]
pub struct ConnectResponse {
    pub status: u16,
    pub offset: Option<String>,
    pub content_type: Option<String>,
    pub stream_closed: bool,
}

/// Request to append to a stream.
#[derive(Debug, Clone, PartialEq, Eq)]
pub struct AppendRequest {
    pub body: Vec<u8>,
    pub content_type: Option<String>,
    pub stream_seq: Option<String>,
    pub producer: Option<ProducerRequest>,
    pub options: RequestOptions,
}

/// Append response.
#[derive(Debug, Clone, PartialEq, Eq)]
pub struct AppendResponse {
    pub status: u16,
    pub next_offset: Option<String>,
    pub stream_closed: bool,
    pub producer_epoch: Option<i64>,
    pub producer_seq: Option<i64>,
}

/// Read request.
#[derive(Debug, Clone, PartialEq, Eq)]
pub struct ReadRequest {
    pub offset: Option<String>,
    pub live: LiveMode,
    pub timeout: Option<Span>,
    pub max_chunks: Option<usize>,
    pub wait_for_up_to_date: bool,
    pub cursor: Option<String>,
    pub if_none_match: Option<String>,
    pub options: RequestOptions,
}

impl Default for ReadRequest {
    fn default() -> (r: Self)
        ensures
            r.offset is None,
            r.live == LiveMode::CatchUp,
            r.timeout is None,
            r.max_chunks is None,
            !r.wait_for_up_to_date,
            r.cursor is None,
            r.if_none_match is None,
            r.options.headers@.len() == 0,
            r.options.query@.len() == 0,
    {
        ReadRequest {
            offset: None,
            live: LiveMode::CatchUp,
            timeout: None,
            max_chunks: None,
            wait_for_up_to_date: false,
            cursor: None,
            if_none_match: None,
            options: RequestOptions { headers: Vec::new(), query: Vec::new() },
        }
    }
}

/// Collected read response.
#[derive(Debug, Clone, PartialEq, Eq)]
pub struct ReadResponse {
    pub status: u16,
    pub next_offset: String,
    pub up_to_date: bool,
    pub stream_closed: bool,
    pub cursor: Option<String>,
    pub content_type: Option<String>,
    pub etag: Option<String>,
    pub chunks: Vec<ReadChunk>,
    pub payload: Option<ReadPayload>,
}

/// HEAD request.
#[derive(Debug, Clone, PartialEq, Eq, Default)]
pub struct HeadRequest {
    pub options: RequestOptions,
}

/// HEAD response.
#[derive(Debug, Clone, PartialEq, Eq)]
pub struct HeadResponse {
    pub status: u16,
    pub offset: Option<String>,
    pub content_type: Option<String>,
    pub ttl_seconds: Option<u64>,
    pub expires_at: Option<String>,
    pub stream_closed: bool,
    pub etag: Option<String>,
}

/// DELETE request.
#[derive(Debug, Clone, PartialEq, Eq, Default)]
pub struct DeleteRequest {
    pub options: RequestOptions,
}

/// DELETE response.
#[derive(Debug, Clone, PartialEq, Eq)]
pub struct DeleteResponse {
    pub status: u16,
}

/// Close request.
#[derive(Debug, Clone, PartialEq, Eq, Default)]
pub struct CloseStreamRequest {
    pub body: Option<Vec<u8>>,
    pub content_type: Option<String>,
    pub producer: Option<ProducerRequest>,
    pub options: RequestOptions,
}

/// Close response.
#[derive(Debug, Clone, PartialEq, Eq)]
pub struct CloseStreamResponse {
    pub status: u16,
    pub final_offset: String,
    pub stream_closed: bool,
}

/// Subscription request.
#[derive(Debug, Clone, PartialEq, Eq)]
pub struct SubscribeRequest {
    pub read: ReadRequest,
}

} // verus!
