//! Application-facing types for the ergonomic client API.

use vstd::prelude::*;
use vstd::std_specs::convert::FromSpecImpl;
use crate::client::model::{
    AppendResponse, CloseStreamResponse, CreateStreamResponse, HeadResponse, ReadChunk, ReadPayload,
    ReadResponse,
};
use crate::text::same;

verus! {

/// Typed stream offset used by the ergonomic API.
///
/// This hides protocol sentinels like `"-1"` and `"now"` from normal callers
/// while keeping offsets explicit and resumable.
#[derive(Debug, Clone, PartialEq, Eq, Hash)]
pub enum Offset {
    /// Start from the beginning of the stream.
    Beginning,
    /// Start from the current tail of the stream.
    Now,
    /// Resume from a previously returned offset token.
    At(String),
}

impl Default for Offset {
    fn default() -> (r: Self)
        ensures
            r == Offset::Beginning,
    {
        Offset::Beginning
    }
}

/// What an offset is.
pub enum OffsetView {
    Beginning,
    Now,
    At(Seq<char>),
}

impl View for Offset {
    type V = OffsetView;

    open spec fn view(&self) -> OffsetView {
        match self {
            Offset::Beginning => OffsetView::Beginning,
            Offset::Now => OffsetView::Now,
            Offset::At(t) => OffsetView::At(t@),
        }
    }
}

/// The offset that a protocol token stands for.
pub open spec fn offset_of(token: Seq<char>) -> OffsetView {
    if token == ""@ || token == "-1"@ {
        OffsetView::Beginning
    } else if token == "now"@ {
        OffsetView::Now
    } else {
        OffsetView::At(token)
    }
}

/// The protocol token of an offset.
pub open spec fn token_of(offset: OffsetView) -> Seq<char> {
    match offset {
        OffsetView::Beginning => "-1"@,
        OffsetView::Now => "now"@,
        OffsetView::At(t) => t,
    }
}

impl Offset {
    /// Create an offset at a specific position.
    #[must_use]
    pub fn at(value: &str) -> (r: Self)
        ensures
            r@ == OffsetView::At(value@),
    {
        Offset::At(value.to_owned())
    }

    /// Parse a protocol offset token.
    #[must_use]
    pub fn parse(value: &str) -> (r: Self)
        ensures
            r@ == offset_of(value@),
    {
        if same(value, "") || same(value, "-1") {
            Offset::Beginning
        } else if same(value, "now") {
            Offset::Now
        } else {
            Offset::At(value.to_owned())
        }
    }

    /// Convert this offset to the protocol token sent on the wire.
    #[must_use]
    pub fn as_str(&self) -> (r: &str)
        ensures
            r@ == token_of(self@),
    {
        match self {
            Offset::Beginning => "-1",
            Offset::Now => "now",
            Offset::At(value) => value.as_str(),
        }
    }

    /// The protocol token as a string of its own.
    pub fn to_string(&self) -> (r: String)
        ensures
            r@ == token_of(self@),
    {
        self.as_str().to_owned()
    }
}

/// The offset that a token handed over stands for.
pub open spec fn offset_from(value: String) -> Offset {
    if value@ == ""@ || value@ == "-1"@ {
        Offset::Beginning
    } else if value@ == "now"@ {
        Offset::Now
    } else {
        Offset::At(value)
    }
}

impl From<String> for Offset {
    fn from(value: String) -> (r: Self) {
        if same(value.as_str(), "") || same(value.as_str(), "-1") {
            Offset::Beginning
        } else if same(value.as_str(), "now") {
            Offset::Now
        } else {
            Offset::At(value)
        }
    }
}

impl FromSpecImpl<String> for Offset {
    open spec fn obeys_from_spec() -> bool {
        true
    }

    open spec fn from_spec(value: String) -> Self {
        offset_from(value)
    }
}

/// The offset for an optional token.
pub open spec fn offset_opt(value: Option<String>) -> Option<Offset> {
    match value {
        Some(v) => Some(offset_from(v)),
        None => None,
    }
}

fn to_offset(value: Option<String>) -> (r: Option<Offset>)
    ensures
        r == offset_opt(value),
{
    match value {
        Some(v) => Some(Offset::from(v)),
        None => None,
    }
}

/// Metadata for an existing stream.
#[derive(Debug, Clone, PartialEq, Eq)]
pub struct StreamInfo {
    pub next_offset: Option<Offset>,
    pub content_type: Option<String>,
    pub ttl_seconds: Option<u64>,
    pub expires_at: Option<String>,
    pub closed: bool,
    pub etag: Option<String>,
}

/// Result of creating a stream through the ergonomic API.
#[derive(Debug, Clone, PartialEq, Eq)]
pub struct CreateOutcome {
    pub created: bool,
    pub next_offset: Option<Offset>,
    pub closed: bool,
}

/// Result of appending to a stream through the ergonomic API.
#[derive(Debug, Clone, PartialEq, Eq)]
pub struct AppendOutcome {
    pub next_offset: Option<Offset>,
}

/// Result of closing a stream through the ergonomic API.
#[derive(Debug, Clone, PartialEq, Eq)]
pub struct CloseOutcome {
    pub final_offset: Offset,
}

/// One chunk of stream data in the ergonomic read API.
#[derive(Debug, Clone, PartialEq, Eq)]
pub struct StreamChunk {
    pub data: Vec<u8>,
    pub offset: Offset,
}

/// Collected read result in the ergonomic API.
#[derive(Debug, Clone, PartialEq, Eq)]
pub struct ReadPage {
    pub next_offset: Offset,
    pub up_to_date: bool,
    pub closed: bool,
    pub cursor: Option<String>,
    pub content_type: Option<String>,
    pub etag: Option<String>,
    pub chunks: Vec<StreamChunk>,
    pub payload: Option<ReadPayload>,
}

impl From<HeadResponse> for StreamInfo {
    fn from(value: HeadResponse) -> (r: Self) {
        StreamInfo {
            next_offset: to_offset(value.offset),
            content_type: value.content_type,
            ttl_seconds: value.ttl_seconds,
            expires_at: value.expires_at,
            closed: value.stream_closed,
            etag: value.etag,
        }
    }
}

impl FromSpecImpl<HeadResponse> for StreamInfo {
    open spec fn obeys_from_spec() -> bool {
        true
    }

    open spec fn from_spec(value: HeadResponse) -> Self {
        StreamInfo {
            next_offset: offset_opt(value.offset),
            content_type: value.content_type,
            ttl_seconds: value.ttl_seconds,
            expires_at: value.expires_at,
            closed: value.stream_closed,
            etag: value.etag,
        }
    }
}

impl From<CreateStreamResponse> for CreateOutcome {
    fn from(value: CreateStreamResponse) -> (r: Self) {
        CreateOutcome {
            created: value.status == 201,
            next_offset: to_offset(value.next_offset),
            closed: value.stream_closed,
        }
    }
}

impl FromSpecImpl<CreateStreamResponse> for CreateOutcome {
    open spec fn obeys_from_spec() -> bool {
        true
    }

    open spec fn from_spec(value: CreateStreamResponse) -> Self {
        CreateOutcome {
            created: value.status == 201,
            next_offset: offset_opt(value.next_offset),
            closed: value.stream_closed,
        }
    }
}

impl From<AppendResponse> for AppendOutcome {
    fn from(value: AppendResponse) -> (r: Self) {
        AppendOutcome { next_offset: to_offset(value.next_offset) }
    }
}

impl FromSpecImpl<AppendResponse> for AppendOutcome {
    open spec fn obeys_from_spec() -> bool {
        true
    }

    open spec fn from_spec(value: AppendResponse) -> Self {
        AppendOutcome { next_offset: offset_opt(value.next_offset) }
    }
}

impl From<CloseStreamResponse> for CloseOutcome {
    fn from(value: CloseStreamResponse) -> (r: Self) {
        CloseOutcome { final_offset: Offset::from(value.final_offset) }
    }
}

impl FromSpecImpl<CloseStreamResponse> for CloseOutcome {
    open spec fn obeys_from_spec() -> bool {
        true
    }

    open spec fn from_spec(value: CloseStreamResponse) -> Self {
        CloseOutcome { final_offset: offset_from(value.final_offset) }
    }
}

impl From<ReadChunk> for StreamChunk {
    fn from(value: ReadChunk) -> (r: Self) {
        StreamChunk { data: value.data, offset: Offset::from(value.next_offset) }
    }
}

impl FromSpecImpl<ReadChunk> for StreamChunk {
    open spec fn obeys_from_spec() -> bool {
        true
    }

    open spec fn from_spec(value: ReadChunk) -> Self {
        StreamChunk { data: value.data, offset: offset_from(value.next_offset) }
    }
}

/// The chunk that a protocol chunk becomes.
pub open spec fn stream_chunk_of(value: ReadChunk) -> StreamChunk {
    StreamChunk { data: value.data, offset: offset_from(value.next_offset) }
}

/// The chunks that protocol chunks become.
pub open spec fn stream_chunks_of(chunks: Seq<ReadChunk>) -> Seq<StreamChunk> {
    chunks.map_values(|c: ReadChunk| stream_chunk_of(c))
}

impl ReadPage {
    /// The page that a response becomes.
    pub fn of_response(value: ReadResponse) -> (r: Self)
        ensures
            r.next_offset == offset_from(value.next_offset),
            r.up_to_date == value.up_to_date,
            r.closed == value.stream_closed,
            r.cursor == value.cursor,
            r.content_type == value.content_type,
            r.etag == value.etag,
            r.chunks@ == stream_chunks_of(value.chunks@),
            r.payload == value.payload,
    {
        let ghost all = value.chunks@;
        let mut chunks: Vec<StreamChunk> = Vec::new();
        for chunk in it: value.chunks
            invariant
                it.seq() == all,
                chunks@ == stream_chunks_of(all.take(it.index() as int)),
        {
            chunks.push(StreamChunk::from(chunk));
            assert(chunks@ =~= stream_chunks_of(all.take(it.index() as int + 1)));
        }
        assert(all.take(all.len() as int) =~= all);
        assert(chunks@ =~= stream_chunks_of(all));
        ReadPage {
            next_offset: Offset::from(value.next_offset),
            up_to_date: value.up_to_date,
            closed: value.stream_closed,
            cursor: value.cursor,
            content_type: value.content_type,
            etag: value.etag,
            chunks,
            payload: value.payload,
        }
    }
}

/// Writing an offset and reading it gives it back, unless it holds a sentinel's token.
pub proof fn law_offset_round_trip(offset: OffsetView)
    requires
        offset matches OffsetView::At(t) ==> t != ""@ && t != "-1"@ && t != "now"@,
    ensures
        offset_of(token_of(offset)) == offset,
{
    reveal_strlit("");
    reveal_strlit("-1");
    reveal_strlit("now");
    if offset is Now {
        assert("now"@.len() == 3);
        assert("-1"@.len() == 2);
    }
}

/// Reading a token and writing it gives the token back; the empty token becomes "-1".
pub proof fn law_token_round_trip(token: Seq<char>)
    ensures
        token_of(offset_of(token)) == if token == ""@ {
            "-1"@
        } else {
            token
        },
{
}

} // verus!
