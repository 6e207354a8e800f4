//! Reads: catch-up, long-poll and Server-Sent Events.

use vstd::prelude::*;
use vstd::utf8::encode_utf8;
use crate::bytes::append_slice;
use crate::decimal::decimal;
use crate::encoding::{lemma_encode_ascii_char, lemma_encode_concat};
use crate::handlers::common::{ReadResult, ReplyView, StreamOffset, StreamResponse, flag_text, reply};
use crate::json::{comma_separated, json_document, wrapped};
use crate::protocol::cursor::{self, CursorGenerator, next_cursor};
use crate::protocol::error::{Error, Result};
use crate::protocol::json_mode::{
    body_messages, contents, document_messages, is_json_content_type, wrap_read_iter,
};
use crate::protocol::offset::Offset;
use crate::protocol::sse::{
    ControlPayload, control_frame, control_json, data_frames, format_control_frame, format_data_frames, format_keepalive_frame,
    is_binary_content_type,
};
use crate::text::{join_spec, joined, joined3, joined5, same, str_opt, text_opt, texts};
use crate::time::Span;

verus! {

/// Query parameters for GET requests
#[derive(Debug)]
pub struct ReadQuery {
    /// Starting offset (None when not provided; defaults vary by mode)
    pub offset: Option<String>,
    /// Live mode: "long-poll" for long-polling
    pub live: Option<String>,
    /// Cursor echoed from previous long-poll response. It is accepted but not used: it exists
    /// for CDN intermediaries to collapse identical polling requests.
    pub cursor: Option<String>,
}

/// How a stream is read.
#[derive(Debug, Clone, Copy, PartialEq, Eq, Structural)]
pub enum ReadMode {
    /// Immediate read, returns all available data.
    CatchUp,
    /// Waits for new data at tail.
    LongPoll,
    /// Streaming Server-Sent Events.
    Sse,
}

/// Whether a result is where a query begins to read.
pub open spec fn is_offset_of(r: Result<String>, query: ReadQuery) -> bool {
    match (query.offset, query.live, r) {
        (Some(o), _, Ok(t)) => t@ == o@,
        (None, None, Ok(t)) => t@ == "-1"@,
        (None, Some(live), Err(Error::InvalidHeader { header, reason })) => header@ == "offset"@
            && reason@ == "offset query parameter is required for live="@ + live@ + " mode"@,
        _ => false,
    }
}

/// Resolve the offset: live modes require an explicit one, catch-up begins at the start.
pub fn resolve_offset(query: &ReadQuery) -> (r: Result<String>)
    ensures
        is_offset_of(r, *query),
{
    match (&query.offset, &query.live) {
        (Some(o), _) => Ok(o.clone()),
        (None, None) => Ok("-1".to_owned()),
        (None, Some(live)) => Err(
            Error::InvalidHeader {
                header: "offset".to_owned(),
                reason: joined3(
                    "offset query parameter is required for live=",
                    live.as_str(),
                    " mode",
                ),
            },
        ),
    }
}

/// Whether a result is the way of reading that a query asks for.
pub open spec fn is_mode_of(r: Result<ReadMode>, query: ReadQuery) -> bool {
    match query.live {
        None => r == Ok::<ReadMode, Error>(ReadMode::CatchUp),
        Some(live) => if live@ == "long-poll"@ {
            r == Ok::<ReadMode, Error>(ReadMode::LongPoll)
        } else if live@ == "sse"@ {
            r == Ok::<ReadMode, Error>(ReadMode::Sse)
        } else {
            r matches Err(Error::InvalidHeader { header, reason }) && header@ == "live"@ && reason@
                == "unsupported live mode: "@ + live@
        },
    }
}

/// The way of reading that a query asks for.
pub fn read_mode(query: &ReadQuery) -> (r: Result<ReadMode>)
    ensures
        is_mode_of(r, *query),
{
    match &query.live {
        None => Ok(ReadMode::CatchUp),
        Some(live) => {
            if same(live.as_str(), "long-poll") {
                Ok(ReadMode::LongPoll)
            } else if same(live.as_str(), "sse") {
                Ok(ReadMode::Sse)
            } else {
                Err(
                    Error::InvalidHeader {
                        header: "live".to_owned(),
                        reason: joined("unsupported live mode: ", live.as_str()),
                    },
                )
            }
        },
    }
}

/// The tag of a read: where it began, where it ended, and whether nothing will follow.
pub open spec fn etag_spec(start: Seq<char>, read: ReadResult) -> Seq<char> {
    "\""@ + start + ":"@ + read.next_offset.token@ + (if read.is_final() {
        ":c\""@
    } else {
        "\""@
    })
}

/// Generate `ETag` from read result.
///
/// Format: `"{start_offset}:{end_offset}"` or `"{start_offset}:{end_offset}:c"` if closed at tail.
pub fn generate_etag(start_offset: &str, read_result: &ReadResult) -> (r: String)
    ensures
        r@ == etag_spec(start_offset@, *read_result),
{
    let end: &'static str = if read_result.closed && read_result.at_tail {
        ":c\""
    } else {
        "\""
    };
    joined5("\"", start_offset, ":", read_result.next_offset.token.as_str(), end)
}

/// The body of a read: a JSON array of the messages of a JSON stream, the messages one after
/// another of any other.
pub open spec fn body_of(messages: Seq<Seq<u8>>, content_type: Seq<char>) -> Seq<u8> {
    if content_type == "application/json"@ {
        wrapped(messages)
    } else {
        messages.flatten()
    }
}

/// Build response body from read result messages.
pub fn build_body(read_result: &ReadResult, content_type: &str) -> (r: Vec<u8>)
    ensures
        r@ == body_of(contents(read_result.messages@), content_type@),
{
    if is_json_content_type(content_type) {
        return wrap_read_iter(&read_result.messages);
    }
    let messages = &read_result.messages;
    let mut out: Vec<u8> = Vec::new();
    let mut i: usize = 0;
    let ghost all = contents(messages@);
    assert(all.take(0) =~= Seq::<Seq<u8>>::empty());
    assert(out@ =~= all.take(0).flatten());
    while i < messages.len()
        invariant
            i <= messages@.len(),
            all == contents(messages@),
            out@ == all.take(i as int).flatten(),
        decreases messages.len() - i,
    {
        append_slice(&mut out, messages[i].as_slice());
        proof {
            let t = all.take(i + 1);
            assert(t.drop_last() =~= all.take(i as int));
            assert(t.last() == messages@[i as int]@);
            t.lemma_flatten_and_flatten_alt_are_equivalent();
            all.take(i as int).lemma_flatten_and_flatten_alt_are_equivalent();
        }
        i += 1;
    }
    assert(all.take(all.len() as int) =~= all);
    out
}

/// A 304 Not Modified response.
pub open spec fn not_modified(read: ReadResult) -> ReplyView {
    reply(304).with("Stream-Next-Offset"@, read.next_offset.token@).with(
        "Stream-Up-To-Date"@,
        "true"@,
    )
}

/// A 200 OK response with message data.
pub open spec fn data_reply(
    read: ReadResult,
    content_type: Seq<char>,
    etag: Seq<char>,
    cursor: Option<Seq<char>>,
) -> ReplyView {
    let base = reply(200).with("content-type"@, content_type).with(
        "Stream-Next-Offset"@,
        read.next_offset.token@,
    ).with("Stream-Up-To-Date"@, flag_text(read.at_tail)).with("etag"@, etag).with_closed(
        read.is_final(),
    );
    (match cursor {
        Some(c) => base.with("Stream-Cursor"@, c),
        None => base,
    }).with_body(body_of(contents(read.messages@), content_type))
}

/// A 204 No Content response.
pub open spec fn no_content(token: Seq<char>, closed: bool, cursor: Seq<char>) -> ReplyView {
    reply(204).with("Stream-Next-Offset"@, token).with("Stream-Up-To-Date"@, "true"@).with_closed(
        closed,
    ).with("Stream-Cursor"@, cursor)
}

/// Build a 304 Not Modified response.
fn build_304_response(read_result: &ReadResult) -> (r: StreamResponse)
    ensures
        r@ == not_modified(*read_result),
{
    StreamResponse::new(304).next_offset(read_result.next_offset.token.as_str()).up_to_date(true)
}

/// Build a 200 OK response with message data.
///
/// If `cursor` is `Some`, includes `Stream-Cursor` header (long-poll mode).
fn build_data_response(
    read_result: &ReadResult,
    content_type: &str,
    etag: &str,
    cursor_val: Option<String>,
) -> (r: StreamResponse)
    ensures
        r@ == data_reply(*read_result, content_type@, etag@, text_opt(cursor_val)),
{
    let body = build_body(read_result, content_type);
    let response = StreamResponse::new(200).content_type(content_type).next_offset(
        read_result.next_offset.token.as_str(),
    ).up_to_date(read_result.at_tail).etag(etag).closed_if(read_result.closed && read_result.at_tail);
    match cursor_val {
        Some(c) => response.cursor(c.as_str()).body(body),
        None => response.body(body),
    }
}

/// The cursor after `last` for a place.
pub open spec fn cursor_text(last: u64, place: Offset) -> Seq<char> {
    match next_cursor(last, place) {
        Some(n) => decimal(n as nat),
        None => "0"@,
    }
}

/// What a generator has emitted last after a cursor for a place.
pub open spec fn last_after(last: u64, place: Offset) -> int {
    match next_cursor(last, place) {
        Some(n) => n,
        None => last as int,
    }
}

/// Build a 204 No Content response for long-poll timeout or closed stream.
fn build_204_response(next_offset: &StreamOffset, is_closed: bool, cursors: &mut CursorGenerator) -> (r:
    StreamResponse)
    requires
        old(cursors).last_cursor < u64::MAX,
    ensures
        r@ == no_content(
            next_offset.token@,
            is_closed,
            cursor_text(old(cursors).last_cursor, next_offset.place),
        ),
        final(cursors).last_cursor == last_after(old(cursors).last_cursor, next_offset.place),
{
    let cursor_val = cursor::generate(cursors, &next_offset.place);
    StreamResponse::new(204).next_offset(next_offset.token.as_str()).up_to_date(true).closed_if(
        is_closed,
    ).cursor(cursor_val.as_str())
}

/// Whether a request has the tag of a read already.
pub open spec fn is_unchanged(if_none_match: Option<Seq<char>>, raw_offset: Seq<char>, read: ReadResult) -> bool {
    if_none_match == Some(etag_spec(raw_offset, read))
}

fn matches_etag(if_none_match: Option<&str>, etag: &str) -> (r: bool)
    ensures
        r == (if_none_match matches Some(t) && t@ == etag@),
{
    match if_none_match {
        Some(t) => same(t, etag),
        None => false,
    }
}

/// The answer to a catch-up read.
pub open spec fn catch_up_reply(
    raw_offset: Seq<char>,
    if_none_match: Option<Seq<char>>,
    content_type: Seq<char>,
    read: ReadResult,
) -> ReplyView {
    if is_unchanged(if_none_match, raw_offset, read) {
        not_modified(read)
    } else {
        data_reply(read, content_type, etag_spec(raw_offset, read), None)
    }
}

/// Catch-up mode: answer with all available data, or that nothing has changed.
pub fn read_catch_up(
    raw_offset: &str,
    if_none_match: Option<&str>,
    content_type: &str,
    read_result: &ReadResult,
) -> (r: StreamResponse)
    ensures
        r@ == catch_up_reply(raw_offset@, str_opt(if_none_match), content_type@, *read_result),
{
    let etag = generate_etag(raw_offset, read_result);
    if matches_etag(if_none_match, etag.as_str()) {
        return build_304_response(read_result);
    }
    build_data_response(read_result, content_type, etag.as_str(), None)
}

/// What a long-poll request does after its first read.
#[derive(Debug)]
pub enum LongPollStep {
    /// Answer at once.
    Respond(StreamResponse),
    /// Wait at the tail for data, the end of the stream or the timeout.
    Wait,
}

/// The answer that a long-poll request has after its first read, if it has one, and what the
/// generator of cursors has emitted last then.
pub open spec fn long_poll_reply(
    raw_offset: Seq<char>,
    if_none_match: Option<Seq<char>>,
    content_type: Seq<char>,
    read: ReadResult,
    last: u64,
) -> (Option<ReplyView>, int) {
    let cursor = cursor_text(last, read.next_offset.place);
    let after = last_after(last, read.next_offset.place);
    if is_unchanged(if_none_match, raw_offset, read) {
        (Some(not_modified(read)), last as int)
    } else if read.messages@.len() > 0 {
        (
            Some(data_reply(read, content_type, etag_spec(raw_offset, read), Some(cursor))),
            after,
        )
    } else if read.is_final() {
        (Some(no_content(read.next_offset.token@, true, cursor)), after)
    } else {
        (None, last as int)
    }
}

/// Long-poll mode: wait for new data at tail, return immediately if data exists, if nothing has
/// changed, or if nothing will follow.
pub fn read_long_poll(
    raw_offset: &str,
    if_none_match: Option<&str>,
    content_type: &str,
    read_result: &ReadResult,
    cursors: &mut CursorGenerator,
) -> (r: LongPollStep)
    requires
        old(cursors).last_cursor < u64::MAX,
    ensures
        ({
            let (answer, last) = long_poll_reply(
                raw_offset@,
                str_opt(if_none_match),
                content_type@,
                *read_result,
                old(cursors).last_cursor,
            );
            &&& match answer {
                Some(a) => r matches LongPollStep::Respond(s) && s@ == a,
                None => r is Wait,
            }
            &&& final(cursors).last_cursor == last
        }),
        (is_unchanged(str_opt(if_none_match), raw_offset@, *read_result) || r is Wait)
            ==> *final(cursors) == *old(cursors),
{
    let etag = generate_etag(raw_offset, read_result);
    if matches_etag(if_none_match, etag.as_str()) {
        return LongPollStep::Respond(build_304_response(read_result));
    }
    if read_result.messages.len() > 0 {
        let cursor_val = cursor::generate(cursors, &read_result.next_offset.place);
        return LongPollStep::Respond(
            build_data_response(read_result, content_type, etag.as_str(), Some(cursor_val)),
        );
    }
    if read_result.closed && read_result.at_tail {
        return LongPollStep::Respond(build_204_response(&read_result.next_offset, true, cursors));
    }
    LongPollStep::Wait
}

/// The answer to a long-poll request that was woken.
pub open spec fn wake_reply(tail: Seq<char>, content_type: Seq<char>, read: ReadResult, last: u64) -> ReplyView {
    let cursor = cursor_text(last, read.next_offset.place);
    if read.messages@.len() == 0 {
        no_content(read.next_offset.token@, read.is_final(), cursor)
    } else {
        data_reply(read, content_type, etag_spec(tail, read), Some(cursor))
    }
}

/// Handle wake-up in long-poll mode, after a new read from the tail.
pub fn handle_long_poll_wake(
    tail_token: &str,
    content_type: &str,
    read_result: &ReadResult,
    cursors: &mut CursorGenerator,
) -> (r: StreamResponse)
    requires
        old(cursors).last_cursor < u64::MAX,
    ensures
        r@ == wake_reply(tail_token@, content_type@, *read_result, old(cursors).last_cursor),
        final(cursors).last_cursor == last_after(
            old(cursors).last_cursor,
            read_result.next_offset.place,
        ),
{
    if read_result.messages.len() == 0 {
        return build_204_response(
            &read_result.next_offset,
            read_result.closed && read_result.at_tail,
            cursors,
        );
    }
    let etag = generate_etag(tail_token, read_result);
    let cursor_val = cursor::generate(cursors, &read_result.next_offset.place);
    build_data_response(read_result, content_type, etag.as_str(), Some(cursor_val))
}

/// The answer to a long-poll request whose time is up.
pub open spec fn timeout_reply(read: ReadResult, last: u64) -> ReplyView {
    no_content(
        read.next_offset.token@,
        read.is_final(),
        cursor_text(last, read.next_offset.place),
    )
}

/// Answer a long-poll request whose time is up, or that the server no longer holds: the current
/// position, without data.
pub fn handle_long_poll_timeout(read_result: &ReadResult, cursors: &mut CursorGenerator) -> (r:
    StreamResponse)
    requires
        old(cursors).last_cursor < u64::MAX,
    ensures
        r@ == timeout_reply(*read_result, old(cursors).last_cursor),
        final(cursors).last_cursor == last_after(
            old(cursors).last_cursor,
            read_result.next_offset.place,
        ),
{
    build_204_response(
        &read_result.next_offset,
        read_result.closed && read_result.at_tail,
        cursors,
    )
}

/// The control event of a read, as JSON.
pub open spec fn control_of(read: ReadResult, last: u64) -> Seq<char> {
    control_json(
        read.next_offset.token@,
        if read.is_final() {
            None
        } else {
            Some(cursor_text(last, read.next_offset.place))
        },
        if read.at_tail {
            Some(true)
        } else {
            None
        },
        if read.is_final() {
            Some(true)
        } else {
            None
        },
    )
}

/// What a generator has emitted last after the control event of a read.
pub open spec fn last_after_control(last: u64, read: ReadResult) -> int {
    if read.is_final() {
        last as int
    } else {
        last_after(last, read.next_offset.place)
    }
}

/// Build a `ControlPayload` from a `ReadResult`.
pub fn build_sse_control(read_result: &ReadResult, cursors: &mut CursorGenerator) -> (r: ControlPayload)
    requires
        old(cursors).last_cursor < u64::MAX,
    ensures
        r.json() == control_of(*read_result, old(cursors).last_cursor),
        final(cursors).last_cursor == last_after_control(old(cursors).last_cursor, *read_result),
{
    let is_closed_at_tail = read_result.closed && read_result.at_tail;
    let stream_cursor = if is_closed_at_tail {
        None
    } else {
        Some(cursor::generate(cursors, &read_result.next_offset.place))
    };
    ControlPayload {
        stream_next_offset: read_result.next_offset.token.clone(),
        stream_cursor,
        up_to_date: if read_result.at_tail {
            Some(true)
        } else {
            None
        },
        stream_closed: if is_closed_at_tail {
            Some(true)
        } else {
            None
        },
    }
}

/// The frames of a read: its data, where there is any, then its control event.
pub open spec fn frames_of(read: ReadResult, is_binary: bool, is_json: bool, last: u64) -> Seq<Seq<char>> {
    let data = data_frames(contents(read.messages@), is_binary, is_json);
    (if data.len() == 0 {
        Seq::empty()
    } else {
        seq![data]
    }).push(control_frame(control_of(read, last)))
}

/// What a stream of events sends next, and whether it goes on.
#[derive(Debug)]
pub struct SseStep {
    /// The frames to send, in this order.
    pub frames: Vec<String>,
    /// Whether the stream ends after them.
    pub done: bool,
    /// Whether the time without data begins anew.
    pub restart_idle: bool,
}

/// What happens to a stream of events while it waits at the tail.
#[derive(Debug)]
pub enum SseEvent {
    /// There was news of the stream, and this is what a read from the tail gives.
    Read(ReadResult),
    /// There was news of the stream, but it could not be read.
    ReadFailed,
    /// No news will come any more; this is what a last read from the tail gives, if anything.
    Closed(Option<ReadResult>),
    /// Nothing has been sent for a while.
    KeepAlive,
    /// No data has come for as long as a connection is held.
    Idle,
    /// The server stops.
    Shutdown,
}

/// A stream of Server-Sent Events.
#[derive(Debug)]
pub struct SseSession {
    pub is_binary: bool,
    pub is_json: bool,
    /// Where the next read begins.
    pub tail: StreamOffset,
    /// How long a connection is held without data, in seconds; zero holds it forever.
    pub reconnect_interval_secs: u64,
}

fn frames_for(
    read_result: &ReadResult,
    is_binary: bool,
    is_json: bool,
    cursors: &mut CursorGenerator,
) -> (r: Vec<String>)
    requires
        old(cursors).last_cursor < u64::MAX,
    ensures
        texts(r@) == frames_of(*read_result, is_binary, is_json, old(cursors).last_cursor),
        final(cursors).last_cursor == last_after_control(old(cursors).last_cursor, *read_result),
{
    let mut frames: Vec<String> = Vec::new();
    let data = format_data_frames(&read_result.messages, is_binary, is_json);
    let ghost d = data@;
    if !data.as_str().is_empty() {
        frames.push(data);
    }
    let control = build_sse_control(read_result, cursors);
    frames.push(format_control_frame(&control));
    assert(texts(frames@) =~= frames_of(*read_result, is_binary, is_json, old(cursors).last_cursor));
    frames
}

/// The headers of a stream of events.
pub open spec fn sse_reply(is_binary: bool) -> ReplyView {
    let base = reply(200).with("content-type"@, "text/event-stream"@);
    if is_binary {
        base.with("stream-sse-data-encoding"@, "base64"@)
    } else {
        base
    }
}

/// Whether a stream of events was opened with what the first read gives; `last` and `after` are
/// the cursors emitted last, before and after.
pub open spec fn is_opened(
    r: (SseSession, StreamResponse, SseStep),
    content_type: Seq<char>,
    reconnect_interval_secs: u64,
    read: ReadResult,
    last: u64,
    after: u64,
) -> bool {
    &&& r.0.is_binary == !("text/"@.is_prefix_of(content_type) || content_type
        == "application/json"@)
    &&& r.0.is_json == (content_type == "application/json"@)
    &&& r.0.tail == read.next_offset
    &&& r.0.reconnect_interval_secs == reconnect_interval_secs
    &&& r.1@ == sse_reply(r.0.is_binary)
    &&& texts(r.2.frames@) == frames_of(read, r.0.is_binary, r.0.is_json, last)
    &&& r.2.done == read.is_final()
    &&& r.2.restart_idle
    &&& after == last_after_control(last, read)
}

/// Whether a step is what an event makes of a stream of events; `last` and `after` are the cursors
/// emitted last, before and after.
pub open spec fn is_step_of(
    r: SseStep,
    session: SseSession,
    event: SseEvent,
    last: u64,
    next: SseSession,
    after: u64,
) -> bool {
    match event {
        SseEvent::Read(read) => {
            &&& texts(r.frames@) == frames_of(read, session.is_binary, session.is_json, last)
            &&& r.done == read.is_final()
            &&& r.restart_idle == (read.messages@.len() > 0)
            &&& next == (SseSession { tail: read.next_offset, ..session })
            &&& after == last_after_control(last, read)
        },
        SseEvent::Closed(Some(read)) => {
            &&& texts(r.frames@) == frames_of(read, session.is_binary, session.is_json, last)
            &&& r.done && !r.restart_idle
            &&& next == session
            &&& after == last_after_control(last, read)
        },
        SseEvent::KeepAlive => texts(r.frames@) == seq![":\n\n"@] && !r.done && !r.restart_idle && next
            == session && after == last,
        SseEvent::ReadFailed | SseEvent::Closed(None) | SseEvent::Idle | SseEvent::Shutdown => r.frames@.len()
            == 0 && r.done && !r.restart_idle && next == session && after == last,
    }
}

impl SseSession {
    /// Open a stream of events with what the first read gives.
    pub fn open(
        content_type: &str,
        reconnect_interval_secs: u64,
        read_result: ReadResult,
        cursors: &mut CursorGenerator,
    ) -> (r: (Self, StreamResponse, SseStep))
        requires
            old(cursors).last_cursor < u64::MAX,
        ensures
            is_opened(
                r,
                content_type@,
                reconnect_interval_secs,
                read_result,
                old(cursors).last_cursor,
                final(cursors).last_cursor,
            ),
    {
        let is_binary = is_binary_content_type(content_type);
        let is_json = is_json_content_type(content_type);
        let frames = frames_for(&read_result, is_binary, is_json, cursors);
        let base = StreamResponse::new(200).content_type("text/event-stream");
        let response = if is_binary {
            base.header("stream-sse-data-encoding", "base64")
        } else {
            base
        };
        let done = read_result.closed && read_result.at_tail;
        let session = SseSession {
            is_binary,
            is_json,
            tail: read_result.next_offset,
            reconnect_interval_secs,
        };
        (session, response, SseStep { frames, done, restart_idle: true })
    }

    /// How long the connection is held without data.
    pub fn idle_timeout(&self) -> (r: Option<Span>)
        ensures
            r == if self.reconnect_interval_secs > 0 {
                Some(Span { seconds: self.reconnect_interval_secs, nanos: 0 })
            } else {
                None
            },
    {
        if self.reconnect_interval_secs > 0 {
            Some(Span::from_secs(self.reconnect_interval_secs))
        } else {
            None
        }
    }

    /// What an event makes of the stream.
    pub fn on_event(&mut self, event: SseEvent, cursors: &mut CursorGenerator) -> (r: SseStep)
        requires
            old(cursors).last_cursor < u64::MAX,
        ensures
            is_step_of(
                r,
                *old(self),
                event,
                old(cursors).last_cursor,
                *final(self),
                final(cursors).last_cursor,
            ),
    {
        match event {
            SseEvent::Read(read) => {
                let frames = frames_for(&read, self.is_binary, self.is_json, cursors);
                let done = read.closed && read.at_tail;
                let restart_idle = read.messages.len() > 0;
                self.tail = read.next_offset;
                SseStep { frames, done, restart_idle }
            },
            SseEvent::Closed(Some(read)) => {
                let frames = frames_for(&read, self.is_binary, self.is_json, cursors);
                SseStep { frames, done: true, restart_idle: false }
            },
            SseEvent::KeepAlive => {
                let mut frames: Vec<String> = Vec::new();
                frames.push(format_keepalive_frame().to_owned());
                assert(texts(frames@) =~= seq![":\n\n"@]);
                SseStep { frames, done: false, restart_idle: false }
            },
            SseEvent::ReadFailed | SseEvent::Closed(None) | SseEvent::Idle | SseEvent::Shutdown => {
                SseStep { frames: Vec::new(), done: true, restart_idle: false }
            },
        }
    }
}

/// The messages of bodies that were appended one after another; none where one of them is
/// refused.
pub open spec fn appended(bodies: Seq<Seq<u8>>, content_type: Seq<char>) -> Option<Seq<Seq<u8>>>
    decreases bodies.len(),
{
    if bodies.len() == 0 {
        Some(Seq::empty())
    } else {
        match (appended(bodies.drop_last(), content_type), body_messages(bodies.last(), content_type)) {
            (Some(before), Ok(last)) => Some(before + last),
            _ => None,
        }
    }
}

/// The values of JSON bodies one after another: the elements of an array, or the one value; an
/// empty body has none.
pub open spec fn appended_values(bodies: Seq<Seq<u8>>) -> Seq<Seq<char>>
    decreases bodies.len(),
{
    if bodies.len() == 0 {
        Seq::empty()
    } else {
        let last = bodies.last();
        appended_values(bodies.drop_last()) + match json_document(last) {
            Ok(d) if last.len() > 0 => d.1,
            _ => Seq::empty(),
        }
    }
}

proof fn lemma_flatten_last(messages: Seq<Seq<u8>>, last: Seq<u8>)
    ensures
        messages.push(last).flatten() == messages.flatten() + last,
{
    let all = messages.push(last);
    all.lemma_flatten_and_flatten_alt_are_equivalent();
    messages.lemma_flatten_and_flatten_alt_are_equivalent();
    assert(all.drop_last() =~= messages);
    assert(all.flatten() =~= messages.flatten() + last);
}

/// A read of a stream that is not JSON gives back the bytes that were appended, in order.
pub proof fn law_read_returns_appended_bytes(bodies: Seq<Seq<u8>>, content_type: Seq<char>)
    requires
        content_type != "application/json"@,
    ensures
        appended(bodies, content_type) matches Some(m) && body_of(m, content_type)
            == bodies.flatten(),
    decreases bodies.len(),
{
    if bodies.len() == 0 {
        assert(bodies =~= Seq::<Seq<u8>>::empty());
    } else {
        let most = bodies.drop_last();
        let last = bodies.last();
        law_read_returns_appended_bytes(most, content_type);
        let before = appended(most, content_type)->0;
        assert(bodies =~= most.push(last));
        lemma_flatten_last(most, last);
        if last.len() == 0 {
            assert(before + Seq::<Seq<u8>>::empty() =~= before);
            assert(most.flatten() + last =~= most.flatten());
        } else {
            assert(before + seq![last] =~= before.push(last));
            lemma_flatten_last(before, last);
        }
    }
}

pub proof fn lemma_comma_separated_text(items: Seq<Seq<char>>)
    ensures
        comma_separated(document_messages(items)) == encode_utf8(join_spec(items, ","@)),
    decreases items.len(),
{
    let messages = document_messages(items);
    reveal_strlit(",");
    if items.len() == 0 {
        assert(encode_utf8(Seq::<char>::empty()) =~= Seq::<u8>::empty());
    } else if items.len() > 1 {
        let most = items.drop_last();
        lemma_comma_separated_text(most);
        assert(messages.drop_last() =~= document_messages(most));
        let front = join_spec(most, ","@);
        lemma_encode_concat(front + ","@, items.last());
        lemma_encode_concat(front, ","@);
        assert(","@ =~= seq![',']);
        lemma_encode_ascii_char(',');
        assert(comma_separated(messages) =~= encode_utf8(front) + seq![44u8] + encode_utf8(
            items.last(),
        ));
        assert(encode_utf8(join_spec(items, ","@)) =~= encode_utf8(front) + seq![44u8]
            + encode_utf8(items.last()));
    }
}

/// A read of a JSON stream gives back one array of all values that were appended, in order;
/// arrays that were appended are taken apart.
pub proof fn law_json_read_returns_appended_values(bodies: Seq<Seq<u8>>)
    requires
        forall|i: int|
            0 <= i < bodies.len() ==> (#[trigger] bodies[i]).len() == 0 || json_document(bodies[i]) is Ok,
    ensures
        appended(bodies, "application/json"@) matches Some(m) && body_of(m, "application/json"@)
            == encode_utf8("["@ + join_spec(appended_values(bodies), ","@) + "]"@),
{
    let values = appended_values(bodies);
    lemma_appended_values(bodies);
    lemma_comma_separated_text(values);
    reveal_strlit("[");
    reveal_strlit("]");
    let inner = join_spec(values, ","@);
    lemma_encode_concat("["@ + inner, "]"@);
    lemma_encode_concat("["@, inner);
    assert("["@ =~= seq!['[']);
    assert("]"@ =~= seq![']']);
    lemma_encode_ascii_char('[');
    lemma_encode_ascii_char(']');
}

proof fn lemma_appended_values(bodies: Seq<Seq<u8>>)
    requires
        forall|i: int|
            0 <= i < bodies.len() ==> (#[trigger] bodies[i]).len() == 0 || json_document(bodies[i]) is Ok,
    ensures
        appended(bodies, "application/json"@) == Some(document_messages(appended_values(bodies))),
    decreases bodies.len(),
{
    if bodies.len() == 0 {
        assert(document_messages(appended_values(bodies)) =~= Seq::<Seq<u8>>::empty());
    } else {
        let most = bodies.drop_last();
        assert forall|i: int| 0 <= i < most.len() implies (#[trigger] most[i]).len() == 0
            || json_document(most[i]) is Ok by {
            assert(most[i] == bodies[i]);
        }
        lemma_appended_values(most);
        let body = bodies[bodies.len() - 1];
        let last = if body.len() > 0 {
            (json_document(body)->Ok_0).1
        } else {
            Seq::empty()
        };
        assert(document_messages(appended_values(most)) + document_messages(last)
            =~= document_messages(appended_values(most) + last));
    }
}

/// A client that sends back the tag of a read is told that nothing has changed, as long as reads
/// from the same offset end at the same place and the end of the stream has not come or gone.
pub proof fn law_unchanged_read_is_not_modified(
    raw_offset: Seq<char>,
    first: ReadResult,
    again: ReadResult,
)
    requires
        first.next_offset.token@ == again.next_offset.token@,
        first.is_final() == again.is_final(),
    ensures
        is_unchanged(Some(etag_spec(raw_offset, first)), raw_offset, again),
{
}

/// A tag tells apart reads from one offset that end at different places, and open from closed
/// streams, where the offsets have no colons.
pub proof fn law_etag_tells_changes(raw_offset: Seq<char>, a: ReadResult, b: ReadResult)
    requires
        !a.next_offset.token@.contains(':'),
        !b.next_offset.token@.contains(':'),
        etag_spec(raw_offset, a) == etag_spec(raw_offset, b),
    ensures
        a.next_offset.token@ == b.next_offset.token@,
        a.is_final() == b.is_final(),
{
    reveal_strlit("\"");
    reveal_strlit(":");
    reveal_strlit(":c\"");
    let x = etag_spec(raw_offset, a);
    let y = etag_spec(raw_offset, b);
    let s = a.next_offset.token@;
    let t = b.next_offset.token@;
    let k = 2 + raw_offset.len() as int;
    assert(x.len() == k + s.len() + if a.is_final() { 3int } else { 1 });
    assert(y.len() == k + t.len() + if b.is_final() { 3int } else { 1 });
    assert(x.len() == y.len());
    assert forall|i: int| 0 <= i < s.len() implies x[k + i] == s[i] by {}
    assert forall|i: int| 0 <= i < t.len() implies y[k + i] == t[i] by {}
    if a.is_final() != b.is_final() {
        if a.is_final() {
            assert(s.len() + 3 == t.len() + 1);
            assert(x[k + s.len()] == ':');
            assert(y[k + s.len()] == t[s.len() as int]);
            assert(t.contains(':'));
        } else {
            assert(t.len() + 3 == s.len() + 1);
            assert(y[k + t.len()] == ':');
            assert(x[k + t.len()] == s[t.len() as int]);
            assert(s.contains(':'));
        }
    } else {
        assert(s.len() == t.len());
        assert forall|i: int| 0 <= i < s.len() implies s[i] == t[i] by {
            assert(x[k + i] == s[i]);
            assert(y[k + i] == t[i]);
        }
        assert(s =~= t);
    }
}

} // verus!
