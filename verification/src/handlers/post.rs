//! Appends.

use axum::http::HeaderMap;
use vstd::prelude::*;
use crate::decimal::{decimal, u64_text};
use crate::fields::with_header;
use crate::handlers::common::{
    ReplyView, StreamOffset, StreamResponse, asks_to_close, parse_stream_closed, reply,
};
use crate::http::{field_text, header_fields, header_value};
use crate::protocol::error::{Error, Result};
use crate::protocol::headers::{names, normalize_content_type, normalized_content_type};
use crate::protocol::json_mode::{body_messages, contents, extract_messages};
use crate::protocol::problem::{ProblemResponse, ResponseView};
use crate::protocol::producer::{
    ProducerHeaders, ProducerOutcome, parse_producer_headers, producer_outcome,
};
use crate::text::text_opt;

verus! {

/// The fields of a request by name.
pub type Fields = Map<Seq<char>, Seq<Seq<u8>>>;

/// What the headers of an append ask for.
#[derive(Debug)]
pub struct AppendHeaders {
    /// The normal form of the content type; empty where a request that only closes has none.
    pub content_type: String,
    pub producer: Option<ProducerHeaders>,
    pub seq: Option<String>,
    pub should_close: bool,
    /// Whether the request closes the stream without appending anything.
    pub is_close_only: bool,
}

/// An append that can be handed to storage.
#[derive(Debug)]
pub struct AppendPlan {
    pub headers: AppendHeaders,
    pub messages: Vec<Vec<u8>>,
}

/// Whether a request closes the stream without a body.
pub open spec fn closes_only(f: Fields, body_len: nat) -> bool {
    body_len == 0 && asks_to_close(f)
}

/// What the producer headers of a request come to.
pub open spec fn producer_of(f: Fields) -> ProducerOutcome {
    producer_outcome(
        field_text(f, "Producer-Id"@),
        field_text(f, "Producer-Epoch"@),
        field_text(f, "Producer-Seq"@),
    )
}

/// Whether an error is why the headers of an append, or its lack of a body, are rejected: the
/// content type is missing, the producer headers are wrong, or there is nothing to do.
pub open spec fn is_header_rejection(e: Error, f: Fields, body_len: nat) -> bool {
    if !closes_only(f, body_len) && field_text(f, "content-type"@) is None {
        e matches Error::InvalidHeader { header, reason } && header@ == "Content-Type"@ && reason@
            == "missing required header"@
    } else {
        match producer_of(f) {
            ProducerOutcome::Rejected(reason) => e matches Error::InvalidProducerState(m) && m@ == reason,
            _ => body_len == 0 && !asks_to_close(f) && e is EmptyBody,
        }
    }
}

/// Whether the headers of an append and its length are accepted.
pub open spec fn headers_accepted(f: Fields, body_len: nat) -> bool {
    &&& closes_only(f, body_len) || field_text(f, "content-type"@) is Some
    &&& !(producer_of(f) is Rejected)
    &&& body_len > 0 || asks_to_close(f)
}

/// The content type that an append is for.
pub open spec fn append_type(f: Fields) -> Seq<char> {
    match field_text(f, "content-type"@) {
        Some(t) => normalized_content_type(t),
        None => Seq::empty(),
    }
}

/// Whether what was read of the headers is what they say.
pub open spec fn are_headers_of(h: AppendHeaders, f: Fields, body_len: nat) -> bool {
    &&& h.content_type@ == append_type(f)
    &&& match producer_of(f) {
        ProducerOutcome::Absent => h.producer is None,
        ProducerOutcome::Present { id, epoch, seq } => h.producer matches Some(p) && p.id@ == id
            && p.epoch as nat == epoch && p.seq as nat == seq,
        ProducerOutcome::Rejected(_) => false,
    }
    &&& text_opt(h.seq) == field_text(f, "Stream-Seq"@)
    &&& h.should_close == asks_to_close(f)
    &&& h.is_close_only == closes_only(f, body_len)
}

/// Reads the headers of an append with a body of this length.
pub fn read_append_headers(headers: &HeaderMap, body_len: usize) -> (r: Result<AppendHeaders>)
    ensures
        match r {
            Ok(h) => headers_accepted(header_fields(*headers), body_len as nat) && are_headers_of(
                h,
                header_fields(*headers),
                body_len as nat,
            ),
            Err(e) => !headers_accepted(header_fields(*headers), body_len as nat)
                && is_header_rejection(e, header_fields(*headers), body_len as nat),
        },
{
    let should_close = parse_stream_closed(headers);
    let is_close_only = body_len == 0 && should_close;
    let content_type = match header_value(headers, "content-type") {
        Some(ct) => normalize_content_type(ct.as_str()),
        None => {
            if !is_close_only {
                return Err(
                    Error::InvalidHeader {
                        header: "Content-Type".to_owned(),
                        reason: "missing required header".to_owned(),
                    },
                );
            }
            let empty = String::new();
            assert(empty@ =~= Seq::<char>::empty());
            empty
        },
    };
    let producer = match parse_producer_headers(headers) {
        Ok(p) => p,
        Err(e) => return Err(e),
    };
    let seq = header_value(headers, names::STREAM_SEQ);
    if body_len == 0 && !should_close {
        return Err(Error::EmptyBody);
    }
    Ok(AppendHeaders { content_type, producer, seq, should_close, is_close_only })
}

/// Puts an append together from its headers and the messages of its body, or the error that the
/// body gave. An empty array is rejected unless the request also closes the stream.
pub fn plan_append(headers: AppendHeaders, messages: Result<Vec<Vec<u8>>>) -> (r: Result<AppendPlan>)
    ensures
        match messages {
            Err(e) => r == Err::<AppendPlan, Error>(e),
            Ok(m) => if m@.len() == 0 && !headers.should_close {
                r matches Err(e) && e is EmptyArray
            } else {
                r == Ok::<AppendPlan, Error>(AppendPlan { headers, messages: m })
            },
        },
{
    match messages {
        Err(e) => Err(e),
        Ok(messages) => {
            if messages.len() == 0 && !headers.should_close {
                return Err(Error::EmptyArray);
            }
            Ok(AppendPlan { headers, messages })
        },
    }
}

/// Whether a result is the plan of an append with these headers and this body, or why it has
/// none.
pub open spec fn is_append_plan(r: Result<AppendPlan>, f: Fields, body: Seq<u8>) -> bool {
    let n = body.len();
    if !headers_accepted(f, n) {
        r matches Err(e) && is_header_rejection(e, f, n)
    } else {
        match body_messages(body, append_type(f)) {
            Err(m) => r matches Err(Error::InvalidJson(t)) && t@ == m,
            Ok(messages) => if messages.len() == 0 && !asks_to_close(f) {
                r matches Err(e) && e is EmptyArray
            } else {
                r matches Ok(plan) && are_headers_of(plan.headers, f, n) && contents(plan.messages@)
                    == messages
            },
        }
    }
}

/// POST: what an append asks of storage.
///
/// Appends data to an existing stream, and can also close a stream with the Stream-Closed
/// header. Supports idempotent producer semantics when Producer-Id/Epoch/Seq headers are
/// provided.
///
/// # Errors
///
/// Returns an error if the content type is missing, the producer headers are invalid, the body
/// is empty without Stream-Closed header, or the body of a JSON stream is no JSON or an empty
/// array.
pub fn append_data(headers: &HeaderMap, body: Vec<u8>) -> (r: Result<AppendPlan>)
    ensures
        is_append_plan(r, header_fields(*headers), body@),
{
    let parsed = match read_append_headers(headers, body.len()) {
        Ok(h) => h,
        Err(e) => return Err(e),
    };
    let messages = extract_messages(body, parsed.content_type.as_str());
    proof {
        assert(messages matches Ok(m) ==> contents(m@).len() == m@.len());
    }
    plan_append(parsed, messages)
}

/// What an append without a producer asks of storage.
#[derive(Debug, Clone, Copy, PartialEq, Eq, Structural)]
pub enum PlainAppend {
    /// Append the messages.
    Append,
    /// Append nothing: only ask where the stream ends.
    Head,
}

impl AppendPlan {
    /// What an append without a producer asks of storage. Where the request closes the stream
    /// too, that comes after.
    pub fn plain_append(&self) -> (r: PlainAppend)
        ensures
            r == if self.messages@.len() == 0 {
                PlainAppend::Head
            } else {
                PlainAppend::Append
            },
    {
        if self.messages.len() == 0 {
            PlainAppend::Head
        } else {
            PlainAppend::Append
        }
    }
}

/// The answer to an append without a producer.
pub open spec fn plain_reply(token: Seq<char>, closed: bool) -> ReplyView {
    reply(204).with("Stream-Next-Offset"@, token).with_closed(closed)
}

/// Non-producer append path. Always returns 204 No Content on success.
pub fn handle_non_producer_append(next_offset: &StreamOffset, should_close: bool) -> (r: StreamResponse)
    ensures
        r@ == plain_reply(next_offset.token@, should_close),
{
    StreamResponse::new(204).next_offset(next_offset.token.as_str()).closed_if(should_close)
}

/// What storage makes of an append by a producer.
#[derive(Debug)]
pub enum ProducerAppendResult {
    /// The messages were appended.
    Accepted { epoch: u64, seq: u64, next_offset: StreamOffset, closed: bool },
    /// The same append had been accepted before.
    Duplicate { epoch: u64, seq: u64, next_offset: StreamOffset, closed: bool },
}

/// The answer to an append by a producer: 200 where it was accepted with data, 204 where it
/// only closed the stream or was a duplicate.
pub open spec fn producer_reply(result: ProducerAppendResult, is_close_only: bool) -> ReplyView {
    match result {
        ProducerAppendResult::Accepted { epoch, seq, next_offset, closed } => reply(
            if is_close_only {
                204
            } else {
                200
            },
        ).with("Stream-Next-Offset"@, next_offset.token@).with(
            "Producer-Epoch"@,
            decimal(epoch as nat),
        ).with("Producer-Seq"@, decimal(seq as nat)).with_closed(closed),
        ProducerAppendResult::Duplicate { epoch, seq, next_offset, closed } => reply(204).with(
            "Stream-Next-Offset"@,
            next_offset.token@,
        ).with("Producer-Epoch"@, decimal(epoch as nat)).with("Producer-Seq"@, decimal(seq as nat)).with_closed(
            closed,
        ),
    }
}

/// Producer append path with idempotent sequencing.
///
/// Returns 200 OK for accepted appends, 204 No Content for duplicates
/// or close-only operations.
pub fn handle_producer_append(result: &ProducerAppendResult, is_close_only: bool) -> (r: StreamResponse)
    ensures
        r@ == producer_reply(*result, is_close_only),
{
    let (status, epoch, seq, next_offset, closed): (u16, u64, u64, &StreamOffset, bool) = match result {
        ProducerAppendResult::Accepted { epoch, seq, next_offset, closed } => (
            if is_close_only {
                204
            } else {
                200
            },
            *epoch,
            *seq,
            next_offset,
            *closed,
        ),
        ProducerAppendResult::Duplicate { epoch, seq, next_offset, closed } => (
            204,
            *epoch,
            *seq,
            next_offset,
            *closed,
        ),
    };
    StreamResponse::new(status).next_offset(next_offset.token.as_str()).header(
        names::PRODUCER_EPOCH,
        u64_text(epoch).as_str(),
    ).header(names::PRODUCER_SEQ, u64_text(seq).as_str()).closed_if(closed)
}

/// A problem response with a header set.
pub open spec fn with_problem_header(r: ResponseView, name: Seq<char>, value: Seq<char>) -> ResponseView {
    ResponseView { headers: with_header(r.headers, name, value), ..r }
}

/// The 409 Conflict response for a closed stream, with its end where it is known.
pub open spec fn closed_problem(tail: Option<Seq<char>>) -> ResponseView {
    let base = with_problem_header(Error::StreamClosed.response(), "Stream-Closed"@, "true"@);
    match tail {
        Some(token) => with_problem_header(base, "Stream-Next-Offset"@, token),
        None => base,
    }
}

/// The response for an append that storage has refused. A producer learns the current epoch
/// where it has been fenced off, and the expected and received numbers where it has left a gap.
pub open spec fn append_problem(error: Error, producer: Option<ProducerHeaders>, tail: Option<Seq<char>>) -> ResponseView {
    match (error, producer) {
        (Error::StreamClosed, _) => closed_problem(tail),
        (Error::EpochFenced { current, .. }, Some(p)) => with_problem_header(
            (Error::EpochFenced { current, received: p.epoch }).response(),
            "Producer-Epoch"@,
            decimal(current as nat),
        ),
        (Error::SequenceGap { expected, actual }, Some(_)) => with_problem_header(
            with_problem_header(
                error.response(),
                "Producer-Expected-Seq"@,
                decimal(expected as nat),
            ),
            "Producer-Received-Seq"@,
            decimal(actual as nat),
        ),
        _ => error.response(),
    }
}

/// Build the 409 Conflict response for a closed stream.
fn stream_closed_response(tail: Option<&StreamOffset>) -> (r: ProblemResponse)
    ensures
        r@ == closed_problem(
            match tail {
                Some(t) => Some(t.token@),
                None => None,
            },
        ),
{
    let response = Error::StreamClosed.into_problem_response().with_header(
        names::STREAM_CLOSED.to_owned(),
        "true".to_owned(),
    );
    match tail {
        Some(t) => response.with_header(names::STREAM_NEXT_OFFSET.to_owned(), t.token.clone()),
        None => response,
    }
}

/// Build the response for an append that storage has refused. The tail is where the stream
/// ends, as far as storage can tell.
pub fn append_error(error: Error, producer: Option<&ProducerHeaders>, tail: Option<&StreamOffset>) -> (r:
    ProblemResponse)
    ensures
        r@ == append_problem(
            error,
            match producer {
                Some(p) => Some(*p),
                None => None,
            },
            match tail {
                Some(t) => Some(t.token@),
                None => None,
            },
        ),
{
    match (error, producer) {
        (Error::StreamClosed, _) => stream_closed_response(tail),
        (Error::EpochFenced { current, .. }, Some(p)) => (Error::EpochFenced {
            current,
            received: p.epoch,
        }).into_problem_response().with_header(
            names::PRODUCER_EPOCH.to_owned(),
            u64_text(current),
        ),
        (Error::SequenceGap { expected, actual }, Some(_)) => (Error::SequenceGap {
            expected,
            actual,
        }).into_problem_response().with_header(
            names::PRODUCER_EXPECTED_SEQ.to_owned(),
            u64_text(expected),
        ).with_header(names::PRODUCER_RECEIVED_SEQ.to_owned(), u64_text(actual)),
        (e, _) => e.into_problem_response(),
    }
}

} // verus!
