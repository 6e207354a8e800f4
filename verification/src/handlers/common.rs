//! Shared helpers for the protocol handlers.
//!
//! Centralizes header parsing and response construction so each handler can focus on its own
//! flow. Handlers decide; storage is asked between their decisions.

use axum::http::HeaderMap;
use vstd::prelude::*;
use crate::fields::{
    fields, has_distinct_headers, header_of, law_set_header, lemma_set_header_distinct, set_header,
    with_header,
};
use crate::http::{field_text, header_fields, header_value};
use crate::protocol::headers::{is_true_text, names, parse_bool};
use crate::protocol::offset::Offset;
use crate::time::Timestamp;

verus! {

/// An offset as storage reports it: the token that clients see, and the place it stands for.
#[derive(Debug, Clone)]
pub struct StreamOffset {
    pub token: String,
    pub place: Offset,
}

/// What storage reports of a stream.
#[derive(Debug, Clone)]
pub struct StreamMetadata {
    pub content_type: String,
    pub next_offset: StreamOffset,
    pub closed: bool,
    pub ttl_seconds: Option<u64>,
    pub expires_at: Option<Timestamp>,
}

/// What storage reports of a read.
#[derive(Debug)]
pub struct ReadResult {
    /// The messages from the offset on.
    pub messages: Vec<Vec<u8>>,
    /// Where the next read begins.
    pub next_offset: StreamOffset,
    /// Whether nothing follows these messages yet.
    pub at_tail: bool,
    /// Whether the stream is closed.
    pub closed: bool,
}

impl ReadResult {
    /// Whether nothing will ever follow these messages.
    pub open spec fn is_final(self) -> bool {
        self.closed && self.at_tail
    }
}

/// Whether the `Stream-Closed` request header is truthy.
pub open spec fn asks_to_close(f: Map<Seq<char>, Seq<Seq<u8>>>) -> bool {
    field_text(f, "Stream-Closed"@) matches Some(v) && is_true_text(v)
}

/// Check whether the `Stream-Closed` request header is truthy.
#[must_use]
pub fn parse_stream_closed(headers: &HeaderMap) -> (r: bool)
    ensures
        r == asks_to_close(header_fields(*headers)),
{
    match header_value(headers, names::STREAM_CLOSED) {
        Some(v) => parse_bool(v.as_str()),
        None => false,
    }
}

/// Fluent builder for protocol responses.
///
/// Centralizes the `Stream-Next-Offset`, `Stream-Closed`, and related
/// headers so each handler does not re-implement them.
#[derive(Debug)]
#[must_use]
pub struct StreamResponse {
    pub status: u16,
    pub headers: Vec<(String, String)>,
    pub body: Option<Vec<u8>>,
}

/// What a response holds.
#[verifier::ext_equal]
pub struct ReplyView {
    pub status: u16,
    pub headers: Seq<(Seq<char>, Seq<char>)>,
    pub body: Option<Seq<u8>>,
}

/// The response with nothing but a status.
pub open spec fn reply(status: u16) -> ReplyView {
    ReplyView { status, headers: Seq::empty(), body: None }
}

impl ReplyView {
    /// Whether no header is there twice.
    pub open spec fn is_valid(self) -> bool {
        has_distinct_headers(self.headers)
    }

    /// The response with a header set.
    pub open spec fn with(self, name: Seq<char>, value: Seq<char>) -> Self {
        ReplyView { headers: with_header(self.headers, name, value), ..self }
    }

    /// The response with the header that says that the stream is closed, where it is.
    pub open spec fn with_closed(self, closed: bool) -> Self {
        if closed {
            self.with("Stream-Closed"@, "true"@)
        } else {
            self
        }
    }

    /// The response with a body.
    pub open spec fn with_body(self, body: Seq<u8>) -> Self {
        ReplyView { body: Some(body), ..self }
    }
}

/// The text of a truth value.
pub open spec fn flag_text(value: bool) -> Seq<char> {
    if value {
        "true"@
    } else {
        "false"@
    }
}

impl View for StreamResponse {
    type V = ReplyView;

    open spec fn view(&self) -> ReplyView {
        ReplyView {
            status: self.status,
            headers: fields(self.headers@),
            body: match self.body {
                Some(b) => Some(b@),
                None => None,
            },
        }
    }
}

impl StreamResponse {
    pub fn new(status: u16) -> (r: Self)
        ensures
            r@ == reply(status),
            r@.is_valid(),
    {
        let r = StreamResponse { status, headers: Vec::new(), body: None };
        assert(fields(r.headers@) =~= Seq::empty());
        r
    }

    pub fn body(self, body: Vec<u8>) -> (r: Self)
        ensures
            r@ == self@.with_body(body@),
    {
        StreamResponse { status: self.status, headers: self.headers, body: Some(body) }
    }

    /// Sets a header, in place of one of the same name in any case.
    pub fn header(self, name: &str, value: &str) -> (r: Self)
        ensures
            r@ == self@.with(name@, value@),
            self@.is_valid() ==> r@.is_valid(),
    {
        proof {
            if self@.is_valid() {
                lemma_set_header_distinct(self@.headers, name@, value@);
            }
        }
        let mut headers = self.headers;
        set_header(&mut headers, name.to_owned(), value.to_owned());
        StreamResponse { status: self.status, headers, body: self.body }
    }

    pub fn content_type(self, content_type: &str) -> (r: Self)
        ensures
            r@ == self@.with("content-type"@, content_type@),
    {
        self.header("content-type", content_type)
    }

    pub fn next_offset(self, token: &str) -> (r: Self)
        ensures
            r@ == self@.with("Stream-Next-Offset"@, token@),
    {
        self.header(names::STREAM_NEXT_OFFSET, token)
    }

    pub fn closed_if(self, closed: bool) -> (r: Self)
        ensures
            r@ == self@.with_closed(closed),
    {
        if closed {
            self.header(names::STREAM_CLOSED, "true")
        } else {
            self
        }
    }

    pub fn up_to_date(self, value: bool) -> (r: Self)
        ensures
            r@ == self@.with("Stream-Up-To-Date"@, flag_text(value)),
    {
        let text: &'static str = if value {
            "true"
        } else {
            "false"
        };
        self.header(names::STREAM_UP_TO_DATE, text)
    }

    pub fn cursor(self, cursor: &str) -> (r: Self)
        ensures
            r@ == self@.with("Stream-Cursor"@, cursor@),
    {
        self.header(names::STREAM_CURSOR, cursor)
    }

    pub fn etag(self, etag: &str) -> (r: Self)
        ensures
            r@ == self@.with("etag"@, etag@),
    {
        self.header("etag", etag)
    }

    pub fn location(self, location: &str) -> (r: Self)
        ensures
            r@ == self@.with("location"@, location@),
    {
        self.header("location", location)
    }
}

/// A header that is set on a response is there once, with its value, whatever the case of its
/// name.
pub proof fn law_header_is_there_once(r: ReplyView, name: Seq<char>, value: Seq<char>)
    requires
        r.is_valid(),
    ensures
        r.with(name, value).is_valid(),
        header_of(r.with(name, value).headers, name) == Some(value),
{
    lemma_set_header_distinct(r.headers, name, value);
    law_set_header(r.headers, name, value, name);
}

} // verus!
