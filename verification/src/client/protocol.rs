//! Responses: errors, collected reads and live events.

use axum::http::HeaderMap;
use vstd::prelude::*;
use crate::client::error::{Error, ErrorKind, HttpError};
use crate::client::model::{
    ChunkView, ReadChunk, ReadPayload, ReadResponse, SubscriptionEvent, chunk_views, copy_bytes,
};
use crate::decimal::{parse_signed, signed_value};
use crate::fields::{
    field_of, fields, get_field, has_distinct_names, header_of, law_set_header, with_header,
};
use crate::handlers::common::{ReadResult, flag_text};
use crate::handlers::get::data_reply;
use crate::http::{
    field_flag, field_text, header_fields, header_value, parse_bool_header,
};
use crate::json::{json_values, parse_values};
use crate::text::{
    ascii_lower_spec, contains_text, occurs, same_ignore_ascii_case, starts_with,
    text_opt, texts, to_ascii_lowercase,
};

verus! {

pub const STREAM_TTL: &'static str = "stream-ttl";

pub const STREAM_EXPIRES_AT: &'static str = "stream-expires-at";

pub const STREAM_CLOSED: &'static str = "stream-closed";

pub const STREAM_NEXT_OFFSET: &'static str = "stream-next-offset";

pub const STREAM_CURSOR: &'static str = "stream-cursor";

pub const STREAM_UP_TO_DATE: &'static str = "stream-up-to-date";

pub const STREAM_SEQ: &'static str = "stream-seq";

pub const STREAM_SSE_DATA_ENCODING: &'static str = "stream-sse-data-encoding";

pub const PRODUCER_ID: &'static str = "producer-id";

pub const PRODUCER_EPOCH: &'static str = "producer-epoch";

pub const PRODUCER_SEQ: &'static str = "producer-seq";

pub const PRODUCER_EXPECTED_SEQ: &'static str = "producer-expected-seq";

pub const PRODUCER_RECEIVED_SEQ: &'static str = "producer-received-seq";

/// The reason phrase of a status, as `StatusCode::canonical_reason` gives it.
pub uninterp spec fn canonical_reason(status: u16) -> Option<Seq<char>>;

/// `StatusCode::canonical_reason` depends on the status alone; a number that is no status
/// has none.
#[verifier::external_body]
fn reason_phrase(status: u16) -> (r: Option<String>)
    ensures
        match r {
            Some(t) => canonical_reason(status) == Some(t@),
            None => canonical_reason(status) is None,
        },
{
    reqwest::StatusCode::from_u16(status).ok().and_then(|s| s.canonical_reason()).map(|t| t.to_string())
}

/// Whether response headers mark the stream as closed.
pub open spec fn says_closed(f: Seq<(Seq<char>, Seq<char>)>) -> bool {
    field_of(f, "stream-closed"@) matches Some(v) && (ascii_lower_spec(v) == ascii_lower_spec(
        "true"@,
    ) || v.len() == 0)
}

/// The category of an error response.
pub open spec fn error_kind_of(status: u16, stream_closed: bool, body: Seq<char>) -> ErrorKind {
    if status == 404 {
        ErrorKind::NotFound
    } else if status == 403 {
        ErrorKind::Forbidden
    } else if status == 429 {
        ErrorKind::RateLimited
    } else if status == 400 && (occurs(ascii_lower_spec(body), "offset"@) || occurs(
        ascii_lower_spec(body),
        "invalid"@,
    )) {
        ErrorKind::InvalidOffset
    } else if status == 409 && stream_closed {
        ErrorKind::StreamClosed
    } else if status == 409 {
        ErrorKind::Conflict
    } else {
        ErrorKind::UnexpectedStatus
    }
}

/// The signed number of a field.
pub open spec fn number_of(f: Seq<(Seq<char>, Seq<char>)>, name: Seq<char>) -> Option<int> {
    match field_of(f, name) {
        Some(v) => signed_value(v),
        None => None,
    }
}

/// Whether an optional number is the one that is expected.
pub open spec fn is_number(n: Option<i64>, expected: Option<int>) -> bool {
    match n {
        Some(k) => expected == Some(k as int),
        None => expected is None,
    }
}

fn number_field(headers: &Vec<(String, String)>, name: &str) -> (r: Option<i64>)
    ensures
        is_number(r, number_of(fields(headers@), name@)),
{
    match get_field(headers, name) {
        Some(value) => parse_signed(value.as_str()),
        None => None,
    }
}

/// The message of an error response: its body, else the status's reason phrase.
pub open spec fn error_message_of(status: u16, body: Seq<char>) -> Seq<char> {
    if body.len() > 0 {
        body
    } else {
        match canonical_reason(status) {
            Some(t) => t,
            None => "request failed"@,
        }
    }
}

/// The message of an error response: its body, else a reason phrase, else a general one.
pub fn error_message(body: String, reason: Option<String>) -> (r: String)
    ensures
        r@ == if body@.len() > 0 {
            body@
        } else {
            match reason {
                Some(t) => t@,
                None => "request failed"@,
            }
        },
{
    if body.as_str().is_empty() {
        match reason {
            Some(t) => t,
            None => "request failed".to_owned(),
        }
    } else {
        body
    }
}

/// The error that a response's status, headers and body come to.
pub fn build_http_error_from_parts(status: u16, headers: Vec<(String, String)>, body: String) -> (r:
    HttpError)
    ensures
        r.status == status,
        r.headers == headers,
        has_distinct_names(fields(headers@)) ==> r.is_valid(),
        ({
            let f = fields(headers@);
            &&& r.stream_closed == says_closed(f)
            &&& r.kind == error_kind_of(status, says_closed(f), body@)
            &&& r.message@ == error_message_of(status, body@)
            &&& text_opt(r.next_offset) == field_of(f, "stream-next-offset"@)
            &&& text_opt(r.stream_cursor) == field_of(f, "stream-cursor"@)
            &&& is_number(r.producer_epoch, number_of(f, "producer-epoch"@))
            &&& is_number(r.producer_seq, number_of(f, "producer-seq"@))
            &&& is_number(r.producer_expected_seq, number_of(f, "producer-expected-seq"@))
            &&& is_number(r.producer_received_seq, number_of(f, "producer-received-seq"@))
        }),
{
    let stream_closed = match get_field(&headers, STREAM_CLOSED) {
        Some(value) => same_ignore_ascii_case(value.as_str(), "true") || value.as_str().is_empty(),
        None => false,
    };
    let lower_message = to_ascii_lowercase(body.as_str());
    let kind = if status == 404 {
        ErrorKind::NotFound
    } else if status == 403 {
        ErrorKind::Forbidden
    } else if status == 429 {
        ErrorKind::RateLimited
    } else if status == 400 && (contains_text(lower_message.as_str(), "offset") || contains_text(
        lower_message.as_str(),
        "invalid",
    )) {
        ErrorKind::InvalidOffset
    } else if status == 409 && stream_closed {
        ErrorKind::StreamClosed
    } else if status == 409 {
        ErrorKind::Conflict
    } else {
        ErrorKind::UnexpectedStatus
    };
    let next_offset = get_field(&headers, STREAM_NEXT_OFFSET);
    let stream_cursor = get_field(&headers, STREAM_CURSOR);
    let producer_epoch = number_field(&headers, PRODUCER_EPOCH);
    let producer_seq = number_field(&headers, PRODUCER_SEQ);
    let producer_expected_seq = number_field(&headers, PRODUCER_EXPECTED_SEQ);
    let producer_received_seq = number_field(&headers, PRODUCER_RECEIVED_SEQ);
    let message = error_message(body, reason_phrase(status));
    HttpError {
        status,
        kind,
        message,
        headers,
        next_offset,
        stream_closed,
        stream_cursor,
        producer_epoch,
        producer_seq,
        producer_expected_seq,
        producer_received_seq,
    }
}

/// The field `name` of a response, as a list of at most one field.
pub open spec fn kept_field(all: Map<Seq<char>, Seq<Seq<u8>>>, name: Seq<char>) -> Seq<
    (Seq<char>, Seq<char>),
> {
    match field_text(all, name) {
        Some(v) => seq![(name, v)],
        None => Seq::empty(),
    }
}

/// The fields of an error response that are kept.
pub open spec fn kept_fields(all: Map<Seq<char>, Seq<Seq<u8>>>) -> Seq<(Seq<char>, Seq<char>)> {
    kept_field(all, "stream-closed"@) + kept_field(all, "stream-next-offset"@) + kept_field(
        all,
        "stream-cursor"@,
    ) + kept_field(all, "producer-epoch"@) + kept_field(all, "producer-seq"@) + kept_field(
        all,
        "producer-expected-seq"@,
    ) + kept_field(all, "producer-received-seq"@)
}

/// Whether the names of fields are distinct and among given ones.
spec fn are_named(f: Seq<(Seq<char>, Seq<char>)>, names: Seq<Seq<char>>) -> bool {
    has_distinct_names(f) && forall|i: int| 0 <= i < f.len() ==> names.contains((#[trigger] f[i]).0)
}

proof fn lemma_kept_field(
    f: Seq<(Seq<char>, Seq<char>)>,
    names: Seq<Seq<char>>,
    all: Map<Seq<char>, Seq<Seq<u8>>>,
    name: Seq<char>,
)
    requires
        are_named(f, names),
        forall|i: int| 0 <= i < names.len() ==> #[trigger] names[i] != name,
    ensures
        are_named(f + kept_field(all, name), names.push(name)),
{
    let g = f + kept_field(all, name);
    let more = names.push(name);
    assert(more[names.len() as int] == name);
    assert forall|i: int| 0 <= i < g.len() implies more.contains((#[trigger] g[i]).0) by {
        if i < f.len() {
            assert(g[i] == f[i]);
            let k = choose|k: int| 0 <= k < names.len() && names[k] == f[i].0;
            assert(more[k] == g[i].0);
        }
    }
    assert forall|i: int, j: int| 0 <= i < j < g.len() implies (#[trigger] g[i]).0 != (
    #[trigger] g[j]).0 by {
        assert(g[i] == f[i]);
        assert(names.contains(f[i].0));
        if j < f.len() {
            assert(g[j] == f[j]);
        }
    }
}

/// No field of an error response is kept twice.
pub proof fn lemma_kept_fields_distinct(all: Map<Seq<char>, Seq<Seq<u8>>>)
    ensures
        has_distinct_names(kept_fields(all)),
{
    reveal_strlit("stream-closed");
    reveal_strlit("stream-next-offset");
    reveal_strlit("stream-cursor");
    reveal_strlit("producer-epoch");
    reveal_strlit("producer-seq");
    reveal_strlit("producer-expected-seq");
    reveal_strlit("producer-received-seq");
    assert("stream-closed"@[8] == 'l' && "stream-cursor"@[8] == 'u');
    assert("producer-expected-seq"@[9] == 'e' && "producer-received-seq"@[9] == 'r');
    let n0 = Seq::<Seq<char>>::empty();
    let f0 = Seq::<(Seq<char>, Seq<char>)>::empty();
    let n1 = n0.push("stream-closed"@);
    let f1 = f0 + kept_field(all, "stream-closed"@);
    lemma_kept_field(f0, n0, all, "stream-closed"@);
    assert(f1 =~= kept_field(all, "stream-closed"@));
    let n2 = n1.push("stream-next-offset"@);
    let f2 = f1 + kept_field(all, "stream-next-offset"@);
    lemma_kept_field(f1, n1, all, "stream-next-offset"@);
    let n3 = n2.push("stream-cursor"@);
    let f3 = f2 + kept_field(all, "stream-cursor"@);
    lemma_kept_field(f2, n2, all, "stream-cursor"@);
    let n4 = n3.push("producer-epoch"@);
    let f4 = f3 + kept_field(all, "producer-epoch"@);
    lemma_kept_field(f3, n3, all, "producer-epoch"@);
    let n5 = n4.push("producer-seq"@);
    let f5 = f4 + kept_field(all, "producer-seq"@);
    lemma_kept_field(f4, n4, all, "producer-seq"@);
    let n6 = n5.push("producer-expected-seq"@);
    let f6 = f5 + kept_field(all, "producer-expected-seq"@);
    lemma_kept_field(f5, n5, all, "producer-expected-seq"@);
    lemma_kept_field(f6, n6, all, "producer-received-seq"@);
}

fn keep_field(out: &mut Vec<(String, String)>, headers: &HeaderMap, name: &'static str)
    ensures
        fields(final(out)@) == fields(old(out)@) + kept_field(header_fields(*headers), name@),
{
    let ghost before = out@;
    match header_value(headers, name) {
        Some(value) => {
            let ghost v = value@;
            out.push((name.to_owned(), value));
            assert(fields(out@) =~= fields(before) + seq![(name@, v)]);
        },
        None => {
            assert(fields(out@) =~= fields(before) + Seq::empty());
        },
    }
}

/// The fields of an error response that are kept.
pub fn relevant_headers(headers: &HeaderMap) -> (r: Vec<(String, String)>)
    ensures
        fields(r@) == kept_fields(header_fields(*headers)),
        has_distinct_names(fields(r@)),
{
    proof {
        lemma_kept_fields_distinct(header_fields(*headers));
    }
    let mut out: Vec<(String, String)> = Vec::new();
    assert(fields(out@) =~= Seq::empty());
    keep_field(&mut out, headers, STREAM_CLOSED);
    assert(fields(out@) =~= kept_field(header_fields(*headers), "stream-closed"@));
    keep_field(&mut out, headers, STREAM_NEXT_OFFSET);
    keep_field(&mut out, headers, STREAM_CURSOR);
    keep_field(&mut out, headers, PRODUCER_EPOCH);
    keep_field(&mut out, headers, PRODUCER_SEQ);
    keep_field(&mut out, headers, PRODUCER_EXPECTED_SEQ);
    keep_field(&mut out, headers, PRODUCER_RECEIVED_SEQ);
    out
}

/// Whether a read response repeats what the headers say.
pub open spec fn reads_headers(r: ReadResponse, all: Map<Seq<char>, Seq<Seq<u8>>>) -> bool {
    &&& field_text(all, "stream-next-offset"@) == Some(r.next_offset@)
    &&& r.stream_closed == field_flag(all, "stream-closed"@)
    &&& text_opt(r.cursor) == field_text(all, "stream-cursor"@)
    &&& text_opt(r.content_type) == field_text(all, "content-type"@)
    &&& text_opt(r.etag) == field_text(all, "etag"@)
}

/// Whether a result is the error for a response without a next offset.
pub open spec fn is_missing_offset(r: Result<ReadResponse, Error>) -> bool {
    r matches Err(Error::Parse(m)) && m@ == "missing Stream-Next-Offset header"@
}

/// A read response from a response's status and headers.
pub fn read_response_from_http(
    status: u16,
    headers: &HeaderMap,
    payload: Option<ReadPayload>,
    chunks: Vec<ReadChunk>,
) -> (r: Result<ReadResponse, Error>)
    ensures
        ({
            let all = header_fields(*headers);
            match r {
                Ok(read) => {
                    &&& reads_headers(read, all)
                    &&& read.status == status
                    &&& read.up_to_date == field_flag(all, "stream-up-to-date"@)
                    &&& read.payload == payload
                    &&& read.chunks == chunks
                },
                Err(_) => is_missing_offset(r) && field_text(all, "stream-next-offset"@) is None,
            }
        }),
{
    let next_offset = match header_value(headers, STREAM_NEXT_OFFSET) {
        Some(value) => value,
        None => return Err(Error::parse("missing Stream-Next-Offset header")),
    };
    Ok(
        ReadResponse {
            status,
            next_offset,
            up_to_date: parse_bool_header(headers, STREAM_UP_TO_DATE),
            stream_closed: parse_bool_header(headers, STREAM_CLOSED),
            cursor: header_value(headers, STREAM_CURSOR),
            content_type: header_value(headers, "content-type"),
            etag: header_value(headers, "etag"),
            chunks,
            payload,
        },
    )
}

/// Whether a content type is that of JSON, parameters aside.
pub open spec fn json_content(content_type: Option<Seq<char>>) -> bool {
    content_type matches Some(v) && "application/json"@.is_prefix_of(v)
}

/// What the body of a catch-up read comes to: the payload and whether there is data in it.
pub open spec fn is_body_payload(
    payload: Option<ReadPayload>,
    chunks: Seq<ChunkView>,
    body: Seq<u8>,
    is_json: bool,
    next_offset: Seq<char>,
) -> bool {
    let whole = seq![ChunkView { data: body, next_offset }];
    if is_json {
        payload matches Some(ReadPayload::Json(values)) && (if body.len() == 0 {
            texts(values@) == Seq::<Seq<char>>::empty()
        } else {
            json_values(body) matches Ok(items) && texts(values@) == items
        }) && chunks == if values@.len() == 0 {
            Seq::<ChunkView>::empty()
        } else {
            whole
        }
    } else {
        payload matches Some(ReadPayload::Bytes(b)) && b@ == body && chunks == if body.len() == 0 {
            Seq::<ChunkView>::empty()
        } else {
            whole
        }
    }
}

/// The whole body as the only chunk.
fn whole_body(body: &Vec<u8>, next_offset: &String) -> (r: Vec<ReadChunk>)
    ensures
        chunk_views(r@) == seq![ChunkView { data: body@, next_offset: next_offset@ }],
{
    let chunk = ReadChunk { data: copy_bytes(body), next_offset: next_offset.clone() };
    let ghost c = chunk@;
    let mut chunks: Vec<ReadChunk> = Vec::new();
    chunks.push(chunk);
    assert(chunk_views(chunks@) =~= seq![c]);
    chunks
}

/// Whether the server reports that a reader is up to date: it says so, or it says nothing and
/// answers 200 or 204.
pub open spec fn reported_up_to_date(all: Map<Seq<char>, Seq<Seq<u8>>>, status: u16) -> bool {
    if field_text(all, "stream-up-to-date"@) is Some {
        field_flag(all, "stream-up-to-date"@)
    } else {
        status == 200 || status == 204
    }
}

/// Whether a result is the catch-up read that a response comes to.
pub open spec fn is_catch_up(
    r: Result<ReadResponse, Error>,
    status: u16,
    all: Map<Seq<char>, Seq<Seq<u8>>>,
    body: Seq<u8>,
) -> bool {
    let is_json = json_content(field_text(all, "content-type"@));
    match r {
        Ok(read) => {
            &&& reads_headers(read, all)
            &&& read.status == status
            &&& read.up_to_date == reported_up_to_date(all, status)
            &&& is_body_payload(
                read.payload,
                chunk_views(read.chunks@),
                body,
                is_json,
                read.next_offset@,
            )
        },
        Err(Error::Json(m)) => {
            &&& field_text(all, "stream-next-offset"@) is Some
            &&& is_json && body.len() > 0
            &&& json_values(body) matches Err(e) && m@ == e
        },
        Err(_) => is_missing_offset(r) && field_text(all, "stream-next-offset"@) is None,
    }
}

/// A catch-up read from a response: its status, headers and body.
pub fn collect_catch_up(status: u16, headers: &HeaderMap, body: Vec<u8>) -> (r: Result<
    ReadResponse,
    Error,
>)
    ensures
        is_catch_up(r, status, header_fields(*headers), body@),
{
    let content_type = header_value(headers, "content-type");
    let is_json = match &content_type {
        Some(value) => starts_with(value.as_str(), "application/json"),
        None => false,
    };
    let next_offset = match header_value(headers, STREAM_NEXT_OFFSET) {
        Some(value) => value,
        None => return Err(Error::parse("missing Stream-Next-Offset header")),
    };
    let up_to_date = if header_value(headers, STREAM_UP_TO_DATE).is_some() {
        parse_bool_header(headers, STREAM_UP_TO_DATE)
    } else {
        status == 200 || status == 204
    };
    let stream_closed = parse_bool_header(headers, STREAM_CLOSED);
    let cursor = header_value(headers, STREAM_CURSOR);
    let etag = header_value(headers, "etag");
    let mut chunks: Vec<ReadChunk> = Vec::new();
    assert(chunk_views(chunks@) =~= Seq::<ChunkView>::empty());
    let payload = if is_json {
        let values: Vec<String> = if body.len() == 0 {
            Vec::new()
        } else {
            match parse_values(body.as_slice()) {
                Ok(values) => values,
                Err(m) => return Err(Error::Json(m)),
            }
        };
        if body.len() == 0 {
            assert(texts(values@) =~= Seq::<Seq<char>>::empty());
        }
        if values.len() > 0 {
            chunks = whole_body(&body, &next_offset);
        }
        Some(ReadPayload::Json(values))
    } else {
        if body.len() > 0 {
            chunks = whole_body(&body, &next_offset);
        }
        Some(ReadPayload::Bytes(body))
    };
    Ok(
        ReadResponse {
            status,
            next_offset,
            up_to_date,
            stream_closed,
            cursor,
            content_type,
            etag,
            chunks,
            payload,
        },
    )
}

/// The last chunk.
pub open spec fn last_chunk(chunks: Seq<ChunkView>) -> Option<ChunkView> {
    if chunks.len() > 0 {
        Some(chunks.last())
    } else {
        None
    }
}

/// The event of a subscription that a read comes to.
pub fn response_to_event(read: &ReadResponse) -> (r: SubscriptionEvent)
    ensures
        match r.chunk {
            Some(c) => last_chunk(chunk_views(read.chunks@)) == Some(c@),
            None => read.chunks@.len() == 0,
        },
        r.next_offset == read.next_offset,
        r.up_to_date == read.up_to_date,
        r.stream_closed == read.stream_closed,
        text_opt(r.cursor) == text_opt(read.cursor),
{
    let n: usize = read.chunks.len();
    let chunk = if n > 0 {
        Some(read.chunks[n - 1].copy())
    } else {
        None
    };
    SubscriptionEvent {
        chunk,
        next_offset: read.next_offset.clone(),
        up_to_date: read.up_to_date,
        stream_closed: read.stream_closed,
        cursor: read.cursor.clone(),
    }
}

/// Whether the headers that arrive are those of an answer, as far as a read looks at them.
pub open spec fn arrives(all: Map<Seq<char>, Seq<Seq<u8>>>, headers: Seq<(Seq<char>, Seq<char>)>) -> bool {
    &&& field_text(all, "stream-next-offset"@) == header_of(headers, "stream-next-offset"@)
    &&& field_text(all, "stream-up-to-date"@) == header_of(headers, "stream-up-to-date"@)
    &&& field_text(all, "stream-closed"@) == header_of(headers, "stream-closed"@)
    &&& field_text(all, "stream-cursor"@) == header_of(headers, "stream-cursor"@)
    &&& field_text(all, "content-type"@) == header_of(headers, "content-type"@)
    &&& field_text(all, "etag"@) == header_of(headers, "etag"@)
}

proof fn lemma_answer_names()
    ensures
        ascii_lower_spec("content-type"@) == "content-type"@,
        ascii_lower_spec("etag"@) == "etag"@,
        ascii_lower_spec("Stream-Next-Offset"@) == "stream-next-offset"@,
        ascii_lower_spec("stream-next-offset"@) == "stream-next-offset"@,
        ascii_lower_spec("Stream-Up-To-Date"@) == "stream-up-to-date"@,
        ascii_lower_spec("stream-up-to-date"@) == "stream-up-to-date"@,
        ascii_lower_spec("Stream-Closed"@) == "stream-closed"@,
        ascii_lower_spec("stream-closed"@) == "stream-closed"@,
        ascii_lower_spec("Stream-Cursor"@) == "stream-cursor"@,
        ascii_lower_spec("stream-cursor"@) == "stream-cursor"@,
        "content-type"@.len() == 12,
        "etag"@.len() == 4,
        "stream-next-offset"@.len() == 18,
        "stream-up-to-date"@.len() == 17,
        "stream-closed"@.len() == 13 && "stream-closed"@[8] == 'l',
        "stream-cursor"@.len() == 13 && "stream-cursor"@[8] == 'u',
{
    reveal_strlit("content-type");
    reveal_strlit("etag");
    reveal_strlit("Stream-Next-Offset");
    reveal_strlit("stream-next-offset");
    reveal_strlit("Stream-Up-To-Date");
    reveal_strlit("stream-up-to-date");
    reveal_strlit("Stream-Closed");
    reveal_strlit("stream-closed");
    reveal_strlit("Stream-Cursor");
    reveal_strlit("stream-cursor");
    assert(ascii_lower_spec("content-type"@) =~= "content-type"@);
    assert(ascii_lower_spec("etag"@) =~= "etag"@);
    assert(ascii_lower_spec("Stream-Next-Offset"@) =~= "stream-next-offset"@);
    assert(ascii_lower_spec("stream-next-offset"@) =~= "stream-next-offset"@);
    assert(ascii_lower_spec("Stream-Up-To-Date"@) =~= "stream-up-to-date"@);
    assert(ascii_lower_spec("stream-up-to-date"@) =~= "stream-up-to-date"@);
    assert(ascii_lower_spec("Stream-Closed"@) =~= "stream-closed"@);
    assert(ascii_lower_spec("stream-closed"@) =~= "stream-closed"@);
    assert(ascii_lower_spec("Stream-Cursor"@) =~= "stream-cursor"@);
    assert(ascii_lower_spec("stream-cursor"@) =~= "stream-cursor"@);
}

/// What a client reads of an answer with data is what the server read: where the next read
/// begins, whether the end has been reached and whether the stream is closed, the type, the
/// tag and the cursor.
pub proof fn law_client_reads_the_answer(
    all: Map<Seq<char>, Seq<Seq<u8>>>,
    read: ReadResult,
    content_type: Seq<char>,
    etag: Seq<char>,
    cursor: Option<Seq<char>>,
)
    requires
        arrives(all, data_reply(read, content_type, etag, cursor).headers),
    ensures
        field_text(all, "stream-next-offset"@) == Some(read.next_offset.token@),
        reported_up_to_date(all, 200) == read.at_tail,
        field_flag(all, "stream-closed"@) == read.is_final(),
        field_text(all, "stream-cursor"@) == cursor,
        field_text(all, "content-type"@) == Some(content_type),
        field_text(all, "etag"@) == Some(etag),
{
    lemma_answer_names();
    reveal_strlit("true");
    reveal_strlit("false");
    assert("false"@.len() == 5 && "true"@.len() == 4);
    assert(ascii_lower_spec("false"@).len() == 5 && ascii_lower_spec("true"@).len() == 4);
    let h0 = Seq::<(Seq<char>, Seq<char>)>::empty();
    let h1 = with_header(h0, "content-type"@, content_type);
    let h2 = with_header(h1, "Stream-Next-Offset"@, read.next_offset.token@);
    let h3 = with_header(h2, "Stream-Up-To-Date"@, flag_text(read.at_tail));
    let h4 = with_header(h3, "etag"@, etag);
    let h5 = if read.is_final() {
        with_header(h4, "Stream-Closed"@, "true"@)
    } else {
        h4
    };
    let h6 = match cursor {
        Some(c) => with_header(h5, "Stream-Cursor"@, c),
        None => h5,
    };
    assert(data_reply(read, content_type, etag, cursor).headers == h6);
    assert forall|other: Seq<char>| #[trigger]
        header_of(h6, other) == answered(read, content_type, etag, cursor, other) by {
        law_set_header(h0, "content-type"@, content_type, other);
        law_set_header(h1, "Stream-Next-Offset"@, read.next_offset.token@, other);
        law_set_header(h2, "Stream-Up-To-Date"@, flag_text(read.at_tail), other);
        law_set_header(h3, "etag"@, etag, other);
        law_set_header(h4, "Stream-Closed"@, "true"@, other);
        if let Some(c) = cursor {
            law_set_header(h5, "Stream-Cursor"@, c, other);
        }
    }
    assert(header_of(h6, "stream-next-offset"@) == Some(read.next_offset.token@));
    assert(header_of(h6, "stream-up-to-date"@) == Some(flag_text(read.at_tail)));
    assert(header_of(h6, "content-type"@) == Some(content_type));
    assert(header_of(h6, "etag"@) == Some(etag));
    assert(header_of(h6, "stream-cursor"@) == cursor);
}

/// The headers of an answer with data, by name in any case.
spec fn answered(
    read: ReadResult,
    content_type: Seq<char>,
    etag: Seq<char>,
    cursor: Option<Seq<char>>,
    name: Seq<char>,
) -> Option<Seq<char>> {
    let n = ascii_lower_spec(name);
    if n == "stream-cursor"@ {
        cursor
    } else if n == "stream-closed"@ {
        if read.is_final() {
            Some("true"@)
        } else {
            None
        }
    } else if n == "etag"@ {
        Some(etag)
    } else if n == "stream-up-to-date"@ {
        Some(flag_text(read.at_tail))
    } else if n == "stream-next-offset"@ {
        Some(read.next_offset.token@)
    } else if n == "content-type"@ {
        Some(content_type)
    } else {
        None
    }
}

} // verus!
