//! What the answers of the server say, header by header and byte by byte.

use vstd::prelude::*;
use vstd::utf8::encode_utf8;
use crate::decimal::{decimal, signed_decimal};
use crate::encoding::{lemma_encode_ascii_char, lemma_encode_concat};
use crate::fields::{header_of, law_set_header, lemma_set_header_distinct};
use crate::handlers::common::{ReadResult, ReplyView, StreamMetadata, reply};
use crate::handlers::get::{
    appended, appended_values, catch_up_reply, cursor_text, data_reply, etag_spec,
    law_json_read_returns_appended_values, law_read_returns_appended_bytes,
    lemma_comma_separated_text, long_poll_reply, no_content, not_modified, sse_reply, timeout_reply,
    wake_reply,
};
use crate::handlers::head::{metadata_reply, nanos_until, seconds_left};
use crate::handlers::post::{ProducerAppendResult, plain_reply, producer_reply};
use crate::handlers::put::create_reply;
use crate::json::json_document;
use crate::protocol::json_mode::{contents, document_messages};
use crate::text::{ascii_lower_spec, join_spec};
use crate::time::Timestamp;

verus! {

/// The names of response headers in lower case, and what tells them apart.
pub proof fn lemma_header_names()
    ensures
        ascii_lower_spec("content-type"@) == "content-type"@,
        ascii_lower_spec("etag"@) == "etag"@,
        ascii_lower_spec("location"@) == "location"@,
        ascii_lower_spec("stream-sse-data-encoding"@) == "stream-sse-data-encoding"@,
        ascii_lower_spec("Stream-Next-Offset"@) == "stream-next-offset"@,
        ascii_lower_spec("stream-next-offset"@) == "stream-next-offset"@,
        ascii_lower_spec("Stream-Up-To-Date"@) == "stream-up-to-date"@,
        ascii_lower_spec("stream-up-to-date"@) == "stream-up-to-date"@,
        ascii_lower_spec("Stream-Closed"@) == "stream-closed"@,
        ascii_lower_spec("stream-closed"@) == "stream-closed"@,
        ascii_lower_spec("Stream-Cursor"@) == "stream-cursor"@,
        ascii_lower_spec("stream-cursor"@) == "stream-cursor"@,
        ascii_lower_spec("Stream-TTL"@) == "stream-ttl"@,
        ascii_lower_spec("stream-ttl"@) == "stream-ttl"@,
        ascii_lower_spec("Stream-Expires-At"@) == "stream-expires-at"@,
        ascii_lower_spec("stream-expires-at"@) == "stream-expires-at"@,
        ascii_lower_spec("Producer-Epoch"@) == "producer-epoch"@,
        ascii_lower_spec("producer-epoch"@) == "producer-epoch"@,
        ascii_lower_spec("Producer-Seq"@) == "producer-seq"@,
        ascii_lower_spec("producer-seq"@) == "producer-seq"@,
        ascii_lower_spec("Producer-Expected-Seq"@) == "producer-expected-seq"@,
        ascii_lower_spec("producer-expected-seq"@) == "producer-expected-seq"@,
        ascii_lower_spec("Producer-Received-Seq"@) == "producer-received-seq"@,
        ascii_lower_spec("producer-received-seq"@) == "producer-received-seq"@,
        "etag"@.len() == 4,
        "location"@.len() == 8,
        "stream-ttl"@.len() == 10,
        "content-type"@.len() == 12 && "content-type"@[0] == 'c',
        "producer-seq"@.len() == 12 && "producer-seq"@[0] == 'p',
        "stream-closed"@.len() == 13 && "stream-closed"@[8] == 'l',
        "stream-cursor"@.len() == 13 && "stream-cursor"@[8] == 'u',
        "producer-epoch"@.len() == 14,
        "stream-up-to-date"@.len() == 17 && "stream-up-to-date"@[7] == 'u',
        "stream-expires-at"@.len() == 17 && "stream-expires-at"@[7] == 'e',
        "stream-next-offset"@.len() == 18,
        "producer-expected-seq"@.len() == 21 && "producer-expected-seq"@[9] == 'e',
        "producer-received-seq"@.len() == 21 && "producer-received-seq"@[9] == 'r',
        "stream-sse-data-encoding"@.len() == 24,
{
    reveal_strlit("content-type");
    reveal_strlit("etag");
    reveal_strlit("location");
    reveal_strlit("stream-sse-data-encoding");
    reveal_strlit("Stream-Next-Offset");
    reveal_strlit("stream-next-offset");
    reveal_strlit("Stream-Up-To-Date");
    reveal_strlit("stream-up-to-date");
    reveal_strlit("Stream-Closed");
    reveal_strlit("stream-closed");
    reveal_strlit("Stream-Cursor");
    reveal_strlit("stream-cursor");
    reveal_strlit("Stream-TTL");
    reveal_strlit("stream-ttl");
    reveal_strlit("Stream-Expires-At");
    reveal_strlit("stream-expires-at");
    reveal_strlit("Producer-Epoch");
    reveal_strlit("producer-epoch");
    reveal_strlit("Producer-Seq");
    reveal_strlit("producer-seq");
    reveal_strlit("Producer-Expected-Seq");
    reveal_strlit("producer-expected-seq");
    reveal_strlit("Producer-Received-Seq");
    reveal_strlit("producer-received-seq");
    assert(ascii_lower_spec("content-type"@) =~= "content-type"@);
    assert(ascii_lower_spec("etag"@) =~= "etag"@);
    assert(ascii_lower_spec("location"@) =~= "location"@);
    assert(ascii_lower_spec("stream-sse-data-encoding"@) =~= "stream-sse-data-encoding"@);
    assert(ascii_lower_spec("Stream-Next-Offset"@) =~= "stream-next-offset"@);
    assert(ascii_lower_spec("stream-next-offset"@) =~= "stream-next-offset"@);
    assert(ascii_lower_spec("Stream-Up-To-Date"@) =~= "stream-up-to-date"@);
    assert(ascii_lower_spec("stream-up-to-date"@) =~= "stream-up-to-date"@);
    assert(ascii_lower_spec("Stream-Closed"@) =~= "stream-closed"@);
    assert(ascii_lower_spec("stream-closed"@) =~= "stream-closed"@);
    assert(ascii_lower_spec("Stream-Cursor"@) =~= "stream-cursor"@);
    assert(ascii_lower_spec("stream-cursor"@) =~= "stream-cursor"@);
    assert(ascii_lower_spec("Stream-TTL"@) =~= "stream-ttl"@);
    assert(ascii_lower_spec("stream-ttl"@) =~= "stream-ttl"@);
    assert(ascii_lower_spec("Stream-Expires-At"@) =~= "stream-expires-at"@);
    assert(ascii_lower_spec("stream-expires-at"@) =~= "stream-expires-at"@);
    assert(ascii_lower_spec("Producer-Epoch"@) =~= "producer-epoch"@);
    assert(ascii_lower_spec("producer-epoch"@) =~= "producer-epoch"@);
    assert(ascii_lower_spec("Producer-Seq"@) =~= "producer-seq"@);
    assert(ascii_lower_spec("producer-seq"@) =~= "producer-seq"@);
    assert(ascii_lower_spec("Producer-Expected-Seq"@) =~= "producer-expected-seq"@);
    assert(ascii_lower_spec("producer-expected-seq"@) =~= "producer-expected-seq"@);
    assert(ascii_lower_spec("Producer-Received-Seq"@) =~= "producer-received-seq"@);
    assert(ascii_lower_spec("producer-received-seq"@) =~= "producer-received-seq"@);
}

/// What setting a header does to an answer.
proof fn lemma_with(r: ReplyView, name: Seq<char>, value: Seq<char>)
    ensures
        forall|other: Seq<char>| #[trigger]
            header_of(r.with(name, value).headers, other) == if ascii_lower_spec(other)
                == ascii_lower_spec(name) {
                Some(value)
            } else {
                header_of(r.headers, other)
            },
        r.with(name, value).status == r.status,
        r.with(name, value).body == r.body,
        r.is_valid() ==> r.with(name, value).is_valid(),
{
    assert forall|other: Seq<char>| #[trigger]
        header_of(r.with(name, value).headers, other) == if ascii_lower_spec(other)
            == ascii_lower_spec(name) {
            Some(value)
        } else {
            header_of(r.headers, other)
        } by {
        law_set_header(r.headers, name, value, other);
    }
    if r.is_valid() {
        lemma_set_header_distinct(r.headers, name, value);
    }
}

/// Nothing but a status is in an answer that has just been begun.
proof fn lemma_bare(status: u16)
    ensures
        reply(status).status == status,
        reply(status).body is None,
        reply(status).is_valid(),
        forall|other: Seq<char>| #[trigger] header_of(reply(status).headers, other) is None,
{
}

/// The header that says that a stream is closed, and the value that it has then.
pub open spec fn tells_closed(headers: Seq<(Seq<char>, Seq<char>)>, closed: bool) -> bool {
    header_of(headers, "stream-closed"@) == if closed {
        Some("true"@)
    } else {
        None
    }
}

/// Every answer with data is a 200 that says once each what the type of the stream is, where the
/// next read begins, whether the reader is up to date, whether the stream is closed and read to
/// its end, and which cursor to send next, where there is one.
pub proof fn law_data_answer_says_where_the_reader_is(
    read: ReadResult,
    content_type: Seq<char>,
    etag: Seq<char>,
    cursor: Option<Seq<char>>,
)
    ensures
        ({
            let a = data_reply(read, content_type, etag, cursor);
            &&& a.status == 200
            &&& a.is_valid()
            &&& header_of(a.headers, "content-type"@) == Some(content_type)
            &&& header_of(a.headers, "stream-next-offset"@) == Some(read.next_offset.token@)
            &&& header_of(a.headers, "stream-up-to-date"@) == Some(
                if read.at_tail {
                    "true"@
                } else {
                    "false"@
                },
            )
            &&& header_of(a.headers, "etag"@) == Some(etag)
            &&& tells_closed(a.headers, read.closed && read.at_tail)
            &&& header_of(a.headers, "stream-cursor"@) == cursor
        }),
{
    lemma_header_names();
    lemma_bare(200);
    let r0 = reply(200);
    let flag = if read.at_tail {
        "true"@
    } else {
        "false"@
    };
    lemma_with(r0, "content-type"@, content_type);
    let r1 = r0.with("content-type"@, content_type);
    lemma_with(r1, "Stream-Next-Offset"@, read.next_offset.token@);
    let r2 = r1.with("Stream-Next-Offset"@, read.next_offset.token@);
    lemma_with(r2, "Stream-Up-To-Date"@, flag);
    let r3 = r2.with("Stream-Up-To-Date"@, flag);
    lemma_with(r3, "etag"@, etag);
    let r4 = r3.with("etag"@, etag);
    lemma_with(r4, "Stream-Closed"@, "true"@);
    let r5 = r4.with_closed(read.closed && read.at_tail);
    if let Some(c) = cursor {
        lemma_with(r5, "Stream-Cursor"@, c);
    }
}

/// Whatever the way of reading, the body of an answer with data is all messages one after another,
/// and for a JSON stream one array of them: a bracket, the messages with commas between them, and
/// a bracket.
pub proof fn law_data_answer_holds_the_messages(
    read: ReadResult,
    content_type: Seq<char>,
    etag: Seq<char>,
    cursor: Option<Seq<char>>,
    texts: Seq<Seq<char>>,
)
    ensures
        ({
            let body = data_reply(read, content_type, etag, cursor).body;
            &&& content_type != "application/json"@ ==> body == Some(
                contents(read.messages@).flatten(),
            )
            &&& content_type == "application/json"@ && contents(read.messages@) == texts.map_values(
                |t: Seq<char>| encode_utf8(t),
            ) ==> body == Some(encode_utf8("["@ + join_spec(texts, ","@) + "]"@))
        }),
{
    if content_type == "application/json"@ && contents(read.messages@) == texts.map_values(
        |t: Seq<char>| encode_utf8(t),
    ) {
        assert(contents(read.messages@) =~= document_messages(texts));
        lemma_comma_separated_text(texts);
        let inner = join_spec(texts, ","@);
        reveal_strlit("[");
        reveal_strlit("]");
        lemma_encode_concat("["@ + inner, "]"@);
        lemma_encode_concat("["@, inner);
        assert("["@ =~= seq!['[']);
        assert("]"@ =~= seq![']']);
        lemma_encode_ascii_char('[');
        lemma_encode_ascii_char(']');
    }
}

/// What was appended, an answer with data gives back, whatever the way of reading: the bytes of
/// the bodies, in order, and for a JSON stream one array of all their values.
pub proof fn law_data_answer_returns_what_was_appended(
    bodies: Seq<Seq<u8>>,
    read: ReadResult,
    content_type: Seq<char>,
    etag: Seq<char>,
    cursor: Option<Seq<char>>,
)
    requires
        appended(bodies, content_type) == Some(contents(read.messages@)),
        content_type == "application/json"@ ==> forall|i: int|
            0 <= i < bodies.len() ==> (#[trigger] bodies[i]).len() == 0 || json_document(bodies[i]) is Ok,
    ensures
        data_reply(read, content_type, etag, cursor).body == Some(
            if content_type == "application/json"@ {
                encode_utf8("["@ + join_spec(appended_values(bodies), ","@) + "]"@)
            } else {
                bodies.flatten()
            },
        ),
{
    if content_type == "application/json"@ {
        law_json_read_returns_appended_values(bodies);
    } else {
        law_read_returns_appended_bytes(bodies, content_type);
    }
}

/// Whether an answer is a 204 without a body that says where the reader is.
pub open spec fn says_nothing_new(a: ReplyView, read: ReadResult, cursor: Seq<char>) -> bool {
    &&& a.status == 204
    &&& a.is_valid()
    &&& a.body is None
    &&& header_of(a.headers, "stream-next-offset"@) == Some(read.next_offset.token@)
    &&& header_of(a.headers, "stream-up-to-date"@) == Some("true"@)
    &&& tells_closed(a.headers, read.closed && read.at_tail)
    &&& header_of(a.headers, "stream-cursor"@) == Some(cursor)
}

proof fn lemma_no_content(read: ReadResult, cursor: Seq<char>)
    ensures
        says_nothing_new(
            no_content(read.next_offset.token@, read.closed && read.at_tail, cursor),
            read,
            cursor,
        ),
{
    lemma_header_names();
    lemma_bare(204);
    let token = read.next_offset.token@;
    let r0 = reply(204);
    lemma_with(r0, "Stream-Next-Offset"@, token);
    let r1 = r0.with("Stream-Next-Offset"@, token);
    lemma_with(r1, "Stream-Up-To-Date"@, "true"@);
    let r2 = r1.with("Stream-Up-To-Date"@, "true"@);
    lemma_with(r2, "Stream-Closed"@, "true"@);
    let r3 = r2.with_closed(read.closed && read.at_tail);
    lemma_with(r3, "Stream-Cursor"@, cursor);
}

/// An answer that nothing has changed is a 304 without a body that says where the next read
/// begins.
pub proof fn law_unchanged_answer(read: ReadResult)
    ensures
        ({
            let a = not_modified(read);
            &&& a.status == 304
            &&& a.is_valid()
            &&& a.body is None
            &&& header_of(a.headers, "stream-next-offset"@) == Some(read.next_offset.token@)
            &&& header_of(a.headers, "stream-up-to-date"@) == Some("true"@)
        }),
{
    lemma_header_names();
    lemma_bare(304);
    let token = read.next_offset.token@;
    let r0 = reply(304);
    lemma_with(r0, "Stream-Next-Offset"@, token);
    lemma_with(r0.with("Stream-Next-Offset"@, token), "Stream-Up-To-Date"@, "true"@);
}

/// The tag of a read is the two offsets between quotation marks with a colon between them, and
/// `:c` behind them where the stream is closed and read to its end.
pub proof fn law_etag_holds_both_ends(start: Seq<char>, read: ReadResult)
    ensures
        etag_spec(start, read) == "\""@ + start + ":"@ + read.next_offset.token@ + (if read.closed
            && read.at_tail {
            ":c"@
        } else {
            ""@
        }) + "\""@,
{
    reveal_strlit("\"");
    reveal_strlit(":c\"");
    reveal_strlit(":c");
    reveal_strlit("");
    let front = "\""@ + start + ":"@ + read.next_offset.token@;
    assert(":c\""@ =~= ":c"@ + "\""@);
    if read.closed && read.at_tail {
        assert(front + ":c\""@ =~= front + ":c"@ + "\""@);
    } else {
        assert(front + "\""@ =~= front + ""@ + "\""@);
    }
}

/// A catch-up read is answered with data, whether or not there is any, unless the client has the
/// tag of just this read.
pub proof fn law_catch_up_answers(
    raw_offset: Seq<char>,
    if_none_match: Option<Seq<char>>,
    content_type: Seq<char>,
    read: ReadResult,
)
    ensures
        ({
            let a = catch_up_reply(raw_offset, if_none_match, content_type, read);
            let etag = etag_spec(raw_offset, read);
            if if_none_match == Some(etag) {
                a.status == 304 && a.body is None && header_of(a.headers, "stream-next-offset"@)
                    == Some(read.next_offset.token@)
            } else {
                a == data_reply(read, content_type, etag, None) && a.status == 200
            }
        }),
{
    law_unchanged_answer(read);
    law_data_answer_says_where_the_reader_is(
        read,
        content_type,
        etag_spec(raw_offset, read),
        None,
    );
}

/// A long poll is answered at once where there are messages, with all of them, and where the
/// stream is closed and read to its end; it waits exactly where there is nothing to say yet. An
/// answer carries a cursor that is above all before it.
pub proof fn law_long_poll_answers_as_soon_as_there_is_data(
    raw_offset: Seq<char>,
    if_none_match: Option<Seq<char>>,
    content_type: Seq<char>,
    read: ReadResult,
    last: u64,
)
    ensures
        ({
            let (answer, after) = long_poll_reply(
                raw_offset,
                if_none_match,
                content_type,
                read,
                last,
            );
            let etag = etag_spec(raw_offset, read);
            let cursor = cursor_text(last, read.next_offset.place);
            if if_none_match == Some(etag) {
                answer matches Some(a) && a.status == 304 && a.body is None && after == last
            } else if read.messages@.len() > 0 {
                answer == Some(data_reply(read, content_type, etag, Some(cursor)))
            } else if read.closed && read.at_tail {
                answer matches Some(a) && says_nothing_new(a, read, cursor)
            } else {
                answer is None && after == last
            }
        }),
{
    law_unchanged_answer(read);
    lemma_no_content(read, cursor_text(last, read.next_offset.place));
}

/// A long poll that was woken is answered with all new messages, and one for which nothing came
/// with where the reader is.
pub proof fn law_woken_long_poll_answers(
    tail: Seq<char>,
    content_type: Seq<char>,
    read: ReadResult,
    last: u64,
)
    ensures
        ({
            let cursor = cursor_text(last, read.next_offset.place);
            &&& read.messages@.len() > 0 ==> wake_reply(tail, content_type, read, last) == data_reply(
                read,
                content_type,
                etag_spec(tail, read),
                Some(cursor),
            )
            &&& read.messages@.len() == 0 ==> says_nothing_new(
                wake_reply(tail, content_type, read, last),
                read,
                cursor,
            )
            &&& says_nothing_new(timeout_reply(read, last), read, cursor)
        }),
{
    lemma_no_content(read, cursor_text(last, read.next_offset.place));
}

/// The headers of a stream of events: data is base64 exactly where the stream is binary.
pub proof fn law_event_stream_says_its_encoding(is_binary: bool)
    ensures
        ({
            let a = sse_reply(is_binary);
            &&& a.status == 200
            &&& a.is_valid()
            &&& header_of(a.headers, "content-type"@) == Some("text/event-stream"@)
            &&& header_of(a.headers, "stream-sse-data-encoding"@) == if is_binary {
                Some("base64"@)
            } else {
                None
            }
        }),
{
    lemma_header_names();
    lemma_bare(200);
    let r0 = reply(200);
    lemma_with(r0, "content-type"@, "text/event-stream"@);
    lemma_with(
        r0.with("content-type"@, "text/event-stream"@),
        "stream-sse-data-encoding"@,
        "base64"@,
    );
}

/// The answer to an append by a producer says where the stream ends now, and repeats the epoch and
/// the number of the append: 200 for new data, 204 where nothing new came or only the end of the
/// stream did.
pub proof fn law_producer_answer_says_where_the_stream_ends(
    result: ProducerAppendResult,
    is_close_only: bool,
)
    ensures
        ({
            let a = producer_reply(result, is_close_only);
            let (accepted, epoch, seq, token, closed) = match result {
                ProducerAppendResult::Accepted { epoch, seq, next_offset, closed } => (
                    true,
                    epoch,
                    seq,
                    next_offset.token@,
                    closed,
                ),
                ProducerAppendResult::Duplicate { epoch, seq, next_offset, closed } => (
                    false,
                    epoch,
                    seq,
                    next_offset.token@,
                    closed,
                ),
            };
            &&& a.status == if accepted && !is_close_only {
                200u16
            } else {
                204
            }
            &&& a.is_valid()
            &&& a.body is None
            &&& header_of(a.headers, "stream-next-offset"@) == Some(token)
            &&& header_of(a.headers, "producer-epoch"@) == Some(decimal(epoch as nat))
            &&& header_of(a.headers, "producer-seq"@) == Some(decimal(seq as nat))
            &&& tells_closed(a.headers, closed)
        }),
{
    lemma_header_names();
    let (status, epoch, seq, token, closed) = match result {
        ProducerAppendResult::Accepted { epoch, seq, next_offset, closed } => (
            if is_close_only {
                204u16
            } else {
                200
            },
            epoch,
            seq,
            next_offset.token@,
            closed,
        ),
        ProducerAppendResult::Duplicate { epoch, seq, next_offset, closed } => (
            204u16,
            epoch,
            seq,
            next_offset.token@,
            closed,
        ),
    };
    lemma_bare(status);
    let r0 = reply(status);
    lemma_with(r0, "Stream-Next-Offset"@, token);
    let r1 = r0.with("Stream-Next-Offset"@, token);
    lemma_with(r1, "Producer-Epoch"@, decimal(epoch as nat));
    let r2 = r1.with("Producer-Epoch"@, decimal(epoch as nat));
    lemma_with(r2, "Producer-Seq"@, decimal(seq as nat));
    let r3 = r2.with("Producer-Seq"@, decimal(seq as nat));
    lemma_with(r3, "Stream-Closed"@, "true"@);
}

/// The answer to an append without a producer is a 204 that says where the stream ends now.
pub proof fn law_plain_answer_says_where_the_stream_ends(token: Seq<char>, closed: bool)
    ensures
        ({
            let a = plain_reply(token, closed);
            &&& a.status == 204
            &&& a.is_valid()
            &&& a.body is None
            &&& header_of(a.headers, "stream-next-offset"@) == Some(token)
            &&& tells_closed(a.headers, closed)
        }),
{
    lemma_header_names();
    lemma_bare(204);
    let r0 = reply(204);
    lemma_with(r0, "Stream-Next-Offset"@, token);
    lemma_with(r0.with("Stream-Next-Offset"@, token), "Stream-Closed"@, "true"@);
}

/// The answer to a creation says whether the stream is new, what its type is, where it ends, where
/// it is found and whether it is closed.
pub proof fn law_creation_answer_describes_the_stream(
    created: bool,
    content_type: Seq<char>,
    token: Seq<char>,
    location: Seq<char>,
    closed: bool,
)
    ensures
        ({
            let a = create_reply(created, content_type, token, location, closed);
            &&& a.status == if created {
                201u16
            } else {
                200
            }
            &&& a.is_valid()
            &&& a.body is None
            &&& header_of(a.headers, "content-type"@) == Some(content_type)
            &&& header_of(a.headers, "stream-next-offset"@) == Some(token)
            &&& header_of(a.headers, "location"@) == Some(location)
            &&& tells_closed(a.headers, closed)
        }),
{
    lemma_header_names();
    let status: u16 = if created {
        201
    } else {
        200
    };
    lemma_bare(status);
    let r0 = reply(status);
    lemma_with(r0, "content-type"@, content_type);
    let r1 = r0.with("content-type"@, content_type);
    lemma_with(r1, "Stream-Next-Offset"@, token);
    let r2 = r1.with("Stream-Next-Offset"@, token);
    lemma_with(r2, "location"@, location);
    let r3 = r2.with("location"@, location);
    lemma_with(r3, "Stream-Closed"@, "true"@);
}

/// The metadata of a stream: its type, where it ends and whether it is closed; where it has time
/// left, how many seconds and, where it can be written, the moment of its end; and neither where
/// it never expires.
pub proof fn law_metadata_describes_the_stream(
    meta: StreamMetadata,
    now: Timestamp,
    expiry: Option<Seq<char>>,
)
    ensures
        ({
            let a = metadata_reply(meta, now, expiry);
            let left = match meta.expires_at {
                Some(at) => seconds_left(now, at, meta.ttl_seconds is Some),
                None => None,
            };
            &&& a.status == 200
            &&& a.is_valid()
            &&& a.body is None
            &&& header_of(a.headers, "content-type"@) == Some(meta.content_type@)
            &&& header_of(a.headers, "stream-next-offset"@) == Some(meta.next_offset.token@)
            &&& tells_closed(a.headers, meta.closed)
            &&& header_of(a.headers, "stream-ttl"@) == match left {
                Some(n) => Some(signed_decimal(n)),
                None => None,
            }
            &&& header_of(a.headers, "stream-expires-at"@) == if left is Some {
                expiry
            } else {
                None
            }
        }),
{
    lemma_header_names();
    lemma_bare(200);
    let r0 = reply(200);
    lemma_with(r0, "content-type"@, meta.content_type@);
    let r1 = r0.with("content-type"@, meta.content_type@);
    lemma_with(r1, "Stream-Next-Offset"@, meta.next_offset.token@);
    let r2 = r1.with("Stream-Next-Offset"@, meta.next_offset.token@);
    lemma_with(r2, "Stream-Closed"@, "true"@);
    let r3 = r2.with_closed(meta.closed);
    if let Some(at) = meta.expires_at {
        if let Some(n) = seconds_left(now, at, meta.ttl_seconds is Some) {
            lemma_with(r3, "Stream-TTL"@, signed_decimal(n));
            if let Some(t) = expiry {
                lemma_with(r3.with("Stream-TTL"@, signed_decimal(n)), "Stream-Expires-At"@, t);
            }
        }
    }
}

/// The time that a stream has left is the time to its end, in whole seconds: begun ones do not
/// count, but for a stream that was created with a number of seconds, where a begun one of at
/// least a millisecond counts. Nothing is left exactly where not even that is.
pub proof fn law_time_left_is_the_time_to_the_end(now: Timestamp, at: Timestamp, has_ttl: bool)
    requires
        now.nanos < 1_000_000_000,
        at.nanos < 1_000_000_000,
    ensures
        ({
            let nanos = (at.seconds - now.seconds) * 1_000_000_000 + at.nanos - now.nanos;
            match seconds_left(now, at, has_ttl) {
                Some(n) => n > 0 && if has_ttl {
                    (n - 1) * 1_000_000_000 + 1_000_000 <= nanos < n * 1_000_000_000 + 1_000_000
                } else {
                    n * 1_000_000_000 <= nanos < (n + 1) * 1_000_000_000
                },
                None => if has_ttl {
                    nanos < 1_000_000
                } else {
                    nanos < 1_000_000_000
                },
            }
        }),
{
    let nanos = (at.seconds - now.seconds) * 1_000_000_000 + at.nanos - now.nanos;
    assert(nanos_until(now, at) == nanos);
}

} // verus!
