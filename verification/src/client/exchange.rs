//! Requests and answers from end to end: what a client asks is what the server plans, and what the
//! server answers is what the client is told.

use vstd::prelude::*;
use crate::client::error::Error;
use crate::client::model::{
    AppendResponse, CloseStreamResponse, CreateStreamRequest, CreateStreamResponse, HeadResponse,
    ProducerRequest, ReadPayload, ReadResponse, chunk_views,
};
use crate::client::protocol::is_catch_up;
use crate::client::requests::{
    append_headers, close_headers, create_headers, is_append_answer, is_close_answer,
    is_create_answer, is_head_answer, lemma_numeral_is_trimmed, lemma_true_text, optional_field,
    producer_headers,
};
use crate::decimal::{decimal, lemma_decimal_round_trip, signed_decimal, signed_value};
use crate::fields::header_of;
use crate::handlers::answers::{
    law_creation_answer_describes_the_stream, law_data_answer_holds_the_messages,
    law_data_answer_says_where_the_reader_is, law_metadata_describes_the_stream,
    law_plain_answer_says_where_the_stream_ends, law_producer_answer_says_where_the_stream_ends,
    lemma_header_names,
};
use crate::handlers::common::{ReadResult, StreamMetadata, asks_to_close};
use crate::handlers::get::data_reply;
use crate::handlers::head::{metadata_reply, seconds_left};
use crate::handlers::post::{
    AppendPlan, Fields, ProducerAppendResult, append_type, headers_accepted, is_append_plan,
    plain_reply, producer_of, producer_reply,
};
use crate::handlers::put::{
    CreateContent, CreatePlan, Expiration, create_reply, is_create_plan, is_expiration_of,
};
use crate::http::{field_flag, field_text};
use crate::json::json_document;
use crate::protocol::headers::{
    law_ttl_is_canonical_numeral, normalized_content_type, ttl_rejection, utc_timestamp,
};
use crate::protocol::json_mode::{contents, document_messages};
use crate::protocol::producer::{MAX_SAFE_INTEGER, ProducerOutcome};
use crate::text::{ascii_lower_spec, text_opt, trim_spec};
use crate::time::Timestamp;

verus! {

/// Whether the fields that arrive are the headers that were sent, and no others.
pub open spec fn is_received(all: Fields, headers: Seq<(Seq<char>, Seq<char>)>) -> bool {
    forall|name: Seq<char>|
        #![trigger field_text(all, name)]
        #![trigger all.dom().contains(ascii_lower_spec(name))]
        field_text(all, name) == header_of(headers, name) && (header_of(headers, name) is None
            ==> !all.dom().contains(ascii_lower_spec(name)))
}

pub proof fn lemma_header_one(name: Seq<char>, value: Seq<char>, other: Seq<char>)
    ensures
        header_of(seq![(name, value)], other) == if ascii_lower_spec(other) == ascii_lower_spec(name) {
            Some(value)
        } else {
            None
        },
{
    let f = seq![(name, value)];
    assert(f.skip(1) =~= Seq::<(Seq<char>, Seq<char>)>::empty());
    assert(header_of(f.skip(1), other) is None);
}

/// The headers of two lists are looked up in the first, then in the second.
pub proof fn lemma_header_behind(
    a: Seq<(Seq<char>, Seq<char>)>,
    b: Seq<(Seq<char>, Seq<char>)>,
    name: Seq<char>,
)
    ensures
        header_of(a + b, name) == match header_of(a, name) {
            Some(v) => Some(v),
            None => header_of(b, name),
        },
    decreases a.len(),
{
    if a.len() == 0 {
        assert(a + b =~= b);
    } else {
        assert((a + b)[0] == a[0]);
        assert((a + b).skip(1) =~= a.skip(1) + b);
        lemma_header_behind(a.skip(1), b, name);
    }
}

/// The names of request headers in lower case, and what tells them apart.
pub proof fn lemma_request_names()
    ensures
        ascii_lower_spec("Stream-Seq"@) == "stream-seq"@,
        ascii_lower_spec("stream-seq"@) == "stream-seq"@,
        ascii_lower_spec("Producer-Id"@) == "producer-id"@,
        ascii_lower_spec("producer-id"@) == "producer-id"@,
        ascii_lower_spec("Stream-Forked-From"@) == "stream-forked-from"@,
        ascii_lower_spec("Stream-Fork-Offset"@) == "stream-fork-offset"@,
        ascii_lower_spec("Stream-Fork-Sub-Offset"@) == "stream-fork-sub-offset"@,
        "stream-seq"@.len() == 10 && "stream-seq"@[7] == 's',
        "stream-ttl"@.len() == 10 && "stream-ttl"@[7] == 't',
        "producer-id"@.len() == 11,
        "stream-forked-from"@.len() == 18 && "stream-forked-from"@[11] == 'e',
        "stream-fork-offset"@.len() == 18 && "stream-fork-offset"@[11] == '-'
            && "stream-fork-offset"@[12] == 'o',
        "stream-next-offset"@[7] == 'n',
        "stream-fork-offset"@[7] == 'f',
        "stream-forked-from"@[7] == 'f',
        "stream-fork-sub-offset"@.len() == 22,
{
    reveal_strlit("Stream-Seq");
    reveal_strlit("stream-seq");
    reveal_strlit("stream-ttl");
    reveal_strlit("stream-next-offset");
    reveal_strlit("Producer-Id");
    reveal_strlit("producer-id");
    reveal_strlit("Stream-Forked-From");
    reveal_strlit("stream-forked-from");
    reveal_strlit("Stream-Fork-Offset");
    reveal_strlit("stream-fork-offset");
    reveal_strlit("Stream-Fork-Sub-Offset");
    reveal_strlit("stream-fork-sub-offset");
    assert(ascii_lower_spec("Stream-Seq"@) =~= "stream-seq"@);
    assert(ascii_lower_spec("stream-seq"@) =~= "stream-seq"@);
    assert(ascii_lower_spec("Producer-Id"@) =~= "producer-id"@);
    assert(ascii_lower_spec("producer-id"@) =~= "producer-id"@);
    assert(ascii_lower_spec("Stream-Forked-From"@) =~= "stream-forked-from"@);
    assert(ascii_lower_spec("Stream-Fork-Offset"@) =~= "stream-fork-offset"@);
    assert(ascii_lower_spec("Stream-Fork-Sub-Offset"@) =~= "stream-fork-sub-offset"@);
}

/// When a new stream expires is what the headers of the request say, whoever sends them: never
/// exactly where neither header is there, at the very moment that the one names, or after as many
/// seconds as the other is the numeral of.
pub proof fn law_expiration_is_what_the_headers_say(f: Fields, x: Expiration)
    requires
        is_expiration_of(Ok(x), f),
    ensures
        ({
            let ttl = field_text(f, "stream-ttl"@);
            let at = field_text(f, "stream-expires-at"@);
            match x {
                Expiration::Never => ttl is None && at is None,
                Expiration::After(n) => at is None && (ttl matches Some(t) && trim_spec(t) == decimal(
                    n as nat,
                )),
                Expiration::At(m) => ttl is None && (at matches Some(t) && utc_timestamp(t) == Ok::<
                    (i64, u32),
                    Seq<char>,
                >((m.seconds, m.nanos))),
            }
        }),
{
    lemma_header_names();
    if let Expiration::After(n) = x {
        law_ttl_is_canonical_numeral(field_text(f, "Stream-TTL"@)->0, n);
    }
}

/// A valid expiration is accepted: an end alone whose moment can be read, a number of seconds
/// alone, or neither; and nothing else is.
pub proof fn law_valid_expiration_is_accepted(f: Fields, r: crate::protocol::error::Result<Expiration>)
    requires
        is_expiration_of(r, f),
    ensures
        ({
            let ttl = field_text(f, "stream-ttl"@);
            let at = field_text(f, "stream-expires-at"@);
            r is Ok <==> (match (ttl, at) {
                (None, None) => true,
                (Some(t), None) => ttl_rejection(trim_spec(t)) is None,
                (None, Some(t)) => utc_timestamp(t) is Ok,
                (Some(_), Some(_)) => false,
            })
        }),
{
    lemma_header_names();
}

proof fn lemma_created(request: CreateStreamRequest)
    ensures
        ({
            let h = create_headers(request);
            &&& header_of(h, "content-type"@) == Some(request.content_type@)
            &&& header_of(h, "stream-ttl"@) == match request.ttl_seconds {
                Some(n) => Some(decimal(n as nat)),
                None => None,
            }
            &&& header_of(h, "stream-expires-at"@) == text_opt(request.expires_at)
            &&& header_of(h, "stream-closed"@) == if request.closed {
                Some("true"@)
            } else {
                None
            }
            &&& header_of(h, "Stream-Forked-From"@) is None
            &&& header_of(h, "Stream-Fork-Offset"@) is None
            &&& header_of(h, "Stream-Fork-Sub-Offset"@) is None
        }),
{
    lemma_header_names();
    lemma_request_names();
    lemma_created_name(request, "content-type"@);
    lemma_created_name(request, "stream-ttl"@);
    lemma_created_name(request, "stream-expires-at"@);
    lemma_created_name(request, "stream-closed"@);
    lemma_created_name(request, "Stream-Forked-From"@);
    lemma_created_name(request, "Stream-Fork-Offset"@);
    lemma_created_name(request, "Stream-Fork-Sub-Offset"@);
}

proof fn lemma_created_name(request: CreateStreamRequest, name: Seq<char>)
    ensures
        ({
            let n = ascii_lower_spec(name);
            header_of(create_headers(request), name) == if n == ascii_lower_spec("content-type"@) {
                Some(request.content_type@)
            } else if n == ascii_lower_spec("stream-ttl"@) && request.ttl_seconds is Some {
                Some(decimal(request.ttl_seconds->0 as nat))
            } else if n == ascii_lower_spec("stream-expires-at"@) && request.expires_at is Some {
                text_opt(request.expires_at)
            } else if n == ascii_lower_spec("stream-closed"@) && request.closed {
                Some("true"@)
            } else {
                None
            }
        }),
{
    let none = Seq::<(Seq<char>, Seq<char>)>::empty();
    let ttl = match request.ttl_seconds {
        Some(n) => seq![("stream-ttl"@, decimal(n as nat))],
        None => none,
    };
    let expires = match request.expires_at {
        Some(t) => seq![("stream-expires-at"@, t@)],
        None => none,
    };
    let closed = if request.closed {
        seq![("stream-closed"@, "true"@)]
    } else {
        none
    };
    let first = seq![("content-type"@, request.content_type@)];
    lemma_header_behind(first + ttl + expires, closed, name);
    lemma_header_behind(first + ttl, expires, name);
    lemma_header_behind(first, ttl, name);
    lemma_header_one("content-type"@, request.content_type@, name);
    if let Some(n) = request.ttl_seconds {
        lemma_header_one("stream-ttl"@, decimal(n as nat), name);
    }
    if let Some(t) = request.expires_at {
        lemma_header_one("stream-expires-at"@, t@, name);
    }
    lemma_header_one("stream-closed"@, "true"@, name);
}

/// The messages that a body comes to on a stream of a type: for JSON one for each element of an
/// array, or the one value; else the body as it is, where it is not empty.
pub open spec fn are_messages_of(messages: Seq<Seq<u8>>, body: Seq<u8>, content_type: Seq<char>) -> bool {
    if body.len() == 0 {
        messages.len() == 0
    } else if content_type == "application/json"@ {
        json_document(body) matches Ok(d) && messages == document_messages(d.1)
    } else {
        messages == seq![body]
    }
}

/// What a client asks for with a creation is what the server plans: the type, the end of the
/// stream's life, whether it is closed, and what it begins with. It is refused only where the
/// client asks for two ends, names a moment that cannot be read, or sends a body that is not of
/// the type.
pub proof fn law_creation_is_planned_as_asked(
    request: CreateStreamRequest,
    f: Fields,
    base: Seq<char>,
    body: Seq<u8>,
    location: Seq<char>,
    r: crate::protocol::error::Result<CreatePlan>,
)
    requires
        trim_spec(request.content_type@).len() > 0,
        is_received(f, create_headers(request)),
        is_create_plan(r, f, base, body, location),
    ensures
        ({
            let content_type = normalized_content_type(request.content_type@);
            match r {
                Ok(plan) => {
                    &&& plan.content_type@ == content_type
                    &&& plan.created_closed == request.closed
                    &&& plan.location@ == location
                    &&& match (request.ttl_seconds, request.expires_at) {
                        (None, None) => plan.expiration == Expiration::Never,
                        (Some(n), None) => plan.expiration == Expiration::After(n),
                        (None, Some(t)) => plan.expiration matches Expiration::At(m)
                            && utc_timestamp(t@) == Ok::<(i64, u32), Seq<char>>(
                            (m.seconds, m.nanos),
                        ),
                        (Some(_), Some(_)) => false,
                    }
                    &&& plan.content matches CreateContent::Messages(m) && are_messages_of(
                        contents(m@),
                        body,
                        content_type,
                    )
                },
                Err(_) => {
                    ||| request.ttl_seconds is Some && request.expires_at is Some
                    ||| request.expires_at matches Some(t) && utc_timestamp(t@) is Err
                    ||| body.len() > 0 && content_type == "application/json"@ && json_document(body) is Err
                },
            }
        }),
{
    lemma_header_names();
    lemma_request_names();
    lemma_created(request);
    lemma_true_text();
    assert(field_text(f, "Stream-TTL"@) == field_text(f, "stream-ttl"@));
    assert(field_text(f, "Stream-Expires-At"@) == field_text(f, "stream-expires-at"@));
    assert(field_text(f, "Stream-Closed"@) == field_text(f, "stream-closed"@));
    assert(field_text(f, "content-type"@) == Some(request.content_type@));
    assert(field_text(f, "Stream-Forked-From"@) is None);
    assert(!f.dom().contains(ascii_lower_spec("Stream-Forked-From"@)));
    assert(!f.dom().contains(ascii_lower_spec("Stream-Fork-Offset"@)));
    assert(!f.dom().contains(ascii_lower_spec("Stream-Fork-Sub-Offset"@)));
    if let Some(n) = request.ttl_seconds {
        lemma_numeral_is_trimmed(n as nat);
        law_ttl_is_canonical_numeral(decimal(n as nat), n);
    }
    if let Ok(plan) = r {
        law_expiration_is_what_the_headers_say(f, plan.expiration);
        if let Expiration::After(n) = plan.expiration {
            lemma_decimal_round_trip(n as nat, u64::MAX as nat);
            if let Some(k) = request.ttl_seconds {
                lemma_decimal_round_trip(k as nat, u64::MAX as nat);
            }
        }
    }
}

/// What a producer's headers look like on the way, by name in any case.
proof fn lemma_producer_sent(producer: Option<&ProducerRequest>, name: Seq<char>)
    ensures
        ({
            let n = ascii_lower_spec(name);
            header_of(producer_headers(producer), name) == match producer {
                Some(p) => if n == ascii_lower_spec("producer-id"@) {
                    Some(p.producer_id@)
                } else if n == ascii_lower_spec("producer-epoch"@) {
                    Some(signed_decimal(p.producer_epoch as int))
                } else if n == ascii_lower_spec("producer-seq"@) {
                    Some(signed_decimal(p.producer_seq as int))
                } else {
                    None
                },
                None => None,
            }
        }),
{
    if let Some(p) = producer {
        let a = seq![("producer-id"@, p.producer_id@)];
        let b = seq![("producer-epoch"@, signed_decimal(p.producer_epoch as int))];
        let c = seq![("producer-seq"@, signed_decimal(p.producer_seq as int))];
        assert(producer_headers(producer) =~= a + b + c);
        lemma_header_behind(a + b, c, name);
        lemma_header_behind(a, b, name);
        lemma_header_one("producer-id"@, p.producer_id@, name);
        lemma_header_one("producer-epoch"@, signed_decimal(p.producer_epoch as int), name);
        lemma_header_one("producer-seq"@, signed_decimal(p.producer_seq as int), name);
    }
}

proof fn lemma_optional_sent(field: Seq<char>, value: Option<&str>, name: Seq<char>)
    ensures
        header_of(optional_field(field, value), name) == if ascii_lower_spec(name) == ascii_lower_spec(
            field,
        ) {
            match value {
                Some(v) => Some(v@),
                None => None,
            }
        } else {
            None
        },
{
    if let Some(v) = value {
        lemma_header_one(field, v@, name);
    }
}

/// Whether a producer can be sent: it has a name, and its numbers are neither negative nor beyond
/// 2^53-1.
pub open spec fn can_be_sent(producer: Option<&ProducerRequest>) -> bool {
    producer matches Some(p) ==> p.producer_id@.len() > 0 && 0 <= p.producer_epoch <= MAX_SAFE_INTEGER
        && 0 <= p.producer_seq <= MAX_SAFE_INTEGER
}

/// Whether a plan is for the producer of a request.
pub open spec fn is_planned_for(plan: AppendPlan, producer: Option<&ProducerRequest>) -> bool {
    match producer {
        Some(p) => plan.headers.producer matches Some(h) && h.id@ == p.producer_id@ && h.epoch
            == p.producer_epoch && h.seq == p.producer_seq,
        None => plan.headers.producer is None,
    }
}

proof fn lemma_producer_received(f: Fields, producer: Option<&ProducerRequest>)
    requires
        can_be_sent(producer),
        field_text(f, "Producer-Id"@) == header_of(producer_headers(producer), "Producer-Id"@),
        field_text(f, "Producer-Epoch"@) == header_of(producer_headers(producer), "Producer-Epoch"@),
        field_text(f, "Producer-Seq"@) == header_of(producer_headers(producer), "Producer-Seq"@),
    ensures
        producer_of(f) == match producer {
            Some(p) => ProducerOutcome::Present {
                id: p.producer_id@,
                epoch: p.producer_epoch as nat,
                seq: p.producer_seq as nat,
            },
            None => ProducerOutcome::Absent,
        },
{
    lemma_header_names();
    lemma_request_names();
    lemma_producer_sent(producer, "Producer-Id"@);
    lemma_producer_sent(producer, "Producer-Epoch"@);
    lemma_producer_sent(producer, "Producer-Seq"@);
    if let Some(p) = producer {
        let epoch = p.producer_epoch as nat;
        let seq = p.producer_seq as nat;
        lemma_decimal_round_trip(epoch, u64::MAX as nat);
        lemma_decimal_round_trip(seq, u64::MAX as nat);
        assert(epoch == 0 ==> decimal(epoch).len() == 1);
        assert(seq == 0 ==> decimal(seq).len() == 1);
    }
}

/// What a client appends is what the server plans to append: the bytes of the body for the type,
/// the sequence number and the producer that were sent, without closing the stream. It is refused
/// only where the body is no JSON on a JSON stream, or an empty array.
pub proof fn law_append_is_planned_as_asked(
    content_type: &str,
    stream_seq: Option<&str>,
    producer: Option<&ProducerRequest>,
    f: Fields,
    body: Seq<u8>,
    r: crate::protocol::error::Result<AppendPlan>,
)
    requires
        body.len() > 0,
        can_be_sent(producer),
        is_received(f, append_headers(Some(content_type), stream_seq, producer)),
        is_append_plan(r, f, body),
    ensures
        ({
            let t = normalized_content_type(content_type@);
            match r {
                Ok(plan) => {
                    &&& plan.headers.content_type@ == t
                    &&& text_opt(plan.headers.seq) == match stream_seq {
                        Some(s) => Some(s@),
                        None => None,
                    }
                    &&& is_planned_for(plan, producer)
                    &&& !plan.headers.should_close && !plan.headers.is_close_only
                    &&& are_messages_of(contents(plan.messages@), body, t)
                },
                Err(_) => t == "application/json"@ && (json_document(body) matches Ok(d) ==> d.1.len()
                    == 0),
            }
        }),
{
    lemma_header_names();
    lemma_request_names();
    let a = optional_field("content-type"@, Some(content_type));
    let b = optional_field("stream-seq"@, stream_seq);
    let c = producer_headers(producer);
    assert forall|name: Seq<char>| #[trigger]
        header_of(append_headers(Some(content_type), stream_seq, producer), name) == match header_of(
            a,
            name,
        ) {
            Some(v) => Some(v),
            None => match header_of(b, name) {
                Some(v) => Some(v),
                None => header_of(c, name),
            },
        } by {
        lemma_header_behind(a + b, c, name);
        lemma_header_behind(a, b, name);
    }
    assert forall|name: Seq<char>| #[trigger] header_of(a, name) == if ascii_lower_spec(name)
        == "content-type"@ {
        Some(content_type@)
    } else {
        None
    } by {
        lemma_optional_sent("content-type"@, Some(content_type), name);
    }
    assert forall|name: Seq<char>| #[trigger] header_of(b, name) == if ascii_lower_spec(name)
        == "stream-seq"@ {
        match stream_seq {
            Some(v) => Some(v@),
            None => None,
        }
    } else {
        None
    } by {
        lemma_optional_sent("stream-seq"@, stream_seq, name);
    }
    lemma_producer_sent(producer, "Stream-Closed"@);
    lemma_producer_sent(producer, "Stream-Seq"@);
    lemma_producer_received(f, producer);
    assert(field_text(f, "content-type"@) == Some(content_type@));
    assert(field_text(f, "Stream-Closed"@) is None);
    assert(!asks_to_close(f));
    assert(headers_accepted(f, body.len()));
    assert(append_type(f) == normalized_content_type(content_type@));
}

/// What a client closes is what the server plans to close, with the body that was sent, if any, and
/// the producer.
pub proof fn law_close_is_planned_as_asked(
    content_type: Option<&str>,
    producer: Option<&ProducerRequest>,
    f: Fields,
    body: Seq<u8>,
    r: crate::protocol::error::Result<AppendPlan>,
)
    requires
        body.len() > 0 ==> content_type is Some,
        can_be_sent(producer),
        is_received(f, close_headers(content_type, producer)),
        is_append_plan(r, f, body),
    ensures
        ({
            let t = match content_type {
                Some(c) => normalized_content_type(c@),
                None => Seq::empty(),
            };
            match r {
                Ok(plan) => {
                    &&& plan.headers.content_type@ == t
                    &&& plan.headers.seq is None
                    &&& is_planned_for(plan, producer)
                    &&& plan.headers.should_close
                    &&& plan.headers.is_close_only == (body.len() == 0)
                    &&& are_messages_of(contents(plan.messages@), body, t)
                },
                Err(_) => body.len() > 0 && t == "application/json"@ && json_document(body) is Err,
            }
        }),
{
    lemma_header_names();
    lemma_request_names();
    lemma_true_text();
    let a = seq![("stream-closed"@, "true"@)];
    let b = optional_field("content-type"@, content_type);
    let c = producer_headers(producer);
    assert forall|name: Seq<char>| #[trigger]
        header_of(close_headers(content_type, producer), name) == match header_of(a, name) {
            Some(v) => Some(v),
            None => match header_of(b, name) {
                Some(v) => Some(v),
                None => header_of(c, name),
            },
        } by {
        lemma_header_behind(a + b, c, name);
        lemma_header_behind(a, b, name);
    }
    assert forall|name: Seq<char>| #[trigger] header_of(a, name) == if ascii_lower_spec(name)
        == "stream-closed"@ {
        Some("true"@)
    } else {
        None
    } by {
        lemma_header_one("stream-closed"@, "true"@, name);
    }
    assert forall|name: Seq<char>| #[trigger] header_of(b, name) == if ascii_lower_spec(name)
        == "content-type"@ {
        match content_type {
            Some(v) => Some(v@),
            None => None,
        }
    } else {
        None
    } by {
        lemma_optional_sent("content-type"@, content_type, name);
    }
    lemma_producer_sent(producer, "content-type"@);
    lemma_producer_sent(producer, "Stream-Seq"@);
    lemma_producer_received(f, producer);
    assert(field_text(f, "Stream-Closed"@) == Some("true"@));
    assert(asks_to_close(f));
    assert(field_text(f, "content-type"@) == match content_type {
        Some(v) => Some(v@),
        None => None,
    });
    assert(field_text(f, "Stream-Seq"@) is None);
}

/// A flag reads as it was sent: set where the header is there with the text `true`, else not.
proof fn lemma_flag_received(all: Fields, closed: bool)
    requires
        field_text(all, "stream-closed"@) == if closed {
            Some("true"@)
        } else {
            None
        },
    ensures
        field_flag(all, "stream-closed"@) == closed,
{
}

proof fn lemma_number_received(n: u64)
    requires
        n <= i64::MAX,
    ensures
        signed_value(decimal(n as nat)) == Some(n as int),
{
    lemma_decimal_round_trip(n as nat, i64::MAX as nat);
    assert(crate::decimal::is_digit(decimal(n as nat)[0]));
}

/// What the server answers to an append by a producer, the client is told: the end of the stream,
/// whether it is closed, the epoch and the number.
pub proof fn law_client_is_told_of_its_append(
    result: ProducerAppendResult,
    is_close_only: bool,
    all: Fields,
    body: Seq<char>,
    r: Result<AppendResponse, Error>,
)
    requires
        is_received(all, producer_reply(result, is_close_only).headers),
        is_append_answer(r, producer_reply(result, is_close_only).status, all, body),
        match result {
            ProducerAppendResult::Accepted { epoch, seq, .. } => epoch <= i64::MAX && seq <= i64::MAX,
            ProducerAppendResult::Duplicate { epoch, seq, .. } => epoch <= i64::MAX && seq <= i64::MAX,
        },
    ensures
        ({
            let (epoch, seq, token, closed) = match result {
                ProducerAppendResult::Accepted { epoch, seq, next_offset, closed } => (
                    epoch,
                    seq,
                    next_offset.token@,
                    closed,
                ),
                ProducerAppendResult::Duplicate { epoch, seq, next_offset, closed } => (
                    epoch,
                    seq,
                    next_offset.token@,
                    closed,
                ),
            };
            &&& r matches Ok(a)
            &&& text_opt(a.next_offset) == Some(token)
            &&& a.stream_closed == closed
            &&& a.producer_epoch == Some(epoch as i64)
            &&& a.producer_seq == Some(seq as i64)
        }),
{
    law_producer_answer_says_where_the_stream_ends(result, is_close_only);
    let (epoch, seq, closed) = match result {
        ProducerAppendResult::Accepted { epoch, seq, closed, .. } => (epoch, seq, closed),
        ProducerAppendResult::Duplicate { epoch, seq, closed, .. } => (epoch, seq, closed),
    };
    lemma_number_received(epoch);
    lemma_number_received(seq);
    assert(field_text(all, "stream-next-offset"@) is Some);
    assert(field_text(all, "producer-epoch"@) is Some);
    assert(field_text(all, "producer-seq"@) is Some);
    assert(field_text(all, "stream-closed"@) == if closed {
        Some("true"@)
    } else {
        None
    });
    lemma_flag_received(all, closed);
}

/// What the server answers to an append without a producer, the client is told.
pub proof fn law_client_is_told_of_a_plain_append(
    token: Seq<char>,
    closed: bool,
    all: Fields,
    body: Seq<char>,
    r: Result<AppendResponse, Error>,
)
    requires
        is_received(all, plain_reply(token, closed).headers),
        is_append_answer(r, plain_reply(token, closed).status, all, body),
    ensures
        r matches Ok(a) && text_opt(a.next_offset) == Some(token) && a.stream_closed == closed,
{
    law_plain_answer_says_where_the_stream_ends(token, closed);
    assert(field_text(all, "stream-next-offset"@) is Some);
    assert(field_text(all, "stream-closed"@) == if closed {
        Some("true"@)
    } else {
        None
    });
    lemma_flag_received(all, closed);
}

/// What the server answers to a close, the client is told: where the stream ended for good.
pub proof fn law_client_is_told_of_its_close(
    token: Seq<char>,
    closed: bool,
    all: Fields,
    body: Seq<char>,
    r: Result<CloseStreamResponse, Error>,
)
    requires
        is_received(all, plain_reply(token, closed).headers),
        is_close_answer(r, plain_reply(token, closed).status, all, body),
    ensures
        r matches Ok(c) && c.final_offset@ == token && c.stream_closed == closed,
{
    law_plain_answer_says_where_the_stream_ends(token, closed);
    assert(field_text(all, "stream-next-offset"@) is Some);
    assert(field_text(all, "stream-closed"@) == if closed {
        Some("true"@)
    } else {
        None
    });
    lemma_flag_received(all, closed);
}

/// What the server answers to a creation, the client is told.
pub proof fn law_client_is_told_of_its_creation(
    created: bool,
    content_type: Seq<char>,
    token: Seq<char>,
    location: Seq<char>,
    closed: bool,
    all: Fields,
    body: Seq<char>,
    r: Result<CreateStreamResponse, Error>,
)
    requires
        is_received(all, create_reply(created, content_type, token, location, closed).headers),
        is_create_answer(
            r,
            create_reply(created, content_type, token, location, closed).status,
            all,
            body,
        ),
    ensures
        r matches Ok(c) && c.status == (if created {
            201u16
        } else {
            200
        }) && text_opt(c.next_offset) == Some(token) && c.stream_closed == closed,
{
    law_creation_answer_describes_the_stream(created, content_type, token, location, closed);
    assert(field_text(all, "stream-next-offset"@) is Some);
    assert(field_text(all, "stream-closed"@) == if closed {
        Some("true"@)
    } else {
        None
    });
    lemma_flag_received(all, closed);
}

/// What the server tells of a stream, the client is told: its type, its end, whether it is closed,
/// and the time that it has left.
pub proof fn law_client_is_told_of_the_stream(
    meta: StreamMetadata,
    now: Timestamp,
    expiry: Option<Seq<char>>,
    all: Fields,
    body: Seq<char>,
    r: Result<HeadResponse, Error>,
)
    requires
        is_received(all, metadata_reply(meta, now, expiry).headers),
        is_head_answer(r, metadata_reply(meta, now, expiry).status, all, body),
        meta.expires_at matches Some(at) ==> (seconds_left(now, at, meta.ttl_seconds is Some) matches Some(
            n,
        ) ==> n <= u64::MAX),
    ensures
        ({
            let left = match meta.expires_at {
                Some(at) => seconds_left(now, at, meta.ttl_seconds is Some),
                None => None,
            };
            &&& r matches Ok(h)
            &&& text_opt(h.content_type) == Some(meta.content_type@)
            &&& text_opt(h.offset) == Some(meta.next_offset.token@)
            &&& h.stream_closed == meta.closed
            &&& match left {
                Some(n) => h.ttl_seconds matches Some(k) && k == n && text_opt(h.expires_at) == expiry,
                None => h.ttl_seconds is None && h.expires_at is None,
            }
        }),
{
    lemma_header_names();
    law_metadata_describes_the_stream(meta, now, expiry);
    if let Some(at) = meta.expires_at {
        if let Some(n) = seconds_left(now, at, meta.ttl_seconds is Some) {
            lemma_decimal_round_trip(n as nat, u64::MAX as nat);
        }
    }
    assert(field_text(all, "stream-next-offset"@) is Some);
    assert(field_text(all, "content-type"@) is Some);
    assert(field_text(all, "stream-ttl"@) == header_of(
        metadata_reply(meta, now, expiry).headers,
        "stream-ttl"@,
    ));
    assert(field_text(all, "stream-expires-at"@) == header_of(
        metadata_reply(meta, now, expiry).headers,
        "stream-expires-at"@,
    ));
    assert(field_text(all, "stream-closed"@) == if meta.closed {
        Some("true"@)
    } else {
        None
    });
    lemma_flag_received(all, meta.closed);
}

/// What the server answers to a read with data, whatever the way of reading, the client is told:
/// all bytes in one chunk, where the next read begins, whether it is up to date, whether the
/// stream is closed and read to its end, and the cursor to send next.
pub proof fn law_client_is_told_of_its_read(
    read: ReadResult,
    content_type: Seq<char>,
    etag: Seq<char>,
    cursor: Option<Seq<char>>,
    all: Fields,
    r: Result<ReadResponse, Error>,
)
    requires
        !"application/json"@.is_prefix_of(content_type),
        is_received(all, data_reply(read, content_type, etag, cursor).headers),
        is_catch_up(
            r,
            data_reply(read, content_type, etag, cursor).status,
            all,
            data_reply(read, content_type, etag, cursor).body->0,
        ),
    ensures
        ({
            let bytes = contents(read.messages@).flatten();
            &&& r matches Ok(told)
            &&& told.next_offset@ == read.next_offset.token@
            &&& told.up_to_date == read.at_tail
            &&& told.stream_closed == (read.closed && read.at_tail)
            &&& text_opt(told.cursor) == cursor
            &&& text_opt(told.content_type) == Some(content_type)
            &&& text_opt(told.etag) == Some(etag)
            &&& told.payload matches Some(ReadPayload::Bytes(b)) && b@ == bytes
            &&& bytes.len() > 0 ==> chunk_views(told.chunks@).len() == 1 && chunk_views(
                told.chunks@,
            )[0].data == bytes && chunk_views(told.chunks@)[0].next_offset == read.next_offset.token@
            &&& bytes.len() == 0 ==> told.chunks@.len() == 0
        }),
{
    let a = data_reply(read, content_type, etag, cursor);
    law_data_answer_says_where_the_reader_is(read, content_type, etag, cursor);
    law_data_answer_holds_the_messages(read, content_type, etag, cursor, Seq::empty());
    assert("application/json"@.is_prefix_of("application/json"@)) by {
        let s = "application/json"@;
        assert(s =~= s.take(s.len() as int));
    }
    assert(field_text(all, "stream-next-offset"@) is Some);
    assert(field_text(all, "content-type"@) == Some(content_type));
    assert(field_text(all, "stream-cursor"@) == cursor);
    assert(field_text(all, "etag"@) == Some(etag));
    assert(field_text(all, "stream-up-to-date"@) is Some);
    assert(field_text(all, "stream-closed"@) == if read.closed && read.at_tail {
        Some("true"@)
    } else {
        None
    });
    lemma_flag_received(all, read.closed && read.at_tail);
    reveal_strlit("true");
    reveal_strlit("false");
    assert(ascii_lower_spec("false"@).len() == 5 && ascii_lower_spec("true"@).len() == 4);
    if let Ok(told) = r {
        assert(chunk_views(told.chunks@).len() == told.chunks@.len());
        assert(told.up_to_date == read.at_tail);
        assert(told.payload matches Some(ReadPayload::Bytes(b)) && b@ == contents(
            read.messages@,
        ).flatten());
    }
}

} // verus!
