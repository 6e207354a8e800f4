//! Refusals from end to end: what the server says of an error, and what the client learns of it.

use vstd::prelude::*;
use crate::client::error::{Error as ClientError, ErrorKind};
use crate::client::exchange::is_received;
use crate::client::protocol::{canonical_reason, error_kind_of, kept_field, kept_fields};
use crate::client::requests::is_reply_error;
use crate::decimal::{decimal, is_digit, lemma_decimal_round_trip};
use crate::fields::{
    field_of, fields, has_distinct_headers, header_of, law_set_header, lemma_set_header_distinct,
    with_header, with_headers,
};
use crate::handlers::answers::lemma_header_names;
use crate::handlers::post::{Fields, append_problem};
use crate::http::field_text;
use crate::json::json_string;
use crate::protocol::error::{Error, IoFailureKind, classified};
use crate::protocol::problem::{ProblemView, WireProblem, is_wire, problem_json};
use crate::protocol::producer::ProducerHeaders;
use crate::text::{ascii_lower_spec, occurs, text_opt};

verus! {

proof fn lemma_retry_name()
    ensures
        ascii_lower_spec("retry-after"@) == "retry-after"@,
        "retry-after"@.len() == 11,
{
    reveal_strlit("retry-after");
    assert(ascii_lower_spec("retry-after"@) =~= "retry-after"@);
}

/// A response suggests a delay exactly where storage is unavailable and suggests one, and then
/// that one in seconds; it has no other header.
pub proof fn law_retry_delay_is_what_storage_suggests(e: Error, name: Seq<char>)
    ensures
        header_of(e.response().headers, name) == match e {
            Error::Unavailable(f) => if ascii_lower_spec(name) == ascii_lower_spec("retry-after"@)
                && f.retry_after_secs is Some {
                Some(decimal(f.retry_after_secs->0 as nat))
            } else {
                None
            },
            _ => None,
        },
{
    let h = e.response().headers;
    if h.len() > 0 {
        assert(h.skip(1) =~= Seq::<(Seq<char>, Seq<char>)>::empty());
        assert(header_of(h.skip(1), name) is None);
    }
}

/// The payload of an error repeats the status of its response, and says in words what is wrong:
/// the message of the error, unless that tells of the inside of storage.
pub proof fn law_payload_says_what_is_wrong(e: Error)
    ensures
        ({
            let p = e.response().problem;
            &&& p.status == e.status_spec()
            &&& p.instance is None
            &&& if e is Unavailable || e is InsufficientStorage || e is Storage {
                500 <= p.status < 600
            } else {
                400 <= p.status < 500 && p.detail == Some(e.message())
            }
        }),
{
}

/// Whether a text ends with another.
pub open spec fn ends_in(text: Seq<char>, end: Seq<char>) -> bool {
    text.len() >= end.len() && text.skip(text.len() - end.len()) == end
}

proof fn lemma_ends_in(a: Seq<char>, b: Seq<char>)
    ensures
        ends_in(a + b, b),
{
    assert((a + b).skip((a + b).len() - b.len()) =~= b);
}

/// The message of an error ends with what was wrong: the name, the value, the reason or the number
/// that was given.
pub proof fn law_message_names_what_was_wrong(e: Error)
    ensures
        match e {
            Error::NotFound(s) => ends_in(e.message(), s@),
            Error::InvalidOffset(s) => ends_in(e.message(), s@),
            Error::ContentTypeMismatch { actual, .. } => ends_in(e.message(), actual@),
            Error::SequenceGap { actual, .. } => ends_in(e.message(), decimal(actual as nat)),
            Error::EpochFenced { received, .. } => ends_in(e.message(), decimal(received as nat)),
            Error::InvalidProducerState(s) => ends_in(e.message(), s@),
            Error::InvalidTtl(s) => ends_in(e.message(), s@),
            Error::InvalidJson(s) => ends_in(e.message(), s@),
            Error::InvalidHeader { reason, .. } => ends_in(e.message(), reason@),
            Error::InvalidStreamName(s) => ends_in(e.message(), s@),
            Error::SeqOrderingViolation { received, .. } => ends_in(e.message(), received@),
            Error::StreamGone(s) => ends_in(e.message(), s@),
            Error::StreamPathBlocked(s) => ends_in(e.message(), s@),
            Error::ForkFromTombstone(s) => ends_in(e.message(), s@),
            Error::Storage(s) => ends_in(e.message(), s@),
            _ => true,
        },
{
    match e {
        Error::NotFound(s) => lemma_ends_in("Stream not found: "@, s@),
        Error::InvalidOffset(s) => lemma_ends_in("Invalid offset format: "@, s@),
        Error::ContentTypeMismatch { expected, actual } => lemma_ends_in(
            "Content type mismatch: expected "@ + expected@ + ", got "@,
            actual@,
        ),
        Error::SequenceGap { expected, actual } => lemma_ends_in(
            "Producer sequence gap: expected "@ + decimal(expected as nat) + ", got "@,
            decimal(actual as nat),
        ),
        Error::EpochFenced { current, received } => lemma_ends_in(
            "Producer epoch fenced: current "@ + decimal(current as nat) + ", received "@,
            decimal(received as nat),
        ),
        Error::InvalidProducerState(s) => lemma_ends_in("Invalid producer state: "@, s@),
        Error::InvalidTtl(s) => lemma_ends_in("Invalid TTL format: "@, s@),
        Error::InvalidJson(s) => lemma_ends_in("Invalid JSON: "@, s@),
        Error::InvalidHeader { header, reason } => lemma_ends_in(
            "Invalid header value for "@ + header@ + ": "@,
            reason@,
        ),
        Error::InvalidStreamName(s) => lemma_ends_in("Invalid stream name: "@, s@),
        Error::SeqOrderingViolation { last, received } => lemma_ends_in(
            "Stream-Seq ordering violation: last="@ + last@ + ", received="@,
            received@,
        ),
        Error::StreamGone(s) => lemma_ends_in("Stream is gone: "@, s@),
        Error::StreamPathBlocked(s) => lemma_ends_in(
            "Stream path is reserved by a soft-deleted lineage: "@,
            s@,
        ),
        Error::ForkFromTombstone(s) => lemma_ends_in("Cannot fork from deleted stream: "@, s@),
        Error::Storage(s) => lemma_ends_in("Storage error: "@, s@),
        _ => {},
    }
}

/// A failure of the disk that passes is answered with 503 and a delay, one of capacity with 507,
/// and any other with 500; what happened is kept for telemetry.
pub proof fn law_disk_failures_are_told_apart(
    kind: IoFailureKind,
    backend: &'static str,
    operation: String,
    detail: String,
)
    ensures
        ({
            let e = classified(kind, backend, operation, detail);
            let passes = kind is Interrupted || kind is WouldBlock || kind is TimedOut;
            let full = kind is StorageFull || kind is QuotaExceeded || kind is FileTooLarge;
            &&& e.status_spec() == if passes {
                503u16
            } else if full {
                507
            } else {
                500
            }
            &&& (header_of(e.response().headers, "retry-after"@) is Some) == passes
            &&& e.response().telemetry matches Some(t) && t.internal_detail == Some(detail@) && (
            passes || full ==> t.storage_backend == Some(backend@) && t.storage_operation == Some(
                operation@,
            ))
        }),
{
    lemma_retry_name();
    law_retry_delay_is_what_storage_suggests(
        classified(kind, backend, operation, detail),
        "retry-after"@,
    );
}

/// The headers of an error response as it is sent: those that it was given, over the type of its
/// payload.
pub proof fn law_problem_headers_are_sent(given: Seq<(Seq<char>, Seq<char>)>, name: Seq<char>)
    requires
        has_distinct_headers(given),
    ensures
        header_of(
            with_headers(seq![("content-type"@, "application/problem+json"@)], given),
            name,
        ) == match header_of(given, name) {
            Some(v) => Some(v),
            None => if ascii_lower_spec(name) == ascii_lower_spec("content-type"@) {
                Some("application/problem+json"@)
            } else {
                None
            },
        },
    decreases given.len(),
{
    let base = seq![("content-type"@, "application/problem+json"@)];
    if given.len() == 0 {
        assert(base.skip(1) =~= Seq::<(Seq<char>, Seq<char>)>::empty());
        assert(header_of(base.skip(1), name) is None);
    } else {
        let most = given.drop_last();
        let last = given.last();
        assert forall|i: int, j: int| 0 <= i < j < most.len() implies ascii_lower_spec(
            (#[trigger] most[i]).0,
        ) != ascii_lower_spec((#[trigger] most[j]).0) by {
            assert(most[i] == given[i] && most[j] == given[j]);
        }
        law_problem_headers_are_sent(most, name);
        law_set_header(with_headers(base, most), last.0, last.1, name);
        lemma_header_last(most, last, name);
        assert(most.push(last) =~= given);
        if ascii_lower_spec(name) == ascii_lower_spec(last.0) {
            assert forall|i: int| 0 <= i < most.len() implies ascii_lower_spec((#[trigger] most[i]).0)
                != ascii_lower_spec(name) by {
                assert(most[i] == given[i]);
                assert(ascii_lower_spec(given[i].0) != ascii_lower_spec(given[given.len() - 1].0));
            }
            lemma_header_absent(most, name);
        }
    }
}

proof fn lemma_header_absent(f: Seq<(Seq<char>, Seq<char>)>, name: Seq<char>)
    requires
        forall|i: int| 0 <= i < f.len() ==> ascii_lower_spec((#[trigger] f[i]).0) != ascii_lower_spec(name),
    ensures
        header_of(f, name) is None,
    decreases f.len(),
{
    if f.len() > 0 {
        let rest = f.skip(1);
        assert forall|i: int| 0 <= i < rest.len() implies ascii_lower_spec((#[trigger] rest[i]).0)
            != ascii_lower_spec(name) by {
            assert(rest[i] == f[i + 1]);
        }
        lemma_header_absent(rest, name);
    }
}

proof fn lemma_header_last(
    f: Seq<(Seq<char>, Seq<char>)>,
    last: (Seq<char>, Seq<char>),
    name: Seq<char>,
)
    ensures
        header_of(f.push(last), name) == match header_of(f, name) {
            Some(v) => Some(v),
            None => if ascii_lower_spec(last.0) == ascii_lower_spec(name) {
                Some(last.1)
            } else {
                None
            },
        },
    decreases f.len(),
{
    let g = f.push(last);
    if f.len() == 0 {
        assert(g.skip(1) =~= f);
    } else {
        lemma_header_last(f.skip(1), last, name);
        assert(g.skip(1) =~= f.skip(1).push(last));
        assert(g[0] == f[0]);
    }
}

/// The payload of an error as text: a JSON object with the type, the title, the status, the code
/// and, where there are any, the detail and the place, in this order.
pub proof fn law_payload_is_written_in_full(p: ProblemView)
    ensures
        problem_json(p) == "{\"type\":"@ + json_string(p.problem_type) + ",\"title\":"@ + json_string(
            p.title,
        ) + ",\"status\":"@ + decimal(p.status as nat) + ",\"code\":"@ + json_string(p.code) + (
        match p.detail {
            Some(d) => ",\"detail\":"@ + json_string(d),
            None => ""@,
        }) + (match p.instance {
            Some(i) => ",\"instance\":"@ + json_string(i),
            None => ""@,
        }) + "}"@,
{
    reveal_strlit("");
    reveal_strlit(",\"");
    reveal_strlit("\":");
    reveal_strlit("detail");
    reveal_strlit("instance");
    reveal_strlit(",\"detail\":");
    reveal_strlit(",\"instance\":");
    assert(""@ =~= Seq::<char>::empty());
    assert(",\"detail\":"@ =~= ",\""@ + "detail"@ + "\":"@);
    assert(",\"instance\":"@ =~= ",\""@ + "instance"@ + "\":"@);
}

/// Whether an append was refused by a rule that says more than the error itself: what a producer
/// or a late writer needs to go on.
pub open spec fn tells_how_to_go_on(
    error: Error,
    producer: Option<ProducerHeaders>,
    tail: Option<Seq<char>>,
    headers: Seq<(Seq<char>, Seq<char>)>,
) -> bool {
    match (error, producer) {
        (Error::StreamClosed, _) => header_of(headers, "stream-closed"@) == Some("true"@) && header_of(
            headers,
            "stream-next-offset"@,
        ) == tail,
        (Error::EpochFenced { current, .. }, Some(_)) => header_of(headers, "producer-epoch"@) == Some(
            decimal(current as nat),
        ) && header_of(headers, "stream-closed"@) is None,
        (Error::SequenceGap { expected, actual }, Some(_)) => header_of(
            headers,
            "producer-expected-seq"@,
        ) == Some(decimal(expected as nat)) && header_of(headers, "producer-received-seq"@) == Some(
            decimal(actual as nat),
        ) && header_of(headers, "stream-closed"@) is None,
        _ => header_of(headers, "stream-closed"@) is None && header_of(headers, "producer-epoch"@) is None,
    }
}

/// An append that is refused keeps the status of its error. A closed stream says so and where it
/// ended; a producer that was fenced off learns the current epoch, and one that left a gap the
/// numbers that were expected and received.
pub proof fn law_refused_append_tells_how_to_go_on(
    error: Error,
    producer: Option<ProducerHeaders>,
    tail: Option<Seq<char>>,
)
    ensures
        ({
            let r = append_problem(error, producer, tail);
            &&& r.problem.status == error.status_spec()
            &&& r.problem.code == error.response().problem.code
            &&& tells_how_to_go_on(error, producer, tail, r.headers)
        }),
{
    lemma_header_names();
    lemma_retry_name();
    let none = error.response().headers;
    assert forall|name: Seq<char>| #[trigger] header_of(none, name) is Some implies ascii_lower_spec(name)
        == "retry-after"@ by {
        law_retry_delay_is_what_storage_suggests(error, name);
    }
    assert(header_of(none, "stream-closed"@) is None);
    assert(header_of(none, "producer-epoch"@) is None);
    assert(header_of(none, "stream-next-offset"@) is None);
    match (error, producer) {
        (Error::StreamClosed, _) => {
            let closed = with_header(none, "Stream-Closed"@, "true"@);
            law_set_header(none, "Stream-Closed"@, "true"@, "stream-closed"@);
            law_set_header(none, "Stream-Closed"@, "true"@, "stream-next-offset"@);
            if let Some(t) = tail {
                law_set_header(closed, "Stream-Next-Offset"@, t, "stream-closed"@);
                law_set_header(closed, "Stream-Next-Offset"@, t, "stream-next-offset"@);
            }
        },
        (Error::EpochFenced { current, .. }, Some(p)) => {
            let h = (Error::EpochFenced { current, received: p.epoch }).response().headers;
            assert(h =~= none);
            law_set_header(none, "Producer-Epoch"@, decimal(current as nat), "producer-epoch"@);
            law_set_header(none, "Producer-Epoch"@, decimal(current as nat), "stream-closed"@);
        },
        (Error::SequenceGap { expected, actual }, Some(_)) => {
            let e = decimal(expected as nat);
            let a = decimal(actual as nat);
            let first = with_header(none, "Producer-Expected-Seq"@, e);
            law_set_header(none, "Producer-Expected-Seq"@, e, "producer-expected-seq"@);
            law_set_header(none, "Producer-Expected-Seq"@, e, "stream-closed"@);
            law_set_header(first, "Producer-Received-Seq"@, a, "producer-expected-seq"@);
            law_set_header(first, "Producer-Received-Seq"@, a, "producer-received-seq"@);
            law_set_header(first, "Producer-Received-Seq"@, a, "stream-closed"@);
        },
        _ => {},
    }
}

proof fn lemma_field_behind_kept(
    f: Seq<(Seq<char>, Seq<char>)>,
    all: Fields,
    name: Seq<char>,
    other: Seq<char>,
)
    ensures
        field_of(f + kept_field(all, name), other) == match field_of(f, other) {
            Some(v) => Some(v),
            None => if other == name {
                field_text(all, name)
            } else {
                None
            },
        },
    decreases f.len(),
{
    let k = kept_field(all, name);
    if f.len() == 0 {
        assert(f + k =~= k);
        if k.len() > 0 {
            assert(k.skip(1) =~= Seq::<(Seq<char>, Seq<char>)>::empty());
            assert(field_of(k.skip(1), other) is None);
            assert(k[0].0 == name);
        }
        assert(field_of(f, other) is None);
    } else {
        lemma_field_behind_kept(f.skip(1), all, name, other);
        assert((f + k).skip(1) =~= f.skip(1) + k);
        assert((f + k)[0] == f[0]);
    }
}

/// The protocol fields of an error response are kept as they arrive.
pub proof fn law_error_fields_are_kept(all: Fields, name: Seq<char>)
    requires
        name == "stream-closed"@ || name == "stream-next-offset"@ || name == "stream-cursor"@ || name
            == "producer-epoch"@ || name == "producer-seq"@ || name == "producer-expected-seq"@ || name
            == "producer-received-seq"@,
    ensures
        field_of(kept_fields(all), name) == field_text(all, name),
{
    lemma_header_names();
    let none = Seq::<(Seq<char>, Seq<char>)>::empty();
    let f1 = kept_field(all, "stream-closed"@);
    assert(none + f1 =~= f1);
    lemma_field_behind_kept(none, all, "stream-closed"@, name);
    let f2 = f1 + kept_field(all, "stream-next-offset"@);
    lemma_field_behind_kept(f1, all, "stream-next-offset"@, name);
    let f3 = f2 + kept_field(all, "stream-cursor"@);
    lemma_field_behind_kept(f2, all, "stream-cursor"@, name);
    let f4 = f3 + kept_field(all, "producer-epoch"@);
    lemma_field_behind_kept(f3, all, "producer-epoch"@, name);
    let f5 = f4 + kept_field(all, "producer-seq"@);
    lemma_field_behind_kept(f4, all, "producer-seq"@, name);
    let f6 = f5 + kept_field(all, "producer-expected-seq"@);
    lemma_field_behind_kept(f5, all, "producer-expected-seq"@, name);
    lemma_field_behind_kept(f6, all, "producer-received-seq"@, name);
}

proof fn lemma_append_problem_is_valid(
    error: Error,
    producer: Option<ProducerHeaders>,
    tail: Option<Seq<char>>,
)
    ensures
        has_distinct_headers(append_problem(error, producer, tail).headers),
{
    let none = error.response().headers;
    assert(none.len() <= 1);
    match (error, producer) {
        (Error::StreamClosed, _) => {
            lemma_set_header_distinct(none, "Stream-Closed"@, "true"@);
            let closed = with_header(none, "Stream-Closed"@, "true"@);
            if let Some(t) = tail {
                lemma_set_header_distinct(closed, "Stream-Next-Offset"@, t);
            }
        },
        (Error::EpochFenced { current, .. }, Some(p)) => {
            let h = (Error::EpochFenced { current, received: p.epoch }).response().headers;
            assert(h =~= none);
            lemma_set_header_distinct(none, "Producer-Epoch"@, decimal(current as nat));
        },
        (Error::SequenceGap { expected, actual }, Some(_)) => {
            let e = decimal(expected as nat);
            lemma_set_header_distinct(none, "Producer-Expected-Seq"@, e);
            lemma_set_header_distinct(
                with_header(none, "Producer-Expected-Seq"@, e),
                "Producer-Received-Seq"@,
                decimal(actual as nat),
            );
        },
        _ => {},
    }
}

/// What a refused append tells, the client learns: that the stream is closed and where it ended,
/// the current epoch, or the numbers that were expected and received; and of which kind the
/// refusal is.
pub proof fn law_client_learns_why_its_append_was_refused(
    error: Error,
    producer: Option<ProducerHeaders>,
    tail: Option<Seq<char>>,
    wire: WireProblem,
    all: Fields,
    body: Seq<char>,
    told: ClientError,
)
    requires
        error is StreamClosed || error is EpochFenced || error is SequenceGap,
        error matches Error::EpochFenced { current, .. } ==> producer is Some && current <= i64::MAX,
        error matches Error::SequenceGap { expected, actual } ==> producer is Some && expected
            <= i64::MAX && actual <= i64::MAX,
        is_wire(wire, append_problem(error, producer, tail)),
        is_received(all, fields(wire.headers@)),
        is_reply_error(told, wire.status, all, body),
    ensures
        told matches ClientError::Http(h) && match error {
            Error::StreamClosed => h.kind == ErrorKind::StreamClosed && h.stream_closed && text_opt(
                h.next_offset,
            ) == tail,
            Error::EpochFenced { current, .. } => h.kind == ErrorKind::Forbidden && h.producer_epoch
                == Some(current as i64) && !h.stream_closed,
            Error::SequenceGap { expected, actual } => h.kind == ErrorKind::Conflict
                && h.producer_expected_seq == Some(expected as i64) && h.producer_received_seq == Some(
                actual as i64,
            ) && !h.stream_closed,
            _ => false,
        },
{
    let headers = append_problem(error, producer, tail).headers;
    law_refused_append_tells_how_to_go_on(error, producer, tail);
    lemma_append_problem_is_valid(error, producer, tail);
    lemma_header_names();
    law_problem_headers_are_sent(headers, "stream-closed"@);
    law_problem_headers_are_sent(headers, "stream-next-offset"@);
    law_problem_headers_are_sent(headers, "producer-epoch"@);
    law_problem_headers_are_sent(headers, "producer-expected-seq"@);
    law_problem_headers_are_sent(headers, "producer-received-seq"@);
    law_error_fields_are_kept(all, "stream-closed"@);
    law_error_fields_are_kept(all, "stream-next-offset"@);
    law_error_fields_are_kept(all, "producer-epoch"@);
    law_error_fields_are_kept(all, "producer-expected-seq"@);
    law_error_fields_are_kept(all, "producer-received-seq"@);
    assert(field_text(all, "stream-closed"@) == header_of(headers, "stream-closed"@));
    assert(field_text(all, "stream-next-offset"@) == header_of(headers, "stream-next-offset"@));
    assert(field_text(all, "producer-epoch"@) == header_of(headers, "producer-epoch"@));
    assert(field_text(all, "producer-expected-seq"@) == header_of(headers, "producer-expected-seq"@));
    assert(field_text(all, "producer-received-seq"@) == header_of(headers, "producer-received-seq"@));
    match error {
        Error::EpochFenced { current, .. } => {
            lemma_decimal_round_trip(current as nat, i64::MAX as nat);
            assert(is_digit(decimal(current as nat)[0]));
        },
        Error::SequenceGap { expected, actual } => {
            lemma_decimal_round_trip(expected as nat, i64::MAX as nat);
            lemma_decimal_round_trip(actual as nat, i64::MAX as nat);
            assert(is_digit(decimal(expected as nat)[0]));
            assert(is_digit(decimal(actual as nat)[0]));
        },
        _ => {},
    }
}

/// The kind of an error that the client sees follows from what the server refused: a stream that is
/// not there or has expired, a producer that was fenced off, a conflict, or a closed stream.
/// Storage failures have no kind of their own; the client may try again after those that pass.
pub proof fn law_error_kind_follows_the_error(e: Error, closed: bool, body: Seq<char>)
    ensures
        ({
            let kind = error_kind_of(e.status_spec(), closed, body);
            match e {
                Error::NotFound(_) | Error::StreamExpired => kind == ErrorKind::NotFound,
                Error::EpochFenced { .. } => kind == ErrorKind::Forbidden,
                Error::ConfigMismatch
                | Error::ContentTypeMismatch { .. }
                | Error::StreamClosed
                | Error::SequenceGap { .. }
                | Error::SeqOrderingViolation { .. }
                | Error::StreamPathBlocked(_)
                | Error::ForkFromTombstone(_) => kind == if closed {
                    ErrorKind::StreamClosed
                } else {
                    ErrorKind::Conflict
                },
                Error::InvalidOffset(_) => occurs(ascii_lower_spec(body), "offset"@) ==> kind
                    == ErrorKind::InvalidOffset,
                Error::Unavailable(_) | Error::InsufficientStorage(_) | Error::Storage(_) => kind
                    == ErrorKind::UnexpectedStatus,
                _ => true,
            }
        }),
{
}

/// A client tries again exactly where the server is at fault and may recover: storage that is
/// unavailable or has failed. It does not try again where a request was refused, or where storage
/// is full.
pub proof fn law_only_failures_of_the_server_are_retried(e: Error, told: ClientError)
    requires
        told matches ClientError::Http(h) && h.status == e.status_spec(),
    ensures
        told.retryable() <==> e is Unavailable || e is Storage,
{
}

/// Of what goes wrong before there is a response, a client tries again where the server was not
/// reached or did not answer in time; and it never tries again what cannot be sent or read.
pub proof fn law_only_lost_connections_are_retried(told: ClientError)
    ensures
        !(told is Http) ==> (told.retryable() <==> (told matches ClientError::Transport(t) && (t.timeout
            || t.connect))),
        told.kind_spec() == ErrorKind::Timeout ==> told is Http || told.retryable(),
{
}

/// What a server says in the body of an error response is the message of the error, with its status;
/// where it says nothing, the status speaks.
pub proof fn law_error_message_is_what_the_server_says(
    told: ClientError,
    status: u16,
    all: Fields,
    body: Seq<char>,
)
    requires
        is_reply_error(told, status, all, body),
    ensures
        told matches ClientError::Http(h) && h.status == status && (body.len() > 0 ==> h.message@ == body)
            && (body.len() == 0 ==> h.message@ == match canonical_reason(status) {
            Some(t) => t,
            None => "request failed"@,
        }),
{
}

/// An error is sent with its status, its payload in full as the body, and the type of the payload;
/// a delay that storage suggests is sent too. What is recorded is what the inside knows, or what the
/// client is told.
pub proof fn law_errors_are_sent_in_full(e: Error, wire: WireProblem)
    requires
        is_wire(wire, e.response()),
    ensures
        wire.status == e.status_spec(),
        wire.body@ == problem_json(e.response().problem),
        header_of(fields(wire.headers@), "content-type"@) == Some("application/problem+json"@),
        header_of(fields(wire.headers@), "retry-after"@) == match e {
            Error::Unavailable(f) => match f.retry_after_secs {
                Some(n) => Some(decimal(n as nat)),
                None => None,
            },
            _ => None,
        },
        wire.telemetry@.code == e.response().problem.code,
        wire.telemetry@.title == e.response().problem.title,
        e is Unavailable || e is InsufficientStorage || e is Storage
            ==> wire.telemetry@.internal_detail is Some,
{
    lemma_header_names();
    lemma_retry_name();
    let h = e.response().headers;
    law_problem_headers_are_sent(h, "content-type"@);
    law_problem_headers_are_sent(h, "retry-after"@);
    law_retry_delay_is_what_storage_suggests(e, "content-type"@);
    law_retry_delay_is_what_storage_suggests(e, "retry-after"@);
}

/// The kind of an error response is told by its status, and where that is not enough by what the
/// server says: whether the stream is closed, and whether it is the place that was wrong.
pub proof fn law_error_kind_is_told_by_the_status(status: u16, closed: bool, body: Seq<char>)
    ensures
        ({
            let kind = error_kind_of(status, closed, body);
            &&& kind == ErrorKind::NotFound <==> status == 404
            &&& kind == ErrorKind::Forbidden <==> status == 403
            &&& kind == ErrorKind::RateLimited <==> status == 429
            &&& kind == ErrorKind::StreamClosed <==> status == 409 && closed
            &&& kind == ErrorKind::Conflict <==> status == 409 && !closed
            &&& kind == ErrorKind::InvalidOffset <==> status == 400 && (occurs(
                ascii_lower_spec(body),
                "offset"@,
            ) || occurs(ascii_lower_spec(body), "invalid"@))
            &&& kind != ErrorKind::Network && kind != ErrorKind::Timeout && kind != ErrorKind::Parse
        }),
{
}

} // verus!
