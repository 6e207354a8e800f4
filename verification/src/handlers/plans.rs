//! What the server plans for a request, told from the fields of the request alone.

use vstd::prelude::*;
use crate::client::exchange::{are_messages_of, lemma_request_names};
use crate::decimal::{all_digits, unsigned_value};
use crate::handlers::answers::lemma_header_names;
use crate::handlers::post::{AppendPlan, Fields, is_append_plan};
use crate::handlers::put::{
    CreateContent, CreatePlan, is_create_plan, law_stream_path_names_its_stream, location_of,
    mount_prefix, source_name,
};
use crate::http::field_text;
use crate::json::json_document;
use crate::protocol::error::Result;
use crate::protocol::headers::{normalized_content_type, ttl_rejection, utc_timestamp};
use crate::protocol::json_mode::{contents, document_messages};
use crate::text::{ascii_lower_spec, before_spec, text_opt, trim_spec, unicode_lowercase};

verus! {

/// Whether a field is there, whatever it holds.
pub open spec fn is_there(f: Fields, name: Seq<char>) -> bool {
    f.dom().contains(name)
}

/// Whether a field says "true", in any case and between any blanks.
pub open spec fn says_true(f: Fields, name: Seq<char>) -> bool {
    field_text(f, name) matches Some(v) && ascii_lower_spec(trim_spec(v)) == "true"@
}

/// Whether a fork is of the stream that a path names: the part behind the mount path, or the whole
/// where the path is not below it.
pub open spec fn names_source(source: Seq<char>, path: Seq<char>, base: Seq<char>) -> bool {
    let below = if base == "/"@ {
        base
    } else {
        base + "/"@
    };
    path == below + source || (source == path && !below.is_prefix_of(path))
}

proof fn lemma_plan_names()
    ensures
        ascii_lower_spec("stream-forked-from"@) == "stream-forked-from"@,
        ascii_lower_spec("stream-fork-offset"@) == "stream-fork-offset"@,
        ascii_lower_spec("stream-fork-sub-offset"@) == "stream-fork-sub-offset"@,
        ascii_lower_spec("true"@) == "true"@,
{
    reveal_strlit("stream-forked-from");
    reveal_strlit("stream-fork-offset");
    reveal_strlit("stream-fork-sub-offset");
    reveal_strlit("true");
    assert(ascii_lower_spec("stream-forked-from"@) =~= "stream-forked-from"@);
    assert(ascii_lower_spec("stream-fork-offset"@) =~= "stream-fork-offset"@);
    assert(ascii_lower_spec("stream-fork-sub-offset"@) =~= "stream-fork-sub-offset"@);
    assert(ascii_lower_spec("true"@) =~= "true"@);
}

/// The names of fields have no case.
proof fn lemma_field_case(f: Fields)
    ensures
        field_text(f, "Stream-TTL"@) == field_text(f, "stream-ttl"@),
        field_text(f, "Stream-Expires-At"@) == field_text(f, "stream-expires-at"@),
        field_text(f, "Stream-Closed"@) == field_text(f, "stream-closed"@),
        field_text(f, "Stream-Seq"@) == field_text(f, "stream-seq"@),
        field_text(f, "Producer-Id"@) == field_text(f, "producer-id"@),
        field_text(f, "Producer-Epoch"@) == field_text(f, "producer-epoch"@),
        field_text(f, "Producer-Seq"@) == field_text(f, "producer-seq"@),
        field_text(f, "Stream-Forked-From"@) == field_text(f, "stream-forked-from"@),
        field_text(f, "Stream-Fork-Offset"@) == field_text(f, "stream-fork-offset"@),
        field_text(f, "Stream-Fork-Sub-Offset"@) == field_text(f, "stream-fork-sub-offset"@),
        ascii_lower_spec("Stream-Forked-From"@) == "stream-forked-from"@,
        ascii_lower_spec("Stream-Fork-Offset"@) == "stream-fork-offset"@,
        ascii_lower_spec("Stream-Fork-Sub-Offset"@) == "stream-fork-sub-offset"@,
        ascii_lower_spec("content-type"@) == "content-type"@,
        ascii_lower_spec("true"@) == "true"@,
{
    lemma_header_names();
    lemma_request_names();
    lemma_plan_names();
}

/// Whether the content of a new stream is what the request gives: the messages of the body, or the
/// stream to fork, from where to fork it, and the body as it is.
pub open spec fn is_given_content(
    content: CreateContent,
    f: Fields,
    base: Seq<char>,
    body: Seq<u8>,
    content_type: Seq<char>,
) -> bool {
    match field_text(f, "stream-forked-from"@) {
        None => content matches CreateContent::Messages(m) && are_messages_of(
            contents(m@),
            body,
            content_type,
        ),
        Some(path) => content matches CreateContent::Fork { plan, body: kept } && kept@ == body
            && names_source(plan.source@, path, base) && text_opt(plan.offset) == field_text(
            f,
            "stream-fork-offset"@,
        ) && (if is_there(f, "stream-fork-sub-offset"@) {
            field_text(f, "stream-fork-sub-offset"@) matches Some(n) && unsigned_value(
                n,
                u64::MAX as nat,
            ) == Some(plan.sub_offset as nat)
        } else {
            plan.sub_offset == 0
        }) && (plan.inherit_content_type <==> !is_there(f, "content-type"@)),
    }
}

/// A creation that is planned has the content type of the request without its parameters, or that
/// of bytes, is closed exactly where the request says so, and begins with what the request gives.
pub proof fn law_creation_is_what_the_request_says(
    r: Result<CreatePlan>,
    f: Fields,
    base: Seq<char>,
    body: Seq<u8>,
    location: Seq<char>,
)
    requires
        is_create_plan(r, f, base, body, location),
    ensures
        r matches Ok(plan) ==> {
            &&& plan.location@ == location
            &&& plan.content_type@ == match field_text(f, "content-type"@) {
                Some(t) => unicode_lowercase(trim_spec(before_spec(t, ';'))),
                None => "application/octet-stream"@,
            }
            &&& plan.created_closed <==> says_true(f, "stream-closed"@)
            &&& is_given_content(plan.content, f, base, body, plan.content_type@)
        },
{
    lemma_field_case(f);
    if let Ok(plan) = r {
        if let Some(path) = field_text(f, "stream-forked-from"@) {
            lemma_source(path, base);
        }
    }
}

proof fn lemma_source(path: Seq<char>, base: Seq<char>)
    ensures
        names_source(source_name(path, base), path, base),
{
    let below = mount_prefix(base);
    if below.is_prefix_of(path) {
        assert(path =~= below + path.skip(below.len() as int));
    }
}

/// Whether the fields of a creation cannot be met: a blank content type, an expiration that is no
/// number of seconds or no moment or is given twice, or a fork offset that is no number or has no
/// stream to fork.
pub open spec fn cannot_be_met(f: Fields) -> bool {
    let ttl = field_text(f, "stream-ttl"@);
    let at = field_text(f, "stream-expires-at"@);
    let sub = field_text(f, "stream-fork-sub-offset"@);
    ||| field_text(f, "content-type"@) matches Some(t) && trim_spec(t).len() == 0
    ||| ttl matches Some(t) && ttl_rejection(trim_spec(t)) is Some
    ||| at matches Some(t) && utc_timestamp(t) is Err
    ||| ttl is Some && at is Some
    ||| is_there(f, "stream-fork-sub-offset"@) && !(sub matches Some(n) && n.len() > 0 && all_digits(n)
        && unsigned_value(n, u64::MAX as nat) is Some)
    ||| !is_there(f, "stream-forked-from"@) && (is_there(f, "stream-fork-sub-offset"@) || is_there(
        f,
        "stream-fork-offset"@,
    ))
}

/// A creation is refused exactly where its fields cannot be met, or where a new stream of JSON
/// would begin with what is no JSON; and it is refused as a bad request.
pub proof fn law_creation_is_refused_only_where_it_cannot_be_met(
    r: Result<CreatePlan>,
    f: Fields,
    base: Seq<char>,
    body: Seq<u8>,
    location: Seq<char>,
)
    requires
        is_create_plan(r, f, base, body, location),
    ensures
        r is Err <==> {
            ||| cannot_be_met(f)
            ||| field_text(f, "stream-forked-from"@) is None && body.len() > 0 && json_document(
                body,
            ) is Err && (field_text(f, "content-type"@) matches Some(t) && normalized_content_type(t)
                == "application/json"@)
        },
        r matches Err(e) ==> e.status_spec() == 400,
{
    lemma_field_case(f);
    reveal_strlit("application/json");
    reveal_strlit("application/octet-stream");
    assert("application/json"@.len() != "application/octet-stream"@.len());
}

/// The URL of a stream is its scheme and host, or the host of the machine itself, and the path that
/// names it.
pub proof fn law_location_names_the_stream(
    scheme: Seq<char>,
    authority: Option<Seq<char>>,
    base: Seq<char>,
    name: Seq<char>,
)
    ensures
        ({
            let host = match authority {
                Some(h) => h,
                None => "localhost"@,
            };
            let origin = scheme + "://"@ + host;
            let url = location_of(scheme, authority, base, name);
            &&& origin.is_prefix_of(url)
            &&& source_name(url.skip(origin.len() as int), base) == name
            &&& base != "/"@ ==> url == origin + base + "/"@ + name
            &&& base == "/"@ ==> url == origin + "/"@ + name
        }),
{
    let host = match authority {
        Some(h) => h,
        None => "localhost"@,
    };
    let origin = scheme + "://"@ + host;
    let url = location_of(scheme, authority, base, name);
    assert(url =~= origin + (mount_prefix(base) + name));
    assert(url.skip(origin.len() as int) =~= mount_prefix(base) + name);
    assert(origin.is_prefix_of(url)) by {
        assert(url.take(origin.len() as int) =~= origin);
    }
    law_stream_path_names_its_stream(base, name);
    assert(base != "/"@ ==> url =~= origin + base + "/"@ + name);
    assert(base == "/"@ ==> url =~= origin + "/"@ + name);
}

/// Whether a field is a numeral without leading zeros, up to 2^53 - 1.
pub open spec fn is_safe_numeral(value: Seq<char>, n: nat) -> bool {
    unsigned_value(value, u64::MAX as nat) == Some(n) && n <= 9_007_199_254_740_991 && (value.len() > 1
        ==> value[0] != '0')
}

/// Whether the producer fields of a request name a producer, its epoch and its number.
pub open spec fn gives_producer(f: Fields, id: Seq<char>, epoch: nat, seq: nat) -> bool {
    &&& field_text(f, "producer-id"@) == Some(id) && id.len() > 0
    &&& field_text(f, "producer-epoch"@) matches Some(e) && is_safe_numeral(e, epoch)
    &&& field_text(f, "producer-seq"@) matches Some(s) && is_safe_numeral(s, seq)
}

/// Whether a request has none of the producer fields.
pub open spec fn gives_no_producer(f: Fields) -> bool {
    field_text(f, "producer-id"@) is None && field_text(f, "producer-epoch"@) is None && field_text(
        f,
        "producer-seq"@,
    ) is None
}

/// An append that is planned has the content type of the request without its parameters, the
/// producer that the request names with its numbers, the number of the stream, and the messages of
/// the body; it closes the stream exactly where the request says so.
pub proof fn law_append_is_what_the_request_says(r: Result<AppendPlan>, f: Fields, body: Seq<u8>)
    requires
        is_append_plan(r, f, body),
    ensures
        r matches Ok(plan) ==> {
            let h = plan.headers;
            let closes = says_true(f, "stream-closed"@);
            &&& h.content_type@ == match field_text(f, "content-type"@) {
                Some(t) => unicode_lowercase(trim_spec(before_spec(t, ';'))),
                None => Seq::empty(),
            }
            &&& match h.producer {
                Some(p) => gives_producer(f, p.id@, p.epoch as nat, p.seq as nat),
                None => gives_no_producer(f),
            }
            &&& text_opt(h.seq) == field_text(f, "stream-seq"@)
            &&& h.should_close <==> closes
            &&& h.is_close_only <==> closes && body.len() == 0
            &&& are_messages_of(contents(plan.messages@), body, h.content_type@)
            &&& plan.messages@.len() > 0 || closes
        },
{
    lemma_field_case(f);
    if let Ok(plan) = r {
        assert(contents(plan.messages@).len() == plan.messages@.len());
    }
}

/// An append is refused exactly where it has no content type though it has a body, names half a
/// producer or a number that is none, has a body that is no JSON though it should be, or comes to
/// no message without closing the stream; and it is refused as a bad request.
pub proof fn law_append_is_refused_only_where_it_is_wrong(r: Result<AppendPlan>, f: Fields, body: Seq<u8>)
    requires
        is_append_plan(r, f, body),
    ensures
        r is Err <==> {
            let closes = says_true(f, "stream-closed"@);
            let t = field_text(f, "content-type"@);
            let is_json = t matches Some(t) && normalized_content_type(t) == "application/json"@;
            ||| t is None && !(closes && body.len() == 0)
            ||| !gives_no_producer(f) && !exists|id: Seq<char>, epoch: nat, seq: nat|
                gives_producer(f, id, epoch, seq)
            ||| body.len() == 0 && !closes
            ||| body.len() > 0 && is_json && json_document(body) is Err
            ||| is_json && !closes && (json_document(body) matches Ok(d) && d.1.len() == 0)
        },
        r matches Err(e) ==> e.status_spec() == 400,
{
    lemma_field_case(f);
    reveal_strlit("application/json");
    let id = field_text(f, "producer-id"@);
    let e = field_text(f, "producer-epoch"@);
    let s = field_text(f, "producer-seq"@);
    if id is Some && e is Some && s is Some {
        let en = unsigned_value(e->0, u64::MAX as nat);
        let sn = unsigned_value(s->0, u64::MAX as nat);
        if en is Some && sn is Some && gives_producer(f, id->0, en->0, sn->0) {
            assert(exists|id: Seq<char>, epoch: nat, seq: nat| gives_producer(f, id, epoch, seq));
        }
    }
    if let Some(t) = field_text(f, "content-type"@) {
        if let Ok(d) = json_document(body) {
            assert(document_messages(d.1).len() == d.1.len());
        }
    }
}

} // verus!
