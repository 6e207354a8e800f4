//! Creation of streams.

use axum::http::HeaderMap;
use vstd::prelude::*;
use crate::decimal::{all_digits, is_digit, parse_unsigned, unsigned_value};
use crate::handlers::common::{
    ReplyView, StreamOffset, StreamResponse, asks_to_close, parse_stream_closed, reply,
};
use crate::handlers::post::Fields;
use crate::http::{field_text, has_header, header_fields, header_value};
use crate::middleware::proxy_trust::ProxyTrustResult;
use crate::protocol::error::{Error, Result};
use crate::protocol::headers::{
    names, normalize_content_type, normalized_content_type, parse_expires_at, parse_ttl,
    ttl_rejection, utc_timestamp,
};
use crate::protocol::json_mode::{body_messages, contents, extract_messages};
use crate::text::{
    ascii_lower_spec, chars_of, joined, joined5, same, strip_prefix, text_opt, trim, trim_spec,
};
use crate::time::Timestamp;

verus! {

/// When a new stream expires.
#[derive(Debug, Clone, Copy, PartialEq, Eq, Structural)]
pub enum Expiration {
    Never,
    /// This many seconds after its creation.
    After(u64),
    At(Timestamp),
}

/// What a stream is created with.
#[derive(Debug, Clone)]
pub struct StreamConfig {
    pub content_type: String,
    pub ttl_seconds: Option<u64>,
    pub expires_at: Option<Timestamp>,
    pub created_closed: bool,
}

/// Where a new stream comes from, if it is a fork of another.
#[derive(Debug)]
pub struct ForkPlan {
    /// The name of the stream that is forked.
    pub source: String,
    /// The offset token of the fork, where one is given.
    pub offset: Option<String>,
    pub sub_offset: u64,
    pub inherit_content_type: bool,
}

/// What the headers of a creation ask for.
#[derive(Debug)]
pub struct CreateHeaders {
    pub content_type: String,
    pub created_closed: bool,
    pub expiration: Expiration,
    pub fork: Option<ForkPlan>,
}

/// What a new stream begins with.
#[derive(Debug)]
pub enum CreateContent {
    /// The messages of the body.
    Messages(Vec<Vec<u8>>),
    /// Another stream, and the body as it is: the stream that is forked decides how it splits.
    Fork { plan: ForkPlan, body: Vec<u8> },
}

/// A creation that can be handed to storage.
#[derive(Debug)]
pub struct CreatePlan {
    pub content_type: String,
    pub created_closed: bool,
    pub expiration: Expiration,
    pub content: CreateContent,
    /// The URL of the new stream.
    pub location: String,
}

/// Whether an error is a rejected header with this reason.
pub open spec fn is_invalid_header(e: Error, name: Seq<char>, why: Seq<char>) -> bool {
    e matches Error::InvalidHeader { header, reason } && header@ == name && reason@ == why
}

fn invalid_header(name: &'static str, why: &'static str) -> (r: Error)
    ensures
        is_invalid_header(r, name@, why@),
{
    Error::InvalidHeader { header: name.to_owned(), reason: why.to_owned() }
}

/// The content type of a new stream: bytes where none is given, rejected where it is blank.
pub open spec fn created_type(f: Fields) -> Option<Seq<char>> {
    match field_text(f, "content-type"@) {
        None => Some("application/octet-stream"@),
        Some(t) => if trim_spec(t).len() == 0 {
            None
        } else {
            Some(normalized_content_type(t))
        },
    }
}

/// Parse Content-Type, defaulting to application/octet-stream when missing,
/// rejecting an explicitly empty value.
pub fn parse_content_type(headers: &HeaderMap) -> (r: Result<String>)
    ensures
        match r {
            Ok(t) => created_type(header_fields(*headers)) == Some(t@),
            Err(e) => created_type(header_fields(*headers)) is None && is_invalid_header(
                e,
                "Content-Type"@,
                "empty value"@,
            ),
        },
{
    match header_value(headers, "content-type") {
        None => Ok("application/octet-stream".to_owned()),
        Some(ct) => {
            if chars_of(trim(ct.as_str())).len() == 0 {
                return Err(invalid_header("Content-Type", "empty value"));
            }
            Ok(normalize_content_type(ct.as_str()))
        },
    }
}

/// The expiration that two values ask for; both at once are a conflict.
pub fn expiration_of(ttl_seconds: Option<u64>, expires_at: Option<Timestamp>) -> (r: Result<Expiration>)
    ensures
        match (ttl_seconds, expires_at) {
            (Some(_), Some(_)) => r matches Err(e) && e is ConflictingExpiration,
            (Some(ttl), None) => r == Ok::<Expiration, Error>(Expiration::After(ttl)),
            (None, Some(at)) => r == Ok::<Expiration, Error>(Expiration::At(at)),
            (None, None) => r == Ok::<Expiration, Error>(Expiration::Never),
        },
{
    match (ttl_seconds, expires_at) {
        (Some(_), Some(_)) => Err(Error::ConflictingExpiration),
        (Some(ttl), None) => Ok(Expiration::After(ttl)),
        (None, Some(at)) => Ok(Expiration::At(at)),
        (None, None) => Ok(Expiration::Never),
    }
}

/// Whether a result is the expiration that the headers of a request ask for, or the error of the
/// first header that is wrong.
pub open spec fn is_expiration_of(r: Result<Expiration>, f: Fields) -> bool {
    let ttl = field_text(f, "Stream-TTL"@);
    let at = field_text(f, "Stream-Expires-At"@);
    if ttl matches Some(t) && ttl_rejection(trim_spec(t)) is Some {
        r matches Err(Error::InvalidTtl(m)) && ttl_rejection(trim_spec(ttl->0)) == Some(m@)
    } else if at matches Some(t) && utc_timestamp(t) is Err {
        r matches Err(e) && is_invalid_header(
            e,
            "Stream-Expires-At"@,
            "invalid ISO 8601 timestamp: "@ + utc_timestamp(at->0)->Err_0,
        )
    } else {
        match (ttl, at) {
            (Some(_), Some(_)) => r matches Err(e) && e is ConflictingExpiration,
            (Some(t), None) => r matches Ok(Expiration::After(n)) && unsigned_value(
                trim_spec(t),
                u64::MAX as nat,
            ) == Some(n as nat),
            (None, Some(t)) => r matches Ok(Expiration::At(m)) && utc_timestamp(t)->Ok_0 == (
                m.seconds,
                m.nanos,
            ),
            (None, None) => r == Ok::<Expiration, Error>(Expiration::Never),
        }
    }
}

/// Reads when a new stream expires, enforcing the TTL/Expires-At mutual exclusion.
pub fn read_expiration(headers: &HeaderMap) -> (r: Result<Expiration>)
    ensures
        is_expiration_of(r, header_fields(*headers)),
{
    let ttl_seconds: Option<u64> = match header_value(headers, names::STREAM_TTL) {
        Some(value) => match parse_ttl(value.as_str()) {
            Ok(n) => Some(n),
            Err(e) => return Err(e),
        },
        None => None,
    };
    let expires_at: Option<Timestamp> = match header_value(headers, names::STREAM_EXPIRES_AT) {
        Some(value) => match parse_expires_at(value.as_str()) {
            Ok(t) => Some(t),
            Err(e) => return Err(e),
        },
        None => None,
    };
    expiration_of(ttl_seconds, expires_at)
}

/// The last second of the calendar, at the end of the year 262142.
pub const LAST_SECOND: i64 = 8_210_266_876_799;

/// Build the `StreamConfig` of a stream that is created now. The end of its lifetime is a moment
/// of the calendar, and the clock counts no leap seconds.
pub fn build_config(
    content_type: String,
    created_closed: bool,
    expiration: Expiration,
    now: Timestamp,
) -> (r: StreamConfig)
    requires
        expiration matches Expiration::After(ttl) ==> now.seconds + ttl <= LAST_SECOND && now.nanos
            < 1_000_000_000,
    ensures
        r == (StreamConfig {
            content_type,
            ttl_seconds: match expiration {
                Expiration::After(ttl) => Some(ttl),
                _ => None,
            },
            expires_at: match expiration {
                Expiration::Never => None,
                Expiration::After(ttl) => Some(
                    Timestamp { seconds: (now.seconds + ttl) as i64, nanos: now.nanos },
                ),
                Expiration::At(at) => Some(at),
            },
            created_closed,
        }),
{
    let (ttl_seconds, expires_at) = match expiration {
        Expiration::Never => (None, None),
        Expiration::After(ttl) => {
            let seconds: i128 = now.seconds as i128 + ttl as i128;
            (Some(ttl), Some(Timestamp { seconds: seconds as i64, nanos: now.nanos }))
        },
        Expiration::At(at) => (None, Some(at)),
    };
    StreamConfig { content_type, ttl_seconds, expires_at, created_closed }
}

/// What the sub-offset header of a request comes to: nothing, a number, or a rejection.
pub open spec fn sub_offset_of(f: Fields) -> std::result::Result<Option<nat>, Seq<char>> {
    if !f.dom().contains(ascii_lower_spec("Stream-Fork-Sub-Offset"@)) {
        Ok(None)
    } else {
        match field_text(f, "Stream-Fork-Sub-Offset"@) {
            Some(raw) => if raw.len() == 0 || !all_digits(raw) {
                Err("expected a non-negative integer"@)
            } else {
                match unsigned_value(raw, u64::MAX as nat) {
                    Some(n) => Ok(Some(n)),
                    None => Err("integer out of range"@),
                }
            },
            None => Err("expected a non-negative integer"@),
        }
    }
}

fn only_digits(v: &Vec<char>) -> (r: bool)
    ensures
        r == all_digits(v@),
{
    let mut i: usize = 0;
    while i < v.len()
        invariant
            i <= v@.len(),
            forall|k: int| 0 <= k < i ==> is_digit(#[trigger] v@[k]),
        decreases v.len() - i,
    {
        if !('0' <= v[i] && v[i] <= '9') {
            assert(!is_digit(v@[i as int]));
            return false;
        }
        i += 1;
    }
    true
}

/// Reads the sub-offset of a fork.
pub fn read_sub_offset(headers: &HeaderMap) -> (r: Result<Option<u64>>)
    ensures
        match r {
            Ok(None) => sub_offset_of(header_fields(*headers)) matches Ok(n) && n is None,
            Ok(Some(n)) => sub_offset_of(header_fields(*headers)) matches Ok(m) && m == Some(n as nat),
            Err(e) => sub_offset_of(header_fields(*headers)) matches Err(m) && is_invalid_header(
                e,
                "Stream-Fork-Sub-Offset"@,
                m,
            ),
        },
{
    if !has_header(headers, names::STREAM_FORK_SUB_OFFSET) {
        return Ok(None);
    }
    match header_value(headers, names::STREAM_FORK_SUB_OFFSET) {
        None => Err(invalid_header("Stream-Fork-Sub-Offset", "expected a non-negative integer")),
        Some(raw) => {
            let v = chars_of(raw.as_str());
            if v.len() == 0 || !only_digits(&v) {
                return Err(
                    invalid_header("Stream-Fork-Sub-Offset", "expected a non-negative integer"),
                );
            }
            match parse_unsigned(raw.as_str(), u64::MAX) {
                Ok(n) => Ok(Some(n)),
                Err(_) => Err(invalid_header("Stream-Fork-Sub-Offset", "integer out of range")),
            }
        },
    }
}

/// What the names of streams stand behind in URLs.
pub open spec fn mount_prefix(base: Seq<char>) -> Seq<char> {
    if base == "/"@ {
        "/"@
    } else {
        base + "/"@
    }
}

/// The name in a fork source: what follows the mount path, or the whole of it.
pub open spec fn source_name(value: Seq<char>, base: Seq<char>) -> Seq<char> {
    if mount_prefix(base).is_prefix_of(value) {
        value.skip(mount_prefix(base).len() as int)
    } else {
        value
    }
}

/// Strip the stream base path prefix from a fork source header value.
///
/// The `Stream-Forked-From` header may be the full URL path (e.g.,
/// `/v1/stream/source-name`). This strips the leading
/// `stream_base_path + "/"` to get just the stream name.
pub fn strip_stream_base_path(value: &str, stream_base_path: &str) -> (r: String)
    ensures
        r@ == source_name(value@, stream_base_path@),
{
    let prefix = if same(stream_base_path, "/") {
        "/".to_owned()
    } else {
        joined(stream_base_path, "/")
    };
    match strip_prefix(value, prefix.as_str()) {
        Some(rest) => rest.to_owned(),
        None => value.to_owned(),
    }
}

/// The URL of a stream.
pub open spec fn location_of(scheme: Seq<char>, authority: Option<Seq<char>>, base: Seq<char>, name: Seq<char>) -> Seq<
    char,
> {
    scheme + "://"@ + (match authority {
        Some(host) => host,
        None => "localhost"@,
    }) + mount_prefix(base) + name
}

/// Build an absolute Location URL from the trusted request origin.
pub fn build_location_url(origin: &ProxyTrustResult, stream_base_path: &str, name: &str) -> (r: String)
    ensures
        r@ == location_of(origin.scheme@, text_opt(origin.authority), stream_base_path@, name@),
{
    let host: &str = match &origin.authority {
        Some(h) => h.as_str(),
        None => "localhost",
    };
    let prefix = if same(stream_base_path, "/") {
        "/".to_owned()
    } else {
        joined(stream_base_path, "/")
    };
    joined5(origin.scheme.as_str(), "://", host, prefix.as_str(), name)
}

/// The path of a stream, given as the source of a fork, names the stream.
pub proof fn law_stream_path_names_its_stream(base: Seq<char>, name: Seq<char>)
    ensures
        source_name(mount_prefix(base) + name, base) == name,
{
    let p = mount_prefix(base);
    assert((p + name).take(p.len() as int) =~= p);
    assert((p + name).skip(p.len() as int) =~= name);
}

/// Whether a request asks for fork offsets without saying what is forked.
pub open spec fn lacks_source(f: Fields) -> bool {
    !f.dom().contains(ascii_lower_spec("Stream-Forked-From"@)) && (f.dom().contains(
        ascii_lower_spec("Stream-Fork-Sub-Offset"@),
    ) || f.dom().contains(ascii_lower_spec("Stream-Fork-Offset"@)))
}

/// Whether a plan is for the fork that the headers of a request ask for.
pub open spec fn is_fork_of(plan: Option<ForkPlan>, f: Fields, base: Seq<char>) -> bool {
    match field_text(f, "Stream-Forked-From"@) {
        None => plan is None,
        Some(from) => plan matches Some(p) && p.source@ == source_name(from, base) && text_opt(p.offset)
            == field_text(f, "Stream-Fork-Offset"@) && (match sub_offset_of(f) {
            Ok(Some(n)) => p.sub_offset == n,
            _ => p.sub_offset == 0,
        }) && p.inherit_content_type == !f.dom().contains(ascii_lower_spec("content-type"@)),
    }
}

/// Whether the headers of a request ask for no expiration that a stream can have.
pub open spec fn expiration_rejected(f: Fields) -> bool {
    let ttl = field_text(f, "Stream-TTL"@);
    let at = field_text(f, "Stream-Expires-At"@);
    ||| ttl matches Some(t) && ttl_rejection(trim_spec(t)) is Some
    ||| at matches Some(t) && utc_timestamp(t) is Err
    ||| ttl is Some && at is Some
}

/// Whether the headers of a creation are rejected.
pub open spec fn creation_rejected(f: Fields) -> bool {
    created_type(f) is None || expiration_rejected(f) || sub_offset_of(f) is Err || lacks_source(f)
}

/// Whether an error is why the headers of a creation are rejected: the content type is blank,
/// the expiration is wrong, or so are the fork offsets.
pub open spec fn is_creation_rejection(e: Error, f: Fields) -> bool {
    if created_type(f) is None {
        is_invalid_header(e, "Content-Type"@, "empty value"@)
    } else if expiration_rejected(f) {
        is_expiration_of(Err(e), f)
    } else {
        match sub_offset_of(f) {
            Err(m) => is_invalid_header(e, "Stream-Fork-Sub-Offset"@, m),
            Ok(_) => lacks_source(f) && is_invalid_header(
                e,
                "Stream-Forked-From"@,
                "required with fork offsets"@,
            ),
        }
    }
}

/// Reads the headers of a creation.
pub fn read_create_headers(headers: &HeaderMap, stream_base_path: &str) -> (r: Result<CreateHeaders>)
    ensures
        ({
            let f = header_fields(*headers);
            match r {
                Ok(h) => {
                    &&& !creation_rejected(f)
                    &&& created_type(f) == Some(h.content_type@)
                    &&& h.created_closed == asks_to_close(f)
                    &&& is_expiration_of(Ok(h.expiration), f)
                    &&& is_fork_of(h.fork, f, stream_base_path@)
                },
                Err(e) => creation_rejected(f) && is_creation_rejection(e, f),
            }
        }),
{
    let content_type = match parse_content_type(headers) {
        Ok(t) => t,
        Err(e) => return Err(e),
    };
    let created_closed = parse_stream_closed(headers);
    let expiration = match read_expiration(headers) {
        Ok(x) => x,
        Err(e) => return Err(e),
    };
    let sub_offset = match read_sub_offset(headers) {
        Ok(n) => n,
        Err(e) => return Err(e),
    };
    if !has_header(headers, names::STREAM_FORKED_FROM) && (sub_offset.is_some() || has_header(
        headers,
        names::STREAM_FORK_OFFSET,
    )) {
        return Err(invalid_header("Stream-Forked-From", "required with fork offsets"));
    }
    let fork = match header_value(headers, names::STREAM_FORKED_FROM) {
        None => None,
        Some(from) => Some(
            ForkPlan {
                source: strip_stream_base_path(from.as_str(), stream_base_path),
                offset: header_value(headers, names::STREAM_FORK_OFFSET),
                sub_offset: match sub_offset {
                    Some(n) => n,
                    None => 0,
                },
                inherit_content_type: !has_header(headers, "content-type"),
            },
        ),
    };
    Ok(CreateHeaders { content_type, created_closed, expiration, fork })
}

/// Puts the creation of a stream that is no fork together from its headers and the messages of
/// its body, or the error that the body gave. An empty array is a body without messages.
pub fn plan_creation(headers: CreateHeaders, messages: Result<Vec<Vec<u8>>>, location: String) -> (r:
    Result<CreatePlan>)
    ensures
        match messages {
            Err(e) => r == Err::<CreatePlan, Error>(e),
            Ok(m) => r == Ok::<CreatePlan, Error>(
                CreatePlan {
                    content_type: headers.content_type,
                    created_closed: headers.created_closed,
                    expiration: headers.expiration,
                    content: CreateContent::Messages(m),
                    location,
                },
            ),
        },
{
    match messages {
        Err(e) => Err(e),
        Ok(messages) => Ok(
            CreatePlan {
                content_type: headers.content_type,
                created_closed: headers.created_closed,
                expiration: headers.expiration,
                content: CreateContent::Messages(messages),
                location,
            },
        ),
    }
}

/// Whether a request creates a fork.
pub open spec fn asks_to_fork(f: Fields) -> bool {
    field_text(f, "Stream-Forked-From"@) is Some
}

/// Whether a new stream begins with what a request asks for.
pub open spec fn is_content_of(content: CreateContent, f: Fields, base: Seq<char>, body: Seq<u8>) -> bool {
    match content {
        CreateContent::Messages(messages) => !asks_to_fork(f) && created_type(f) is Some
            && body_messages(body, created_type(f)->0) == Ok::<Seq<Seq<u8>>, Seq<char>>(
            contents(messages@),
        ),
        CreateContent::Fork { plan, body: b } => asks_to_fork(f) && is_fork_of(Some(plan), f, base)
            && b@ == body,
    }
}

/// Whether a result is the plan of a creation with these headers and this body, or why it has
/// none.
pub open spec fn is_create_plan(
    r: Result<CreatePlan>,
    f: Fields,
    base: Seq<char>,
    body: Seq<u8>,
    location: Seq<char>,
) -> bool {
    let split = body_messages(body, created_type(f)->0);
    if creation_rejected(f) {
        r matches Err(e) && is_creation_rejection(e, f)
    } else if !asks_to_fork(f) && split is Err {
        r matches Err(Error::InvalidJson(t)) && t@ == split->Err_0
    } else {
        &&& r matches Ok(plan)
        &&& created_type(f) == Some(plan.content_type@)
        &&& plan.created_closed == asks_to_close(f)
        &&& is_expiration_of(Ok(plan.expiration), f)
        &&& is_content_of(plan.content, f, base, body)
        &&& plan.location@ == location
    }
}

/// PUT: what a creation asks of storage.
///
/// The body is split into messages before anything is created, so a body that cannot be split
/// leaves no stream behind.
///
/// # Errors
///
/// Returns an error if Content-Type is explicitly provided but empty, the TTL or Expires-At is
/// invalid, both are provided, fork offsets are invalid or come without a source, or the body of
/// a new JSON stream is no JSON.
pub fn create_stream(
    headers: &HeaderMap,
    origin: &ProxyTrustResult,
    stream_base_path: &str,
    name: &str,
    body: Vec<u8>,
) -> (r: Result<CreatePlan>)
    ensures
        is_create_plan(
            r,
            header_fields(*headers),
            stream_base_path@,
            body@,
            location_of(origin.scheme@, text_opt(origin.authority), stream_base_path@, name@),
        ),
{
    let mut parsed = match read_create_headers(headers, stream_base_path) {
        Ok(h) => h,
        Err(e) => return Err(e),
    };
    let location = build_location_url(origin, stream_base_path, name);
    match parsed.fork.take() {
        Some(plan) => Ok(
            CreatePlan {
                content_type: parsed.content_type,
                created_closed: parsed.created_closed,
                expiration: parsed.expiration,
                content: CreateContent::Fork { plan, body },
                location,
            },
        ),
        None => {
            let messages = extract_messages(body, parsed.content_type.as_str());
            plan_creation(parsed, messages, location)
        },
    }
}

/// The status of a creation: 201 for a new stream, 200 for one that was there already.
pub fn created_status(created: bool) -> (r: u16)
    ensures
        r == if created {
            201u16
        } else {
            200
        },
{
    if created {
        201
    } else {
        200
    }
}

/// The answer to a creation.
pub open spec fn create_reply(
    created: bool,
    content_type: Seq<char>,
    token: Seq<char>,
    location: Seq<char>,
    closed: bool,
) -> ReplyView {
    reply(
        if created {
            201
        } else {
            200
        },
    ).with("content-type"@, content_type).with("Stream-Next-Offset"@, token).with(
        "location"@,
        location,
    ).with_closed(closed)
}

/// Answer a creation that storage has carried out.
pub fn create_response(
    created: bool,
    content_type: &str,
    next_offset: &StreamOffset,
    location: &str,
    closed: bool,
) -> (r: StreamResponse)
    ensures
        r@ == create_reply(created, content_type@, next_offset.token@, location@, closed),
{
    StreamResponse::new(created_status(created)).content_type(content_type).next_offset(
        next_offset.token.as_str(),
    ).location(location).closed_if(closed)
}

} // verus!
