//! What is sent for each operation, and what each reply means.

use axum::http::HeaderMap;
use url::Url;
use vstd::prelude::*;
use vstd::utf8::encode_utf8;
use crate::client::config::{ClientConfig, DefaultsConfig};
use crate::client::error::Error;
use crate::client::model::{
    AppendResponse, CloseStreamResponse, ConnectResponse, CreateStreamRequest, CreateStreamResponse,
    DeleteResponse, HeadResponse, ProducerRequest, ReadRequest, RequestOptions, copy_bytes,
};
use crate::client::protocol::{
    PRODUCER_EPOCH, PRODUCER_ID, PRODUCER_SEQ, STREAM_CLOSED, STREAM_EXPIRES_AT, STREAM_NEXT_OFFSET,
    STREAM_SEQ, STREAM_TTL, build_http_error_from_parts, error_kind_of, error_message_of, is_number,
    kept_fields, number_of, relevant_headers, says_closed,
};
use crate::decimal::{
    decimal, i64_text, is_digit, lemma_decimal_round_trip, parse_unsigned, signed_decimal, u64_text, unsigned_value,
};
use crate::fields::{
    field_of, fields, headers_not_given, not_given, over_default_headers, over_defaults,
};
use crate::http::{
    check_header_value, field_flag, field_number, field_text, header_fields, header_name, header_value,
    is_header_name, is_value_bytes, parse_bool_header, parse_i64_header,
};
use crate::protocol::headers::{is_true_text, law_ttl_is_canonical_numeral, ttl_rejection};
use crate::protocol::producer::{MAX_SAFE_INTEGER, ProducerOutcome, producer_outcome};
use crate::text::{
    ascii_lower_spec, is_white_space, joined4, str_opt, text_opt, trim_leading, trim_spec,
    without_leading,
};
use crate::urls::{
    add_query, join_url, joined_url, parse_url, parsed_url, text_of, url_string, url_with_query,
};

verus! {

/// The method of a request.
#[derive(Debug, Clone, Copy, PartialEq, Eq, Structural)]
pub enum Method {
    Put,
    Post,
    Get,
    Head,
    Delete,
}

/// A request that is to be sent. The configured authentication goes between the general and
/// the particular headers.
#[derive(Debug)]
pub struct HttpRequest {
    pub method: Method,
    pub url: String,
    /// The default headers and those of the request options.
    pub general_headers: Vec<(String, String)>,
    /// The headers of the operation.
    pub headers: Vec<(String, String)>,
    pub body: Option<Vec<u8>>,
}

/// The URL of a stream: the path against the base, with the parameters of the request behind
/// the default ones that the request does not override.
pub open spec fn resolved_url_spec(
    base_url: Seq<char>,
    defaults: Seq<(Seq<char>, Seq<char>)>,
    path: Seq<char>,
    query: Seq<(Seq<char>, Seq<char>)>,
) -> Result<Url, Seq<char>> {
    match parsed_url(base_url) {
        Ok(base) => match joined_url(base, without_leading(path, '/')) {
            Ok(url) => Ok(url_with_query(url, not_given(defaults, query) + query)),
            Err(m) => Err(m),
        },
        Err(m) => Err(m),
    }
}

/// The text of the URL of a stream, or why there is none.
pub open spec fn stream_url_spec(
    base_url: Seq<char>,
    defaults: Seq<(Seq<char>, Seq<char>)>,
    path: Seq<char>,
    query: Seq<(Seq<char>, Seq<char>)>,
) -> Result<Seq<char>, Seq<char>> {
    text_of(resolved_url_spec(base_url, defaults, path, query))
}

/// Whether a result is a URL, or the error for one that cannot be made.
pub open spec fn is_url(r: Result<String, Error>, expected: Result<Seq<char>, Seq<char>>) -> bool {
    match expected {
        Ok(u) => r matches Ok(url) && url@ == u,
        Err(e) => r matches Err(Error::Url(m)) && m@ == e,
    }
}

fn resolved_url(config: &ClientConfig, path: &str, options: &RequestOptions) -> (r: Result<Url, Error>)
    ensures
        match resolved_url_spec(
            config.base_url@,
            fields(config.defaults.query@),
            path@,
            fields(options.query@),
        ) {
            Ok(u) => r == Ok::<Url, Error>(u),
            Err(e) => r matches Err(Error::Url(m)) && m@ == e,
        },
{
    let base = match parse_url(config.base_url.as_str()) {
        Ok(u) => u,
        Err(m) => return Err(Error::Url(m)),
    };
    let mut url = match join_url(&base, trim_leading(path, '/')) {
        Ok(u) => u,
        Err(m) => return Err(Error::Url(m)),
    };
    let pairs = over_defaults(&config.defaults.query, &options.query);
    add_query(&mut url, &pairs);
    Ok(url)
}

/// The URL of a stream.
pub fn stream_url(config: &ClientConfig, path: &str, options: &RequestOptions) -> (r: Result<
    String,
    Error,
>)
    ensures
        is_url(
            r,
            stream_url_spec(
                config.base_url@,
                fields(config.defaults.query@),
                path@,
                fields(options.query@),
            ),
        ),
{
    match resolved_url(config, path, options) {
        Ok(url) => Ok(url_string(&url)),
        Err(e) => Err(e),
    }
}

/// The parameters of a read: the offset, which a live read always has, the mode and the
/// cursor.
pub open spec fn read_pairs(request: ReadRequest, live: Option<Seq<char>>) -> Seq<
    (Seq<char>, Seq<char>),
> {
    let offset = match request.offset {
        Some(o) => seq![("offset"@, o@)],
        None => if live is Some {
            seq![("offset"@, "-1"@)]
        } else {
            Seq::empty()
        },
    };
    let mode = match live {
        Some(l) => seq![("live"@, l)],
        None => Seq::empty(),
    };
    let cursor = match request.cursor {
        Some(c) => seq![("cursor"@, c@)],
        None => Seq::empty(),
    };
    offset + mode + cursor
}

fn push_pair(pairs: &mut Vec<(String, String)>, name: &'static str, value: &str)
    ensures
        fields(final(pairs)@) == fields(old(pairs)@).push((name@, value@)),
{
    let ghost before = pairs@;
    pairs.push((name.to_owned(), value.to_owned()));
    assert(fields(pairs@) =~= fields(before).push((name@, value@)));
}

/// The URL of a read.
pub fn read_url(config: &ClientConfig, path: &str, request: &ReadRequest, live: Option<&str>) -> (r:
    Result<String, Error>)
    ensures
        is_url(r, read_url_spec(*config, path@, *request, str_opt(live))),
{
    let mut url = match resolved_url(config, path, &request.options) {
        Ok(u) => u,
        Err(e) => return Err(e),
    };
    let ghost l = match live {
        Some(l) => Some(l@),
        None => None,
    };
    let mut pairs: Vec<(String, String)> = Vec::new();
    assert(fields(pairs@) =~= Seq::empty());
    match &request.offset {
        Some(offset) => push_pair(&mut pairs, "offset", offset.as_str()),
        None => {
            if live.is_some() {
                push_pair(&mut pairs, "offset", "-1");
            }
        },
    }
    if let Some(mode) = live {
        push_pair(&mut pairs, "live", mode);
    }
    if let Some(cursor) = &request.cursor {
        push_pair(&mut pairs, "cursor", cursor.as_str());
    }
    assert(fields(pairs@) =~= read_pairs(*request, l));
    add_query(&mut url, &pairs);
    Ok(url_string(&url))
}

/// Whether a default header can be sent.
pub open spec fn is_sendable(h: (Seq<char>, Seq<char>)) -> bool {
    is_header_name(h.0) && is_value_bytes(encode_utf8(h.1))
}

/// What is wrong with a header that cannot be sent.
pub open spec fn header_problem(h: (Seq<char>, Seq<char>)) -> Seq<char> {
    if !is_header_name(h.0) {
        "invalid default header name '"@ + h.0 + "': "@ + "invalid HTTP header name"@
    } else {
        "invalid default header value for '"@ + h.0 + "': "@ + "failed to parse header value"@
    }
}

/// The headers with their names in lower case.
pub open spec fn with_lower_names(f: Seq<(Seq<char>, Seq<char>)>) -> Seq<(Seq<char>, Seq<char>)> {
    f.map_values(|h: (Seq<char>, Seq<char>)| (ascii_lower_spec(h.0), h.1))
}

/// The default headers, checked.
pub fn build_default_headers(defaults: &DefaultsConfig) -> (r: Result<Vec<(String, String)>, Error>)
    ensures
        ({
            let f = fields(defaults.headers@);
            match r {
                Ok(headers) => (forall|i: int| 0 <= i < f.len() ==> is_sendable(#[trigger] f[i]))
                    && fields(headers@) == with_lower_names(f),
                Err(Error::InvalidArgument(m)) => exists|i: int|
                    0 <= i < f.len() && !is_sendable(#[trigger] f[i]) && m@ == header_problem(f[i])
                        && forall|j: int| 0 <= j < i ==> is_sendable(#[trigger] f[j]),
                Err(_) => false,
            }
        }),
{
    let ghost f = fields(defaults.headers@);
    let mut headers: Vec<(String, String)> = Vec::new();
    let mut i: usize = 0;
    assert(fields(headers@) =~= with_lower_names(f.take(0)));
    while i < defaults.headers.len()
        invariant
            i <= defaults.headers@.len(),
            f == fields(defaults.headers@),
            forall|j: int| 0 <= j < i ==> is_sendable(#[trigger] f[j]),
            fields(headers@) == with_lower_names(f.take(i as int)),
        decreases defaults.headers.len() - i,
    {
        let name = defaults.headers[i].0.as_str();
        let value = defaults.headers[i].1.as_str();
        assert(f[i as int] == (name@, value@));
        let lower = match header_name(name) {
            Ok(n) => n,
            Err(m) => {
                assert(!is_sendable(f[i as int]));
                return Err(
                    Error::InvalidArgument(
                        joined4("invalid default header name '", name, "': ", m.as_str()),
                    ),
                );
            },
        };
        match check_header_value(value) {
            Ok(_) => {},
            Err(m) => {
                assert(!is_sendable(f[i as int]));
                return Err(
                    Error::InvalidArgument(
                        joined4("invalid default header value for '", name, "': ", m.as_str()),
                    ),
                );
            },
        }
        let ghost before = headers@;
        let ghost l = lower@;
        headers.push((lower, value.to_owned()));
        proof {
            assert(fields(headers@) =~= fields(before).push((l, value@)));
            assert(with_lower_names(f.take(i + 1)) =~= with_lower_names(f.take(i as int)).push(
                (ascii_lower_spec(name@), value@),
            ));
        }
        i += 1;
    }
    assert(f.take(f.len() as int) =~= f);
    Ok(headers)
}

/// The headers that every request has: those of its options behind the defaults that they do
/// not override.
pub open spec fn general_of(defaults: Seq<(String, String)>, options: RequestOptions) -> Seq<
    (Seq<char>, Seq<char>),
> {
    headers_not_given(fields(defaults), fields(options.headers@)) + fields(options.headers@)
}

/// The headers of a create.
pub open spec fn create_headers(request: CreateStreamRequest) -> Seq<(Seq<char>, Seq<char>)> {
    let ttl = match request.ttl_seconds {
        Some(n) => seq![("stream-ttl"@, decimal(n as nat))],
        None => Seq::empty(),
    };
    let expires = match request.expires_at {
        Some(t) => seq![("stream-expires-at"@, t@)],
        None => Seq::empty(),
    };
    let closed = if request.closed {
        seq![("stream-closed"@, "true"@)]
    } else {
        Seq::empty()
    };
    seq![("content-type"@, request.content_type@)] + ttl + expires + closed
}

/// Whether two optional bodies have the same content.
pub open spec fn same_body(a: Option<Vec<u8>>, b: Option<Vec<u8>>) -> bool {
    match (a, b) {
        (Some(x), Some(y)) => x@ == y@,
        (None, None) => true,
        _ => false,
    }
}

/// Whether a request goes to a stream with a method, the general headers and some of its own, or the
/// error of a URL that cannot be made is reported.
pub open spec fn is_sent(
    r: Result<HttpRequest, Error>,
    config: ClientConfig,
    default_headers: Seq<(String, String)>,
    path: Seq<char>,
    options: RequestOptions,
    method: Method,
    headers: Seq<(Seq<char>, Seq<char>)>,
) -> bool {
    match stream_url_spec(
        config.base_url@,
        fields(config.defaults.query@),
        path,
        fields(options.query@),
    ) {
        Ok(u) => r matches Ok(q) && q.method == method && q.url@ == u && fields(q.general_headers@)
            == general_of(default_headers, options) && fields(q.headers@) == headers,
        Err(e) => r matches Err(Error::Url(m)) && m@ == e,
    }
}

/// Whether a request is that of a create.
pub open spec fn is_creation(
    r: Result<HttpRequest, Error>,
    config: ClientConfig,
    default_headers: Seq<(String, String)>,
    path: Seq<char>,
    request: CreateStreamRequest,
) -> bool {
    is_sent(
        r,
        config,
        default_headers,
        path,
        request.options,
        Method::Put,
        create_headers(request),
    ) && (r matches Ok(q) ==> same_body(q.body, request.body))
}

/// Whether a request is that of an append with these headers.
pub open spec fn is_append_request(
    r: Result<HttpRequest, Error>,
    config: ClientConfig,
    default_headers: Seq<(String, String)>,
    path: Seq<char>,
    options: RequestOptions,
    headers: Seq<(Seq<char>, Seq<char>)>,
    body: Seq<u8>,
) -> bool {
    is_sent(r, config, default_headers, path, options, Method::Post, headers) && (r matches Ok(q) ==> (
    q.body matches Some(b) && b@ == body))
}

/// Whether a request is that of a close with these headers.
pub open spec fn is_close_request(
    r: Result<HttpRequest, Error>,
    config: ClientConfig,
    default_headers: Seq<(String, String)>,
    path: Seq<char>,
    options: RequestOptions,
    headers: Seq<(Seq<char>, Seq<char>)>,
    body: Option<Vec<u8>>,
) -> bool {
    is_sent(r, config, default_headers, path, options, Method::Post, headers) && (r matches Ok(q)
        ==> same_body(q.body, body))
}

/// Whether a request has no headers and no body of its own.
pub open spec fn is_bare_request(
    r: Result<HttpRequest, Error>,
    config: ClientConfig,
    default_headers: Seq<(String, String)>,
    path: Seq<char>,
    options: RequestOptions,
    method: Method,
) -> bool {
    is_sent(r, config, default_headers, path, options, method, Seq::empty()) && (r matches Ok(q)
        ==> q.body is None)
}

/// The request of a create.
pub fn create_request(
    config: &ClientConfig,
    default_headers: &Vec<(String, String)>,
    path: &str,
    request: &CreateStreamRequest,
) -> (r: Result<HttpRequest, Error>)
    ensures
        is_creation(r, *config, default_headers@, path@, *request),
{
    let url = match stream_url(config, path, &request.options) {
        Ok(u) => u,
        Err(e) => return Err(e),
    };
    let mut headers: Vec<(String, String)> = Vec::new();
    assert(fields(headers@) =~= Seq::empty());
    push_pair(&mut headers, "content-type", request.content_type.as_str());
    if let Some(ttl_seconds) = request.ttl_seconds {
        push_pair(&mut headers, STREAM_TTL, u64_text(ttl_seconds).as_str());
    }
    if let Some(expires_at) = &request.expires_at {
        push_pair(&mut headers, STREAM_EXPIRES_AT, expires_at.as_str());
    }
    if request.closed {
        push_pair(&mut headers, STREAM_CLOSED, "true");
    }
    assert(fields(headers@) =~= create_headers(*request));
    let body = match &request.body {
        Some(b) => Some(copy_bytes(b)),
        None => None,
    };
    Ok(
        HttpRequest {
            method: Method::Put,
            url,
            general_headers: over_default_headers(default_headers, &request.options.headers),
            headers,
            body,
        },
    )
}

/// The headers of a producer.
pub open spec fn producer_headers(producer: Option<&ProducerRequest>) -> Seq<(Seq<char>, Seq<char>)> {
    match producer {
        Some(p) => seq![
            ("producer-id"@, p.producer_id@),
            ("producer-epoch"@, signed_decimal(p.producer_epoch as int)),
            ("producer-seq"@, signed_decimal(p.producer_seq as int)),
        ],
        None => Seq::empty(),
    }
}

fn push_producer(headers: &mut Vec<(String, String)>, producer: Option<&ProducerRequest>)
    ensures
        fields(final(headers)@) == fields(old(headers)@) + producer_headers(producer),
{
    let ghost before = fields(headers@);
    if let Some(p) = producer {
        push_pair(headers, PRODUCER_ID, p.producer_id.as_str());
        push_pair(headers, PRODUCER_EPOCH, i64_text(p.producer_epoch).as_str());
        push_pair(headers, PRODUCER_SEQ, i64_text(p.producer_seq).as_str());
    }
    assert(fields(headers@) =~= before + producer_headers(producer));
}

/// The optional field `name` as a list of at most one field.
pub open spec fn optional_field(name: Seq<char>, value: Option<&str>) -> Seq<(Seq<char>, Seq<char>)> {
    match value {
        Some(v) => seq![(name, v@)],
        None => Seq::empty(),
    }
}

/// The headers of an append.
pub open spec fn append_headers(
    content_type: Option<&str>,
    stream_seq: Option<&str>,
    producer: Option<&ProducerRequest>,
) -> Seq<(Seq<char>, Seq<char>)> {
    optional_field("content-type"@, content_type) + optional_field("stream-seq"@, stream_seq)
        + producer_headers(producer)
}

/// The request of an append.
pub fn append_request(
    config: &ClientConfig,
    default_headers: &Vec<(String, String)>,
    path: &str,
    options: &RequestOptions,
    content_type: Option<&str>,
    stream_seq: Option<&str>,
    producer: Option<&ProducerRequest>,
    body: &Vec<u8>,
) -> (r: Result<HttpRequest, Error>)
    ensures
        is_append_request(
            r,
            *config,
            default_headers@,
            path@,
            *options,
            append_headers(content_type, stream_seq, producer),
            body@,
        ),
{
    let url = match stream_url(config, path, options) {
        Ok(u) => u,
        Err(e) => return Err(e),
    };
    let mut headers: Vec<(String, String)> = Vec::new();
    assert(fields(headers@) =~= Seq::empty());
    if let Some(value) = content_type {
        push_pair(&mut headers, "content-type", value);
    }
    if let Some(value) = stream_seq {
        push_pair(&mut headers, STREAM_SEQ, value);
    }
    assert(fields(headers@) =~= optional_field("content-type"@, content_type) + optional_field(
        "stream-seq"@,
        stream_seq,
    ));
    push_producer(&mut headers, producer);
    Ok(
        HttpRequest {
            method: Method::Post,
            url,
            general_headers: over_default_headers(default_headers, &options.headers),
            headers,
            body: Some(copy_bytes(body)),
        },
    )
}

/// The server reads the producer that a client sends: the headers of an append with a named
/// producer, whose numbers are neither negative nor beyond 2^53-1, come to that producer.
pub proof fn law_producer_reaches_the_server(
    content_type: Option<&str>,
    stream_seq: Option<&str>,
    producer: ProducerRequest,
)
    requires
        producer.producer_id@.len() > 0,
        0 <= producer.producer_epoch <= MAX_SAFE_INTEGER,
        0 <= producer.producer_seq <= MAX_SAFE_INTEGER,
    ensures
        ({
            let h = append_headers(content_type, stream_seq, Some(&producer));
            producer_outcome(
                field_of(h, "producer-id"@),
                field_of(h, "producer-epoch"@),
                field_of(h, "producer-seq"@),
            ) == ProducerOutcome::Present {
                id: producer.producer_id@,
                epoch: producer.producer_epoch as nat,
                seq: producer.producer_seq as nat,
            }
        }),
{
    reveal_strlit("content-type");
    reveal_strlit("stream-seq");
    reveal_strlit("producer-id");
    reveal_strlit("producer-epoch");
    reveal_strlit("producer-seq");
    assert("content-type"@[0] != "producer-id"@[0]);
    assert("stream-seq"@[0] != "producer-id"@[0]);
    let first = optional_field("content-type"@, content_type) + optional_field(
        "stream-seq"@,
        stream_seq,
    );
    let own = producer_headers(Some(&producer));
    lemma_field_behind(first, own, "producer-id"@);
    lemma_field_behind(first, own, "producer-epoch"@);
    lemma_field_behind(first, own, "producer-seq"@);
    reveal_with_fuel(field_of, 4);
    assert("producer-id"@.len() == 11 && "producer-epoch"@.len() == 14 && "producer-seq"@.len() == 12);
    assert(own.skip(1)[0] == own[1]);
    assert(own.skip(1).skip(1)[0] == own[2]);
    let epoch = producer.producer_epoch as nat;
    let seq = producer.producer_seq as nat;
    lemma_decimal_round_trip(epoch, u64::MAX as nat);
    lemma_decimal_round_trip(seq, u64::MAX as nat);
    assert(epoch == 0 ==> decimal(epoch).len() == 1);
    assert(seq == 0 ==> decimal(seq).len() == 1);
}

/// The server reads what a client sends with a creation: the content type as it is, the number
/// of seconds that the stream lives, the moment of its end, and whether it is closed.
pub proof fn law_create_reaches_the_server(request: CreateStreamRequest)
    ensures
        ({
            let h = create_headers(request);
            &&& field_of(h, "content-type"@) == Some(request.content_type@)
            &&& match request.ttl_seconds {
                Some(n) => field_of(h, "stream-ttl"@) matches Some(t) && ttl_rejection(trim_spec(t)) is None
                    && unsigned_value(trim_spec(t), u64::MAX as nat) == Some(n as nat),
                None => field_of(h, "stream-ttl"@) is None,
            }
            &&& field_of(h, "stream-expires-at"@) == text_opt(request.expires_at)
            &&& request.closed == (field_of(h, "stream-closed"@) matches Some(v) && is_true_text(v))
        }),
{
    reveal_strlit("content-type");
    reveal_strlit("stream-ttl");
    reveal_strlit("stream-expires-at");
    reveal_strlit("stream-closed");
    assert("content-type"@.len() == 12 && "stream-ttl"@.len() == 10 && "stream-expires-at"@.len() == 17
        && "stream-closed"@.len() == 13);
    reveal_with_fuel(field_of, 5);
    let h = create_headers(request);
    assert(h[0] == ("content-type"@, request.content_type@));
    lemma_true_text();
    if let Some(n) = request.ttl_seconds {
        assert(h[1] == ("stream-ttl"@, decimal(n as nat)));
        lemma_numeral_is_trimmed(n as nat);
        law_ttl_is_canonical_numeral(decimal(n as nat), n);
    }
    assert(h.len() > 1 ==> h.skip(1)[0] == h[1]);
    assert(h.len() > 2 ==> h.skip(1).skip(1)[0] == h[2]);
    assert(h.len() > 3 ==> h.skip(1).skip(1).skip(1)[0] == h[3]);
}

pub proof fn lemma_true_text()
    ensures
        is_true_text("true"@),
{
    reveal_strlit("true");
    assert(!is_white_space("true"@[0]) && !is_white_space("true"@.last()));
}

pub proof fn lemma_numeral_is_trimmed(n: nat)
    ensures
        trim_spec(decimal(n)) == decimal(n),
{
    let t = decimal(n);
    lemma_decimal_round_trip(n, n);
    assert(is_digit(t[0]) && is_digit(t.last()));
}

/// A name that is not among the first fields is looked up in the others.
proof fn lemma_field_behind(
    first: Seq<(Seq<char>, Seq<char>)>,
    second: Seq<(Seq<char>, Seq<char>)>,
    name: Seq<char>,
)
    requires
        forall|i: int| 0 <= i < first.len() ==> (#[trigger] first[i]).0 != name,
    ensures
        field_of(first + second, name) == field_of(second, name),
    decreases first.len(),
{
    if first.len() == 0 {
        assert(first + second =~= second);
    } else {
        let rest = first.skip(1);
        assert forall|i: int| 0 <= i < rest.len() implies (#[trigger] rest[i]).0 != name by {
            assert(rest[i] == first[i + 1]);
        }
        lemma_field_behind(rest, second, name);
        assert((first + second).skip(1) =~= rest + second);
        assert((first + second)[0] == first[0]);
    }
}

/// The headers of a close.
pub open spec fn close_headers(content_type: Option<&str>, producer: Option<&ProducerRequest>) -> Seq<
    (Seq<char>, Seq<char>),
> {
    seq![("stream-closed"@, "true"@)] + optional_field("content-type"@, content_type)
        + producer_headers(producer)
}

/// The request of a close.
pub fn close_request(
    config: &ClientConfig,
    default_headers: &Vec<(String, String)>,
    path: &str,
    options: &RequestOptions,
    content_type: Option<&str>,
    producer: Option<&ProducerRequest>,
    body: &Option<Vec<u8>>,
) -> (r: Result<HttpRequest, Error>)
    ensures
        is_close_request(
            r,
            *config,
            default_headers@,
            path@,
            *options,
            close_headers(content_type, producer),
            *body,
        ),
{
    let url = match stream_url(config, path, options) {
        Ok(u) => u,
        Err(e) => return Err(e),
    };
    let mut headers: Vec<(String, String)> = Vec::new();
    assert(fields(headers@) =~= Seq::empty());
    push_pair(&mut headers, STREAM_CLOSED, "true");
    if let Some(value) = content_type {
        push_pair(&mut headers, "content-type", value);
    }
    assert(fields(headers@) =~= seq![("stream-closed"@, "true"@)] + optional_field(
        "content-type"@,
        content_type,
    ));
    push_producer(&mut headers, producer);
    let body = match body {
        Some(b) => Some(copy_bytes(b)),
        None => None,
    };
    Ok(
        HttpRequest {
            method: Method::Post,
            url,
            general_headers: over_default_headers(default_headers, &options.headers),
            headers,
            body,
        },
    )
}

/// The request of an operation without headers or a body of its own.
pub fn bare_request(
    config: &ClientConfig,
    default_headers: &Vec<(String, String)>,
    method: Method,
    path: &str,
    options: &RequestOptions,
) -> (r: Result<HttpRequest, Error>)
    ensures
        is_bare_request(r, *config, default_headers@, path@, *options, method),
{
    let url = match stream_url(config, path, options) {
        Ok(u) => u,
        Err(e) => return Err(e),
    };
    let headers: Vec<(String, String)> = Vec::new();
    assert(fields(headers@) =~= Seq::empty());
    Ok(
        HttpRequest {
            method,
            url,
            general_headers: over_default_headers(default_headers, &options.headers),
            headers,
            body: None,
        },
    )
}

/// The headers of a read.
pub open spec fn read_headers(if_none_match: Option<Seq<char>>) -> Seq<(Seq<char>, Seq<char>)> {
    match if_none_match {
        Some(etag) => seq![("if-none-match"@, etag)],
        None => Seq::empty(),
    }
}

/// The URL of a read, or why there is none.
pub open spec fn read_url_spec(
    config: ClientConfig,
    path: Seq<char>,
    request: ReadRequest,
    live: Option<Seq<char>>,
) -> Result<Seq<char>, Seq<char>> {
    match resolved_url_spec(
        config.base_url@,
        fields(config.defaults.query@),
        path,
        fields(request.options.query@),
    ) {
        Ok(url) => text_of(Ok(url_with_query(url, read_pairs(request, live)))),
        Err(m) => Err(m),
    }
}

/// Whether a request reads from a URL, or the URL's error is reported.
pub open spec fn is_read_request(
    r: Result<HttpRequest, Error>,
    url: Result<Seq<char>, Seq<char>>,
    general: Seq<(Seq<char>, Seq<char>)>,
    headers: Seq<(Seq<char>, Seq<char>)>,
) -> bool {
    match url {
        Ok(u) => r matches Ok(q) && q.method == Method::Get && q.url@ == u && fields(
            q.general_headers@,
        ) == general && fields(q.headers@) == headers && q.body is None,
        Err(e) => r matches Err(Error::Url(m)) && m@ == e,
    }
}

/// The request of a read of one response: a catch-up, or a long poll where a mode is given.
pub fn read_request(
    config: &ClientConfig,
    default_headers: &Vec<(String, String)>,
    path: &str,
    request: &ReadRequest,
    live: Option<&str>,
) -> (r: Result<HttpRequest, Error>)
    ensures
        is_read_request(
            r,
            read_url_spec(*config, path@, *request, str_opt(live)),
            general_of(default_headers@, request.options),
            read_headers(text_opt(request.if_none_match)),
        ),
{
    let url = match read_url(config, path, request, live) {
        Ok(u) => u,
        Err(e) => return Err(e),
    };
    let mut headers: Vec<(String, String)> = Vec::new();
    assert(fields(headers@) =~= Seq::empty());
    if let Some(etag) = &request.if_none_match {
        push_pair(&mut headers, "if-none-match", etag.as_str());
    }
    assert(fields(headers@) =~= read_headers(text_opt(request.if_none_match)));
    Ok(
        HttpRequest {
            method: Method::Get,
            url,
            general_headers: over_default_headers(default_headers, &request.options.headers),
            headers,
            body: None,
        },
    )
}

/// The request of a read of events.
pub fn sse_request(
    config: &ClientConfig,
    default_headers: &Vec<(String, String)>,
    path: &str,
    request: &ReadRequest,
) -> (r: Result<HttpRequest, Error>)
    ensures
        is_read_request(
            r,
            read_url_spec(*config, path@, *request, Some("sse"@)),
            general_of(default_headers@, request.options),
            Seq::empty(),
        ),
{
    let url = match read_url(config, path, request, Some("sse")) {
        Ok(u) => u,
        Err(e) => return Err(e),
    };
    let headers: Vec<(String, String)> = Vec::new();
    assert(fields(headers@) =~= Seq::empty());
    Ok(
        HttpRequest {
            method: Method::Get,
            url,
            general_headers: over_default_headers(default_headers, &request.options.headers),
            headers,
            body: None,
        },
    )
}

/// Whether a status says that a request succeeded.
pub fn is_success(status: u16) -> (r: bool)
    ensures
        r == (200 <= status < 300),
{
    200 <= status && status < 300
}

/// Whether an error is the one that a reply comes to.
pub open spec fn is_reply_error(
    e: Error,
    status: u16,
    all: Map<Seq<char>, Seq<Seq<u8>>>,
    body: Seq<char>,
) -> bool {
    let f = kept_fields(all);
    e matches Error::Http(h) && h.status == status && fields(h.headers@) == f && h.stream_closed
        == says_closed(f) && h.kind == error_kind_of(status, says_closed(f), body) && h.message@
        == error_message_of(status, body) && text_opt(h.next_offset) == field_of(
        f,
        "stream-next-offset"@,
    ) && text_opt(h.stream_cursor) == field_of(f, "stream-cursor"@) && is_number(
        h.producer_epoch,
        number_of(f, "producer-epoch"@),
    ) && is_number(h.producer_seq, number_of(f, "producer-seq"@)) && is_number(
        h.producer_expected_seq,
        number_of(f, "producer-expected-seq"@),
    ) && is_number(h.producer_received_seq, number_of(f, "producer-received-seq"@))
}

/// The error that a reply comes to.
pub fn reply_error(status: u16, headers: &HeaderMap, body: String) -> (r: Error)
    ensures
        is_reply_error(r, status, header_fields(*headers), body@),
{
    let kept = relevant_headers(headers);
    Error::Http(Box::new(build_http_error_from_parts(status, kept, body)))
}

/// Whether a result is what the reply to a create means.
pub open spec fn is_create_answer(
    r: Result<CreateStreamResponse, Error>,
    status: u16,
    all: Map<Seq<char>, Seq<Seq<u8>>>,
    body: Seq<char>,
) -> bool {
    if status == 200 || status == 201 {
        r matches Ok(c) && c.status == status && text_opt(c.next_offset) == field_text(
            all,
            "stream-next-offset"@,
        ) && c.stream_closed == field_flag(all, "stream-closed"@)
    } else {
        r matches Err(e) && is_reply_error(e, status, all, body)
    }
}

/// What the reply to a create means.
pub fn create_reply(status: u16, headers: &HeaderMap, body: String) -> (r: Result<
    CreateStreamResponse,
    Error,
>)
    ensures
        is_create_answer(r, status, header_fields(*headers), body@),
{
    if status == 200 || status == 201 {
        Ok(
            CreateStreamResponse {
                status,
                next_offset: header_value(headers, STREAM_NEXT_OFFSET),
                stream_closed: parse_bool_header(headers, STREAM_CLOSED),
            },
        )
    } else {
        Err(reply_error(status, headers, body))
    }
}

/// Whether a result is what the reply to an append means.
pub open spec fn is_append_answer(
    r: Result<AppendResponse, Error>,
    status: u16,
    all: Map<Seq<char>, Seq<Seq<u8>>>,
    body: Seq<char>,
) -> bool {
    if status == 200 || status == 204 {
        r matches Ok(a) && a.status == status && text_opt(a.next_offset) == field_text(
            all,
            "stream-next-offset"@,
        ) && a.stream_closed == field_flag(all, "stream-closed"@) && is_number(
            a.producer_epoch,
            field_number(all, "producer-epoch"@),
        ) && is_number(a.producer_seq, field_number(all, "producer-seq"@))
    } else {
        r matches Err(e) && is_reply_error(e, status, all, body)
    }
}

/// What the reply to an append means.
pub fn append_reply(status: u16, headers: &HeaderMap, body: String) -> (r: Result<
    AppendResponse,
    Error,
>)
    ensures
        is_append_answer(r, status, header_fields(*headers), body@),
{
    if status == 200 || status == 204 {
        Ok(
            AppendResponse {
                status,
                next_offset: header_value(headers, STREAM_NEXT_OFFSET),
                stream_closed: parse_bool_header(headers, STREAM_CLOSED),
                producer_epoch: parse_i64_header(headers, PRODUCER_EPOCH),
                producer_seq: parse_i64_header(headers, PRODUCER_SEQ),
            },
        )
    } else {
        Err(reply_error(status, headers, body))
    }
}

/// Whether a result is what the reply to a close means.
pub open spec fn is_close_answer(
    r: Result<CloseStreamResponse, Error>,
    status: u16,
    all: Map<Seq<char>, Seq<Seq<u8>>>,
    body: Seq<char>,
) -> bool {
    if status == 200 || status == 204 {
        match field_text(all, "stream-next-offset"@) {
            Some(o) => r matches Ok(c) && c.status == status && c.final_offset@ == o && c.stream_closed
                == field_flag(all, "stream-closed"@),
            None => r matches Err(Error::Parse(m)) && m@ == "missing Stream-Next-Offset header"@,
        }
    } else {
        r matches Err(e) && is_reply_error(e, status, all, body)
    }
}

/// What the reply to a close means.
pub fn close_reply(status: u16, headers: &HeaderMap, body: String) -> (r: Result<
    CloseStreamResponse,
    Error,
>)
    ensures
        is_close_answer(r, status, header_fields(*headers), body@),
{
    if status == 200 || status == 204 {
        match header_value(headers, STREAM_NEXT_OFFSET) {
            Some(final_offset) => Ok(
                CloseStreamResponse {
                    status,
                    final_offset,
                    stream_closed: parse_bool_header(headers, STREAM_CLOSED),
                },
            ),
            None => Err(Error::parse("missing Stream-Next-Offset header")),
        }
    } else {
        Err(reply_error(status, headers, body))
    }
}

/// Whether a result is what the reply to a delete means.
pub open spec fn is_delete_answer(
    r: Result<DeleteResponse, Error>,
    status: u16,
    all: Map<Seq<char>, Seq<Seq<u8>>>,
    body: Seq<char>,
) -> bool {
    if status == 200 || status == 204 {
        r matches Ok(d) && d.status == status
    } else {
        r matches Err(e) && is_reply_error(e, status, all, body)
    }
}

/// What the reply to a delete means.
pub fn delete_reply(status: u16, headers: &HeaderMap, body: String) -> (r: Result<
    DeleteResponse,
    Error,
>)
    ensures
        is_delete_answer(r, status, header_fields(*headers), body@),
{
    if status == 200 || status == 204 {
        Ok(DeleteResponse { status })
    } else {
        Err(reply_error(status, headers, body))
    }
}

/// Whether a result is what the reply to a metadata request means.
pub open spec fn is_head_answer(
    r: Result<HeadResponse, Error>,
    status: u16,
    all: Map<Seq<char>, Seq<Seq<u8>>>,
    body: Seq<char>,
) -> bool {
    if 200 <= status < 300 {
        r matches Ok(h) && h.status == status && text_opt(h.offset) == field_text(
            all,
            "stream-next-offset"@,
        ) && text_opt(h.content_type) == field_text(all, "content-type"@) && (match h.ttl_seconds {
            Some(n) => field_text(all, "stream-ttl"@) matches Some(v) && unsigned_value(
                v,
                u64::MAX as nat,
            ) == Some(n as nat),
            None => field_text(all, "stream-ttl"@) matches Some(v) ==> unsigned_value(
                v,
                u64::MAX as nat,
            ) is None,
        }) && text_opt(h.expires_at) == field_text(all, "stream-expires-at"@) && h.stream_closed
            == field_flag(all, "stream-closed"@) && text_opt(h.etag) == field_text(all, "etag"@)
    } else {
        r matches Err(e) && is_reply_error(e, status, all, body)
    }
}

/// What the reply to a metadata request means.
pub fn head_reply(status: u16, headers: &HeaderMap, body: String) -> (r: Result<HeadResponse, Error>)
    ensures
        is_head_answer(r, status, header_fields(*headers), body@),
{
    if is_success(status) {
        let ttl_seconds = match header_value(headers, STREAM_TTL) {
            Some(value) => match parse_unsigned(value.as_str(), u64::MAX) {
                Ok(n) => Some(n),
                Err(_) => None,
            },
            None => None,
        };
        Ok(
            HeadResponse {
                status,
                offset: header_value(headers, STREAM_NEXT_OFFSET),
                content_type: header_value(headers, "content-type"),
                ttl_seconds,
                expires_at: header_value(headers, STREAM_EXPIRES_AT),
                stream_closed: parse_bool_header(headers, STREAM_CLOSED),
                etag: header_value(headers, "etag"),
            },
        )
    } else {
        Err(reply_error(status, headers, body))
    }
}

/// What connecting to a stream gives, from its metadata.
pub fn connect_response(head: HeadResponse) -> (r: ConnectResponse)
    ensures
        r == (ConnectResponse {
            status: head.status,
            offset: head.offset,
            content_type: head.content_type,
            stream_closed: head.stream_closed,
        }),
{
    ConnectResponse {
        status: head.status,
        offset: head.offset,
        content_type: head.content_type,
        stream_closed: head.stream_closed,
    }
}

} // verus!
