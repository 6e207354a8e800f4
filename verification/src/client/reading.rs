//! Reads from end to end: what a client asks for, where a server begins to read, and how a stream
//! of events goes on.

use vstd::prelude::*;
use crate::client::config::ClientConfig;
use crate::client::error::Error as ClientError;
use crate::client::live::said_of;
use crate::client::model::{CreateStreamRequest, ReadRequest, RequestOptions};
use crate::client::requests::{
    HttpRequest, Method, create_headers, general_of, is_append_request, is_bare_request,
    is_close_request, is_creation, is_read_request, read_headers, read_pairs, read_url_spec,
    resolved_url_spec,
};
use crate::decimal::decimal;
use crate::fields::{
    field_of, fields, has_header_name, header_of, headers_not_given, law_given_fields_win,
    law_given_headers_replace_defaults, not_given,
};
use crate::handlers::common::{ReadResult, StreamResponse};
use crate::handlers::get::{
    ReadMode, ReadQuery, SseEvent, SseSession, SseStep, control_of, cursor_text, frames_of, is_mode_of,
    is_offset_of, is_opened, is_step_of,
};
use crate::protocol::cursor::{next_cursor, position_value};
use crate::protocol::error::{Error, Result as ServerResult};
use crate::protocol::json_mode::contents;
use crate::protocol::offset::Offset;
use crate::protocol::sse::data_frames;
use crate::text::{ascii_lower_spec, text_opt, texts};
use crate::urls::{joined_url, parsed_url, url_text, url_with_query};

verus! {

proof fn lemma_read_names()
    ensures
        "offset"@.len() == 6,
        "live"@.len() == 4,
        "cursor"@.len() == 6,
        "cursor"@[0] == 'c',
        "offset"@[0] == 'o',
        "long-poll"@.len() == 9,
        "sse"@.len() == 3,
{
    reveal_strlit("offset");
    reveal_strlit("live");
    reveal_strlit("cursor");
    reveal_strlit("long-poll");
    reveal_strlit("sse");
}

/// The fields of two lists are looked up in the first, then in the second.
pub proof fn lemma_field_behind(
    a: Seq<(Seq<char>, Seq<char>)>,
    b: Seq<(Seq<char>, Seq<char>)>,
    name: Seq<char>,
)
    ensures
        field_of(a + b, name) == match field_of(a, name) {
            Some(v) => Some(v),
            None => field_of(b, name),
        },
    decreases a.len(),
{
    if a.len() == 0 {
        assert(a + b =~= b);
    } else {
        assert((a + b)[0] == a[0]);
        assert((a + b).skip(1) =~= a.skip(1) + b);
        lemma_field_behind(a.skip(1), b, name);
    }
}

proof fn lemma_one_field(name: Seq<char>, value: Seq<char>, other: Seq<char>)
    ensures
        field_of(seq![(name, value)], other) == if other == name {
            Some(value)
        } else {
            None
        },
{
    let f = seq![(name, value)];
    assert(f.skip(1) =~= Seq::<(Seq<char>, Seq<char>)>::empty());
    assert(field_of(f.skip(1), other) is None);
}

/// Whether the parameters of a query are those of a URL.
pub open spec fn is_query(query: ReadQuery, pairs: Seq<(Seq<char>, Seq<char>)>) -> bool {
    text_opt(query.offset) == field_of(pairs, "offset"@) && text_opt(query.live) == field_of(
        pairs,
        "live"@,
    ) && text_opt(query.cursor) == field_of(pairs, "cursor"@)
}

/// A server begins to read where the client asks it to, or at the start of the stream where the
/// client names no place, and reads in the way that the client asks for. It refuses none of the
/// reads that a client asks for.
pub proof fn law_read_begins_where_the_client_asks(
    request: ReadRequest,
    live: Option<Seq<char>>,
    query: ReadQuery,
    offset: ServerResult<String>,
    mode: ServerResult<ReadMode>,
)
    requires
        live matches Some(l) ==> l == "long-poll"@ || l == "sse"@,
        is_query(query, read_pairs(request, live)),
        is_offset_of(offset, query),
        is_mode_of(mode, query),
    ensures
        offset matches Ok(o) && o@ == match request.offset {
            Some(asked) => asked@,
            None => "-1"@,
        },
        mode == Ok::<ReadMode, Error>(
            match live {
                Some(l) => if l.len() == 3 {
                    ReadMode::Sse
                } else {
                    ReadMode::LongPoll
                },
                None => ReadMode::CatchUp,
            },
        ),
        text_opt(query.cursor) == text_opt(request.cursor),
{
    lemma_read_names();
    let none = Seq::<(Seq<char>, Seq<char>)>::empty();
    let o = match request.offset {
        Some(o) => seq![("offset"@, o@)],
        None => if live is Some {
            seq![("offset"@, "-1"@)]
        } else {
            none
        },
    };
    let m = match live {
        Some(l) => seq![("live"@, l)],
        None => none,
    };
    let c = match request.cursor {
        Some(c) => seq![("cursor"@, c@)],
        None => none,
    };
    assert(read_pairs(request, live) == o + m + c);
    lemma_read_parameter(o, m, c, request, live, "offset"@);
    lemma_read_parameter(o, m, c, request, live, "live"@);
    lemma_read_parameter(o, m, c, request, live, "cursor"@);
}

proof fn lemma_read_parameter(
    o: Seq<(Seq<char>, Seq<char>)>,
    m: Seq<(Seq<char>, Seq<char>)>,
    c: Seq<(Seq<char>, Seq<char>)>,
    request: ReadRequest,
    live: Option<Seq<char>>,
    name: Seq<char>,
)
    requires
        o.len() <= 1 && m.len() <= 1 && c.len() <= 1,
        o.len() == 1 ==> o[0].0 == "offset"@,
        m.len() == 1 ==> m[0].0 == "live"@,
        c.len() == 1 ==> c[0].0 == "cursor"@,
    ensures
        field_of(o + m + c, name) == if o.len() == 1 && name == "offset"@ {
            Some(o[0].1)
        } else if m.len() == 1 && name == "live"@ {
            Some(m[0].1)
        } else if c.len() == 1 && name == "cursor"@ {
            Some(c[0].1)
        } else {
            None
        },
{
    lemma_read_names();
    lemma_field_behind(o + m, c, name);
    lemma_field_behind(o, m, name);
    let none = Seq::<(Seq<char>, Seq<char>)>::empty();
    assert(field_of(none, name) is None);
    if o.len() == 1 {
        assert(o =~= seq![(o[0].0, o[0].1)]);
        lemma_one_field(o[0].0, o[0].1, name);
    } else {
        assert(o =~= none);
    }
    if m.len() == 1 {
        assert(m =~= seq![(m[0].0, m[0].1)]);
        lemma_one_field(m[0].0, m[0].1, name);
    } else {
        assert(m =~= none);
    }
    if c.len() == 1 {
        assert(c =~= seq![(c[0].0, c[0].1)]);
        lemma_one_field(c[0].0, c[0].1, name);
    } else {
        assert(c =~= none);
    }
}

/// A query that no client sends: without an offset a live read is refused, and so is a mode that is
/// not known; the answer is that of a bad request and names what was given.
pub proof fn law_incomplete_live_reads_are_refused(
    query: ReadQuery,
    offset: ServerResult<String>,
    mode: ServerResult<ReadMode>,
)
    requires
        is_offset_of(offset, query),
        is_mode_of(mode, query),
    ensures
        offset is Err <==> query.offset is None && query.live is Some,
        offset matches Err(e) ==> e.status_spec() == 400,
        offset matches Ok(o) ==> o@ == match query.offset {
            Some(given) => given@,
            None => "-1"@,
        },
        mode is Err <==> (query.live matches Some(l) && l@ != "long-poll"@ && l@ != "sse"@),
        mode matches Err(e) ==> e.status_spec() == 400,
{
}

/// Slashes before a path make no difference: the path names the same stream below the base.
pub proof fn law_leading_slashes_make_no_difference(
    base_url: Seq<char>,
    defaults: Seq<(Seq<char>, Seq<char>)>,
    path: Seq<char>,
    query: Seq<(Seq<char>, Seq<char>)>,
)
    ensures
        resolved_url_spec(base_url, defaults, seq!['/'] + path, query) == resolved_url_spec(
            base_url,
            defaults,
            path,
            query,
        ),
{
    let p = seq!['/'] + path;
    assert(p.skip(1) =~= path);
}

/// A stream's URL: the path below the base, with the parameters that the request gives, and those
/// defaults that it does not give. It is there exactly where both parts make a URL.
pub proof fn law_stream_url_has_the_parameters(
    base_url: Seq<char>,
    defaults: Seq<(Seq<char>, Seq<char>)>,
    path: Seq<char>,
    query: Seq<(Seq<char>, Seq<char>)>,
)
    requires
        path.len() == 0 || path[0] != '/',
    ensures
        ({
            let url = resolved_url_spec(base_url, defaults, path, query);
            &&& url is Ok <==> (parsed_url(base_url) matches Ok(base) && joined_url(base, path) is Ok)
            &&& url matches Ok(u) ==> exists|pairs: Seq<(Seq<char>, Seq<char>)>|
                {
                    &&& u == #[trigger] url_with_query(
                        joined_url(parsed_url(base_url)->Ok_0, path)->Ok_0,
                        pairs,
                    )
                    &&& forall|field: (Seq<char>, Seq<char>)|
                        #[trigger] pairs.contains(field) <==> query.contains(field) || (
                        defaults.contains(field) && field_of(query, field.0) is None)
                }
        }),
{
    let kept = not_given(defaults, query);
    let pairs = kept + query;
    assert forall|field: (Seq<char>, Seq<char>)|
        #[trigger] pairs.contains(field) <==> query.contains(field) || (defaults.contains(field)
            && field_of(query, field.0) is None) by {
        law_given_fields_win(defaults, query, field);
        if kept.contains(field) {
            let i = choose|i: int| 0 <= i < kept.len() && kept[i] == field;
            assert(pairs[i] == field);
        }
        if query.contains(field) {
            let i = choose|i: int| 0 <= i < query.len() && query[i] == field;
            assert(pairs[kept.len() + i] == field);
        }
        if pairs.contains(field) {
            let i = choose|i: int| 0 <= i < pairs.len() && pairs[i] == field;
            if i < kept.len() {
                assert(kept[i] == field);
            } else {
                assert(query[i - kept.len()] == field);
            }
        }
    }
    if let Ok(base) = parsed_url(base_url) {
        if let Ok(url) = joined_url(base, path) {
            let whole = resolved_url_spec(base_url, defaults, path, query);
            assert(whole->Ok_0 == url_with_query(url, pairs));
        }
    }
}

/// A read is a GET without a body. It names the tag that the client has, and no other header of its
/// own; the URL is that of the stream with the parameters of the read behind it.
pub proof fn law_read_is_asked_for_as_a_get(
    r: Result<HttpRequest, ClientError>,
    config: ClientConfig,
    path: Seq<char>,
    request: ReadRequest,
    live: Option<Seq<char>>,
    general: Seq<(Seq<char>, Seq<char>)>,
    if_none_match: Option<Seq<char>>,
)
    requires
        is_read_request(
            r,
            read_url_spec(config, path, request, live),
            general,
            read_headers(if_none_match),
        ),
    ensures
        ({
            let at = resolved_url_spec(
                config.base_url@,
                fields(config.defaults.query@),
                path,
                fields(request.options.query@),
            );
            match at {
                Ok(url) => r matches Ok(q) && q.method == Method::Get && q.body is None && q.url@
                    == url_text(url_with_query(url, read_pairs(request, live))) && fields(
                    q.general_headers@,
                ) == general && (forall|name: Seq<char>| #[trigger]
                    header_of(fields(q.headers@), name) == if ascii_lower_spec(name) == ascii_lower_spec(
                        "if-none-match"@,
                    ) {
                        if_none_match
                    } else {
                        None
                    }),
                Err(m) => r matches Err(ClientError::Url(text)) && text@ == m,
            }
        }),
{
    let h = read_headers(if_none_match);
    assert forall|name: Seq<char>| #[trigger] header_of(h, name) == if ascii_lower_spec(name)
        == ascii_lower_spec("if-none-match"@) {
        if_none_match
    } else {
        None
    } by {
        if h.len() > 0 {
            assert(h.skip(1) =~= Seq::<(Seq<char>, Seq<char>)>::empty());
            assert(header_of(h.skip(1), name) is None);
        }
    }
}

/// Each response at a position has a cursor of its own: one above the last, or the number of the
/// position where that is higher. A sentinel has none.
pub proof fn law_every_position_has_a_cursor(last: u64, offset: Offset)
    ensures
        match offset {
            Offset::Position { read_seq, byte_offset } => {
                let place = position_value(read_seq, byte_offset);
                next_cursor(last, offset) matches Some(n) && n > last && n >= place && (n == last + 1
                    || n == place) && cursor_text(last, offset) == decimal(n as nat)
            },
            _ => next_cursor(last, offset) is None && cursor_text(last, offset) == "0"@,
        },
{
}

/// The number of a position counts in steps of the room for byte offsets.
pub proof fn law_position_value_counts_bytes(read_seq: u64, byte_offset: u64)
    requires
        byte_offset < 0x800_0000,
        read_seq < 0x20_0000_0000,
    ensures
        position_value(read_seq, byte_offset) == read_seq * 0x800_0000 + byte_offset,
{
    assert((read_seq << 27u32) | byte_offset == read_seq * 0x800_0000 + byte_offset) by (bit_vector)
        requires
            byte_offset < 0x800_0000u64,
            read_seq < 0x20_0000_0000u64,
    ;
}

/// Whether the frames of a step are those of a read: the data, where there is any, and behind it
/// what the read says of the stream.
pub open spec fn sends(step: SseStep, session: SseSession, read: ReadResult, last: u64) -> bool {
    let f = texts(step.frames@);
    let data = data_frames(contents(read.messages@), session.is_binary, session.is_json);
    &&& f.len() == if data.len() > 0 {
        2nat
    } else {
        1nat
    }
    &&& f.last() == "event: control\ndata:"@ + control_of(read, last) + "\n\n"@
    &&& f.drop_last().flatten() == data
}

proof fn lemma_sends(read: ReadResult, is_binary: bool, is_json: bool, last: u64)
    ensures
        ({
            let f = frames_of(read, is_binary, is_json, last);
            let data = data_frames(contents(read.messages@), is_binary, is_json);
            &&& f.len() == if data.len() > 0 {
                2nat
            } else {
                1nat
            }
            &&& f.last() == "event: control\ndata:"@ + control_of(read, last) + "\n\n"@
            &&& f.drop_last().flatten() == data
        }),
{
    let f = frames_of(read, is_binary, is_json, last);
    let data = data_frames(contents(read.messages@), is_binary, is_json);
    f.drop_last().lemma_flatten_and_flatten_alt_are_equivalent();
    if data.len() == 0 {
        assert(f.drop_last() =~= Seq::<Seq<char>>::empty());
        assert(data =~= Seq::<char>::empty());
    } else {
        assert(f.drop_last() =~= seq![data]);
        assert(seq![data].drop_last() =~= Seq::<Seq<char>>::empty());
        assert(Seq::<Seq<char>>::empty().flatten_alt() =~= Seq::<char>::empty());
        assert(Seq::<char>::empty() + data =~= data);
    }
}

/// A stream of events opens with all that the first read gives, and goes on from where that read
/// ended, unless nothing will follow. Text and JSON are sent as they are, and anything else in
/// base64, which the headers then say.
pub proof fn law_event_stream_opens_with_the_first_read(
    r: (SseSession, StreamResponse, SseStep),
    content_type: Seq<char>,
    reconnect_interval_secs: u64,
    read: ReadResult,
    last: u64,
    after: u64,
)
    requires
        is_opened(r, content_type, reconnect_interval_secs, read, last, after),
    ensures
        sends(r.2, r.0, read, last),
        r.0.tail.token@ == read.next_offset.token@,
        r.0.reconnect_interval_secs == reconnect_interval_secs,
        r.2.done == said_of(read, last).closed,
        r.2.restart_idle,
        r.1@.status == 200,
        header_of(r.1@.headers, "stream-sse-data-encoding"@) == if content_type == "application/json"@
            || "text/"@.is_prefix_of(content_type) {
            None
        } else {
            Some("base64"@)
        },
        r.0.is_json <==> content_type == "application/json"@,
        !(r.0.is_json && r.0.is_binary),
{
    lemma_sends(read, r.0.is_binary, r.0.is_json, last);
    crate::handlers::answers::law_event_stream_says_its_encoding(r.0.is_binary);
}

/// Whatever happens to a stream of events, it keeps the kind of its data and how long it is held.
/// News sends all that was read and goes on from there; a stream that ends sends what a last read
/// gives. It ends exactly where nothing will follow, or where it cannot go on, and what is sent
/// while it waits is a comment.
pub proof fn law_event_stream_goes_on_from_its_tail(
    r: SseStep,
    session: SseSession,
    event: SseEvent,
    last: u64,
    next: SseSession,
    after: u64,
)
    requires
        is_step_of(r, session, event, last, next, after),
    ensures
        next.is_binary == session.is_binary,
        next.is_json == session.is_json,
        next.reconnect_interval_secs == session.reconnect_interval_secs,
        match event {
            SseEvent::Read(read) => {
                &&& sends(r, session, read, last)
                &&& next.tail.token@ == read.next_offset.token@
                &&& next.tail.place == read.next_offset.place
                &&& r.done == said_of(read, last).closed
                &&& r.restart_idle <==> read.messages@.len() > 0
            },
            SseEvent::Closed(Some(read)) => sends(r, session, read, last) && r.done && next.tail
                == session.tail,
            SseEvent::KeepAlive => !r.done && !r.restart_idle && r.frames@.len() == 1 && (
            r.frames@[0]@)[0] == ':' && next.tail == session.tail && after == last,
            _ => r.done && r.frames@.len() == 0 && next.tail == session.tail && after == last,
        },
{
    match event {
        SseEvent::Read(read) => lemma_sends(read, session.is_binary, session.is_json, last),
        SseEvent::Closed(Some(read)) => lemma_sends(read, session.is_binary, session.is_json, last),
        SseEvent::KeepAlive => {
            reveal_strlit(":\n\n");
            assert(texts(r.frames@).len() == 1);
            assert(texts(r.frames@)[0] == ":\n\n"@);
            assert(texts(r.frames@)[0] == r.frames@[0]@);
        },
        _ => {},
    }
}

/// The cursors of a stream of events increase with each read, unless nothing will follow.
pub proof fn law_event_stream_cursors_increase(
    r: SseStep,
    session: SseSession,
    read: ReadResult,
    last: u64,
    next: SseSession,
    after: u64,
)
    requires
        is_step_of(r, session, SseEvent::Read(read), last, next, after),
        read.next_offset.place is Position,
    ensures
        after >= last,
        after > last <==> !(read.closed && read.at_tail),
{
}

/// Whether a request goes to the stream that a path names, with the headers that the options give in
/// place of the client's own.
pub open spec fn goes_to(
    q: HttpRequest,
    config: ClientConfig,
    default_headers: Seq<(String, String)>,
    path: Seq<char>,
    options: RequestOptions,
) -> bool {
    &&& resolved_url_spec(
        config.base_url@,
        fields(config.defaults.query@),
        path,
        fields(options.query@),
    ) matches Ok(url) && q.url@ == url_text(url)
    &&& forall|h: (Seq<char>, Seq<char>)|
        fields(options.headers@).contains(h) ==> #[trigger] fields(q.general_headers@).contains(h)
    &&& forall|h: (Seq<char>, Seq<char>)| #[trigger]
        fields(q.general_headers@).contains(h) ==> fields(options.headers@).contains(h) || (fields(
            default_headers,
        ).contains(h) && !has_header_name(fields(options.headers@), h.0))
    &&& forall|h: (Seq<char>, Seq<char>)|
        fields(default_headers).contains(h) && !has_header_name(fields(options.headers@), h.0)
            ==> #[trigger] fields(q.general_headers@).contains(h)
}

proof fn lemma_general(default_headers: Seq<(String, String)>, options: RequestOptions, h: (Seq<char>, Seq<char>))
    ensures
        general_of(default_headers, options).contains(h) <==> fields(options.headers@).contains(h) || (
        fields(default_headers).contains(h) && !has_header_name(fields(options.headers@), h.0)),
{
    let given = fields(options.headers@);
    let kept = headers_not_given(fields(default_headers), given);
    let all = kept + given;
    law_given_headers_replace_defaults(fields(default_headers), given, h);
    if kept.contains(h) {
        let i = choose|i: int| 0 <= i < kept.len() && kept[i] == h;
        assert(all[i] == h);
    }
    if given.contains(h) {
        let i = choose|i: int| 0 <= i < given.len() && given[i] == h;
        assert(all[kept.len() + i] == h);
    }
    if all.contains(h) {
        let i = choose|i: int| 0 <= i < all.len() && all[i] == h;
        if i < kept.len() {
            assert(kept[i] == h);
        } else {
            assert(given[i - kept.len()] == h);
        }
    }
}

/// A stream is created with PUT, and appended to and closed with POST; each request goes to the
/// stream that its path names and has its body as it is.
pub proof fn law_writes_go_to_their_stream(
    config: ClientConfig,
    default_headers: Seq<(String, String)>,
    path: Seq<char>,
    create: CreateStreamRequest,
    options: RequestOptions,
    headers: Seq<(Seq<char>, Seq<char>)>,
    body: Seq<u8>,
    last: Option<Vec<u8>>,
    created: Result<HttpRequest, ClientError>,
    appended: Result<HttpRequest, ClientError>,
    closed: Result<HttpRequest, ClientError>,
)
    requires
        is_creation(created, config, default_headers, path, create),
        is_append_request(appended, config, default_headers, path, options, headers, body),
        is_close_request(closed, config, default_headers, path, options, headers, last),
    ensures
        created matches Ok(q) ==> q.method == Method::Put && goes_to(
            q,
            config,
            default_headers,
            path,
            create.options,
        ) && fields(q.headers@) == create_headers(create) && match (q.body, create.body) {
            (Some(a), Some(b)) => a@ == b@,
            (None, None) => true,
            _ => false,
        },
        appended matches Ok(q) ==> q.method == Method::Post && goes_to(
            q,
            config,
            default_headers,
            path,
            options,
        ) && fields(q.headers@) == headers && (q.body matches Some(b) && b@ == body),
        closed matches Ok(q) ==> q.method == Method::Post && goes_to(
            q,
            config,
            default_headers,
            path,
            options,
        ) && fields(q.headers@) == headers && match (q.body, last) {
            (Some(a), Some(b)) => a@ == b@,
            (None, None) => true,
            _ => false,
        },
{
    assert forall|h: (Seq<char>, Seq<char>)| #[trigger]
        general_of(default_headers, options).contains(h) <==> fields(options.headers@).contains(h) || (
        fields(default_headers).contains(h) && !has_header_name(fields(options.headers@), h.0)) by {
        lemma_general(default_headers, options, h);
    }
    assert forall|h: (Seq<char>, Seq<char>)| #[trigger]
        general_of(default_headers, create.options).contains(h) <==> fields(
            create.options.headers@,
        ).contains(h) || (fields(default_headers).contains(h) && !has_header_name(
            fields(create.options.headers@),
            h.0,
        )) by {
        lemma_general(default_headers, create.options, h);
    }
}

/// A request without headers and a body of its own goes to its stream with its method; it cannot be
/// made exactly where there is no URL for the stream.
pub proof fn law_bare_requests_go_to_their_stream(
    config: ClientConfig,
    default_headers: Seq<(String, String)>,
    path: Seq<char>,
    options: RequestOptions,
    method: Method,
    r: Result<HttpRequest, ClientError>,
)
    requires
        is_bare_request(r, config, default_headers, path, options, method),
    ensures
        r matches Ok(q) ==> q.method == method && goes_to(q, config, default_headers, path, options)
            && q.headers@.len() == 0 && q.body is None,
        r is Err <==> resolved_url_spec(
            config.base_url@,
            fields(config.defaults.query@),
            path,
            fields(options.query@),
        ) is Err,
{
    assert forall|h: (Seq<char>, Seq<char>)| #[trigger]
        general_of(default_headers, options).contains(h) <==> fields(options.headers@).contains(h) || (
        fields(default_headers).contains(h) && !has_header_name(fields(options.headers@), h.0)) by {
        lemma_general(default_headers, options, h);
    }
    if let Ok(q) = r {
        assert(fields(q.headers@).len() == q.headers@.len());
    }
}

} // verus!
