//! Commands from end to end: what a command sends, what the server makes of it, and what the result
//! says of the reply.

use vstd::prelude::*;
use vstd::utf8::encode_utf8;
use crate::client::adapter::{
    AdapterCall, AdapterOutput, AdapterState, AdapterStep, AppendParams, Command, CreateParams,
    LiveValue, ProducerParams, ReadParams, append_report, close_report, connect_report, create_report,
    delete_report, head_report, is_step, producer_report, read_outcome, remembers,
};
use crate::client::error::{Error, ErrorCode};
use crate::client::exchange::{is_received, law_creation_is_planned_as_asked};
use crate::client::model::{
    AppendResponse, CloseStreamResponse, ConnectResponse, CreateStreamResponse, DeleteResponse, HeadResponse, LiveMode,
    ReadResponse,
};
use crate::client::reports::{error_report, read_report};
use crate::client::requests::create_headers;
use crate::decimal::signed_decimal;
use crate::encoding::{base64_bytes, lossy_text};
use crate::fields::{fields, law_set_field};
use crate::handlers::post::Fields;
use crate::handlers::put::{CreatePlan, Expiration, is_create_plan};
use crate::protocol::headers::normalized_content_type;
use crate::text::{text_opt, trim_spec};
use crate::urls::normal_url_spec;

verus! {

/// Whether a command needs a client.
pub open spec fn needs_client(command: Command) -> bool {
    command is Create || command is Connect || command is Append || command is Read || command is Head
        || command is Delete || command is Close || command is IdempotentAppend || command
        is IdempotentAppendBatch || command is IdempotentClose
}

/// Before there is a client nothing is sent: a command that needs one fails and says so.
pub proof fn law_nothing_is_sent_without_a_client(
    s: AdapterState,
    command: Command,
    now_millis: int,
    r: AdapterStep,
)
    requires
        is_step(s, command, now_millis, r),
        !s.initialized,
        needs_client(command),
    ensures
        r matches AdapterStep::Done(AdapterOutput::Error(e)) && e@.error_code
            == ErrorCode::InternalError && e@.status is None,
{
}

/// A client is started exactly where the URL of the server is one, with the time that was given.
pub proof fn law_client_is_started_for_a_url(
    s: AdapterState,
    server_url: String,
    timeout_ms: Option<u64>,
    now_millis: int,
    r: AdapterStep,
)
    requires
        is_step(s, Command::Init { server_url, timeout_ms }, now_millis, r),
    ensures
        match normal_url_spec(server_url@) {
            Ok(url) => r matches AdapterStep::Start { client, timeout_ms: t } && client.config.base_url@
                == url && t == timeout_ms,
            Err(m) => r matches AdapterStep::Done(AdapterOutput::Error(e)) && e@.error_code
                == ErrorCode::InvalidArgument && e@.message == m,
        },
{
}

/// What a `create` command asks for is what the server plans: the type, or that of bytes; whether
/// the stream is closed; and when it ends.
pub proof fn law_create_command_is_planned(
    s: AdapterState,
    p: CreateParams,
    now_millis: int,
    r: AdapterStep,
    f: Fields,
    base: Seq<char>,
    location: Seq<char>,
    planned: crate::protocol::error::Result<CreatePlan>,
)
    requires
        is_step(s, Command::Create(p), now_millis, r),
        s.initialized,
        p.content_type matches Some(t) ==> trim_spec(t@).len() > 0,
        r matches AdapterStep::Call(AdapterCall::Create { path, request }) && is_received(
            f,
            create_headers(request),
        ) && is_create_plan(
            planned,
            f,
            base,
            match request.body {
                Some(b) => b@,
                None => Seq::empty(),
            },
            location,
        ),
    ensures
        r matches AdapterStep::Call(AdapterCall::Create { path, request }) && path@ == p.path@ && match (
            p.data,
            request.body,
        ) {
            (Some(d), Some(b)) => b@ == encode_utf8(d@),
            (None, None) => true,
            _ => false,
        } && fields(request.options.headers@) == match p.headers {
            Some(h) => fields(h@),
            None => Seq::empty(),
        },
        planned matches Ok(plan) ==> {
            &&& plan.created_closed <==> p.closed == Some(true)
            &&& plan.content_type@ == normalized_content_type(
                match p.content_type {
                    Some(t) => t@,
                    None => "application/octet-stream"@,
                },
            )
            &&& p.ttl_seconds is None && p.expires_at is None <==> plan.expiration == Expiration::Never
            &&& p.ttl_seconds matches Some(n) ==> plan.expiration == Expiration::After(n)
        },
{
    if let AdapterStep::Call(AdapterCall::Create { path, request }) = r {
        let body = match request.body {
            Some(b) => b@,
            None => Seq::empty(),
        };
        lemma_bytes_type();
        law_creation_is_planned_as_asked(request, f, base, body, location, planned);
    }
}

proof fn lemma_bytes_type()
    ensures
        trim_spec("application/octet-stream"@).len() > 0,
{
    reveal_strlit("application/octet-stream");
    let t = "application/octet-stream"@;
    crate::text::lemma_trim_start_at(t, 0);
    assert(t.skip(0) =~= t);
    crate::text::lemma_trim_end_at(t, t.len() as int);
    assert(t.take(t.len() as int) =~= t);
}

/// What an `append` command appends is its data as it is, or what the data encodes; it is sent with
/// the type that the stream was met with.
pub proof fn law_append_command_sends_its_data(
    s: AdapterState,
    p: AppendParams,
    now_millis: int,
    r: AdapterStep,
)
    requires
        is_step(s, Command::Append(p), now_millis, r),
        s.initialized,
    ensures
        ({
            let data = if p.binary == Some(true) {
                base64_bytes(p.data@)
            } else {
                Ok(encode_utf8(p.data@))
            };
            match data {
                Ok(bytes) => {
                    &&& r matches AdapterStep::Call(AdapterCall::Append { path, request, sent })
                    &&& path@ == p.path@ && request.body@ == bytes
                    &&& text_opt(request.content_type) == Some(
                        match s.type_of(p.path@) {
                            Some(t) => t,
                            None => "application/octet-stream"@,
                        },
                    )
                    &&& text_opt(request.stream_seq) == match p.seq {
                        Some(n) => Some(signed_decimal(n as int)),
                        None => None,
                    }
                    &&& match (p.producer_id, request.producer) {
                        (Some(id), Some(q)) => q.producer_id@ == id@ && (p.producer_epoch matches Some(n)
                            ==> q.producer_epoch == n) && (p.producer_seq matches Some(n)
                            ==> q.producer_seq == n) && (p.producer_epoch is None ==> q.producer_epoch
                            == 0) && (p.producer_seq is None ==> q.producer_seq == 0),
                        (None, None) => true,
                        _ => false,
                    }
                },
                Err(m) => r matches AdapterStep::Done(AdapterOutput::Error(e)) && e@.error_code
                    == ErrorCode::ParseError && e@.message == m,
            }
        }),
{
}

/// The type that a stream was created or met with is the one that data is appended with from then
/// on; other streams keep theirs.
pub proof fn law_types_are_remembered(
    before: AdapterState,
    after: AdapterState,
    path: Seq<char>,
    content_type: Seq<char>,
    other: Seq<char>,
)
    requires
        remembers(before, after, path, Some(content_type)),
    ensures
        after.type_of(path) == Some(content_type),
        other != path ==> after.type_of(other) == before.type_of(other),
        after.initialized == before.initialized && after.timeout_ms == before.timeout_ms
            && after.producers == before.producers && after.dynamic_headers == before.dynamic_headers
            && after.dynamic_params == before.dynamic_params,
{
    law_set_field(fields(before.content_types@), path, content_type, other);
}

/// What a `read` command asks for is what is read: the place, the way, the time, and when to stop.
pub proof fn law_read_command_asks_as_told(
    s: AdapterState,
    p: ReadParams,
    now_millis: int,
    r: AdapterStep,
)
    requires
        is_step(s, Command::Read(p), now_millis, r),
        s.initialized,
    ensures
        r matches AdapterStep::Call(AdapterCall::Read { path, request, sent }) && {
            &&& path@ == p.path@
            &&& text_opt(request.offset) == text_opt(p.offset)
            &&& request.max_chunks == p.max_chunks
            &&& request.wait_for_up_to_date <==> p.wait_for_up_to_date == Some(true)
            &&& request.timeout matches Some(t) && t.total() == (match p.timeout_ms {
                Some(n) => n,
                None => s.timeout_ms,
            }) * 1_000_000
            &&& request.live == LiveMode::Sse <==> (p.live matches Some(LiveValue::Text(t)) && t@
                == "sse"@)
            &&& request.live == LiveMode::LongPoll <==> (p.live matches Some(LiveValue::Text(t)) && t@
                == "long-poll"@)
            &&& request.live == LiveMode::Auto <==> p.live == Some(LiveValue::Flag(true))
            &&& request.cursor is None && request.if_none_match is None
        },
{
    reveal_strlit("sse");
    reveal_strlit("long-poll");
    assert("sse"@.len() == 3 && "long-poll"@.len() == 9);
}

/// Commands about a stream as a whole go to that stream, with the headers that are given and no
/// parameters; a close takes its last data along.
pub proof fn law_other_commands_reach_their_stream(
    s: AdapterState,
    path: String,
    headers: Option<Vec<(String, String)>>,
    data: Option<String>,
    content_type: Option<String>,
    now_millis: int,
    head: AdapterStep,
    delete: AdapterStep,
    connect: AdapterStep,
    close: AdapterStep,
)
    requires
        s.initialized,
        is_step(s, Command::Head { path, headers }, now_millis, head),
        is_step(s, Command::Delete { path, headers }, now_millis, delete),
        is_step(s, Command::Connect { path, headers }, now_millis, connect),
        is_step(s, Command::Close { path, data, content_type }, now_millis, close),
    ensures
        ({
            let given = match headers {
                Some(h) => fields(h@),
                None => Seq::empty(),
            };
            &&& head matches AdapterStep::Call(AdapterCall::Head { path: to, request }) && to@ == path@
                && fields(request.options.headers@) == given && request.options.query@.len() == 0
            &&& delete matches AdapterStep::Call(AdapterCall::Delete { path: to, request }) && to@
                == path@ && fields(request.options.headers@) == given && request.options.query@.len()
                == 0
            &&& connect matches AdapterStep::Call(AdapterCall::Connect { path: to, request }) && to@
                == path@ && fields(request.options.headers@) == given && request.options.query@.len()
                == 0
            &&& close matches AdapterStep::Call(AdapterCall::Close { path: to, request }) && to@ == path@
                && request.producer is None && match (data, request.body) {
                (Some(d), Some(b)) => b@ == encode_utf8(d@),
                (None, None) => true,
                _ => false,
            } && (content_type matches Some(t) ==> text_opt(request.content_type) == Some(t@)) && (
            content_type is None ==> text_opt(request.content_type) == s.type_of(path@))
        }),
{
}

/// Commands of a producer go to their stream with their data as it is; a producer without a name,
/// or with an epoch below zero, is not made.
pub proof fn law_producer_commands_reach_their_stream(
    s: AdapterState,
    p: ProducerParams,
    data: String,
    now_millis: int,
    r: AdapterStep,
)
    requires
        s.initialized,
        is_step(s, Command::IdempotentAppend { producer: p, data }, now_millis, r),
    ensures
        r matches AdapterStep::Call(AdapterCall::ProducerAppend { path, producer, data: body }) ==> path@
            == p.path@ && body@ == encode_utf8(data@),
        trim_spec(p.producer_id@).len() > 0 && (p.epoch matches Some(n) ==> n >= 0) ==> r is Call,
        r is Done ==> (r matches AdapterStep::Done(AdapterOutput::Error(e)) && e@.error_code
            == ErrorCode::InvalidArgument),
{
}

/// The result of a command says what the reply says: where the stream ends or the reader is, whether
/// the stream is closed, and, of a failure, what went wrong and where.
pub proof fn law_results_say_what_the_reply_says(
    path: Seq<char>,
    created: Result<CreateStreamResponse, Error>,
    met: Result<HeadResponse, Error>,
    connected: Result<ConnectResponse, Error>,
    appended: Result<AppendResponse, Error>,
    closed: Result<CloseStreamResponse, Error>,
    deleted: Result<DeleteResponse, Error>,
    headers: crate::client::adapter::Fields,
    params: crate::client::adapter::Fields,
    command: Seq<char>,
)
    ensures
        match created {
            Ok(v) => create_report(path, created) matches Ok(r) && r.result_type == "create"@
                && r.status == Some(v.status) && r.offset == text_opt(v.next_offset)
                && r.stream_closed == Some(v.stream_closed),
            Err(e) => create_report(path, created) matches Err(r) && r == error_report(
                "create"@,
                Some(path),
                e,
            ),
        },
        match met {
            Ok(v) => head_report(path, met) matches Ok(r) && r.result_type == "head"@ && r.status
                == Some(v.status) && r.offset == text_opt(v.offset) && r.stream_closed == Some(
                v.stream_closed,
            ) && r.content_type == text_opt(v.content_type),
            Err(e) => head_report(path, met) matches Err(r) && r == error_report("head"@, Some(path), e),
        },
        match connected {
            Ok(v) => connect_report(path, connected) matches Ok(r) && r.result_type == "connect"@
                && r.status == Some(v.status) && r.offset == text_opt(v.offset) && r.stream_closed
                == Some(v.stream_closed),
            Err(e) => connect_report(path, connected) matches Err(r) && r == error_report(
                "connect"@,
                Some(path),
                e,
            ),
        },
        match appended {
            Ok(v) => append_report(path, headers, params, appended) matches Ok(r) && r.result_type
                == "append"@ && r.status == Some(200u16) && r.offset == text_opt(v.next_offset)
                && r.stream_closed == Some(v.stream_closed) && (headers.len() > 0 ==> r.headers_sent
                == Some(headers)) && (params.len() > 0 ==> r.params_sent == Some(params)),
            Err(e) => append_report(path, headers, params, appended) matches Err(r) && r
                == error_report("append"@, Some(path), e),
        },
        match closed {
            Ok(v) => close_report(command, path, closed) matches Ok(r) && r.result_type == command
                && r.final_offset == Some(v.final_offset@) && r.stream_closed == Some(v.stream_closed),
            Err(e) => close_report(command, path, closed) matches Err(r) && r == error_report(
                command,
                Some(path),
                e,
            ),
        },
        deleted is Ok ==> (delete_report(path, deleted) matches Ok(r) && r.result_type == "delete"@),
        deleted matches Err(e) ==> delete_report(path, deleted) == Err::<
            crate::client::adapter::SuccessReport,
            crate::client::reports::ErrorReport,
        >(error_report("delete"@, Some(path), e)),
        appended is Ok ==> (producer_report(command, path, appended) matches Ok(r) && r.result_type
            == command),
        appended matches Err(e) ==> producer_report(command, path, appended) == Err::<
            crate::client::adapter::SuccessReport,
            crate::client::reports::ErrorReport,
        >(error_report(command, Some(path), e)),
{
}

/// The result of a read says what was read: every chunk as text with the place behind it, in order,
/// where the reader is, and whether it has caught up or the stream is closed.
pub proof fn law_read_results_hold_every_chunk(
    path: Seq<char>,
    live: LiveMode,
    offset: Option<Seq<char>>,
    headers: crate::client::adapter::Fields,
    params: crate::client::adapter::Fields,
    reply: Result<ReadResponse, Error>,
)
    ensures
        match reply {
            Ok(v) => read_outcome(path, live, offset, headers, params, reply) matches Ok(r) && {
                &&& r.offset == Some(v.next_offset@)
                &&& r.up_to_date == Some(v.up_to_date)
                &&& r.stream_closed == Some(v.stream_closed)
                &&& r.status == Some(v.status)
                &&& r.chunks matches Some(c) && c.len() == v.chunks@.len() && forall|i: int|
                    0 <= i < c.len() ==> (#[trigger] c[i]).0 == lossy_text(v.chunks@[i].data@) && c[i].1
                        == Some(v.chunks@[i].next_offset@)
            },
            Err(e) => read_outcome(path, live, offset, headers, params, reply) matches Err(r) && r
                == read_report(path, live, offset, e),
        },
{
}

} // verus!
