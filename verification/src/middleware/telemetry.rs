//! What is recorded of requests and responses.

use vstd::prelude::*;
use crate::middleware::proxy_trust::ProxyTrustResult;
use crate::protocol::problem::{ProblemTelemetry, TelemetryView};
use crate::text::{
    after_spec, before_spec, chars_of, same, split, split_once, split_spec, str_opt, text_opt, texts,
};

verus! {

/// The segments of a path that are not empty.
pub open spec fn segments_of(pieces: Seq<Seq<char>>) -> Seq<Seq<char>>
    decreases pieces.len(),
{
    if pieces.len() == 0 {
        Seq::empty()
    } else if pieces.last().len() == 0 {
        segments_of(pieces.drop_last())
    } else {
        segments_of(pieces.drop_last()).push(pieces.last())
    }
}

/// The segments of a path that are not empty.
pub open spec fn segments(path: Seq<char>) -> Seq<Seq<char>> {
    segments_of(split_spec(path, '/'))
}

fn read_segments(path: &str) -> (r: Vec<String>)
    ensures
        texts(r@) == segments(path@),
{
    let pieces = split(path, '/');
    let mut list: Vec<String> = Vec::new();
    let mut i: usize = 0;
    let ghost all = texts(pieces@);
    assert(all.take(0) =~= Seq::<Seq<char>>::empty());
    assert(texts(list@) =~= segments_of(all.take(0)));
    while i < pieces.len()
        invariant
            i <= pieces@.len(),
            all == texts(pieces@),
            texts(list@) == segments_of(all.take(i as int)),
        decreases pieces.len() - i,
    {
        let ghost before = list@;
        assert(all.take(i + 1).drop_last() =~= all.take(i as int));
        assert(all.take(i + 1).last() == pieces@[i as int]@);
        if chars_of(pieces[i].as_str()).len() > 0 {
            list.push(pieces[i].clone());
            assert(texts(list@) =~= texts(before).push(pieces@[i as int]@));
        }
        i += 1;
    }
    assert(all.take(all.len() as int) =~= all);
    list
}

/// Whether a segment of a route is a parameter, such as `{name}`.
pub open spec fn is_parameter(segment: Seq<char>) -> bool {
    segment.len() > 2 && segment[0] == '{' && segment.last() == '}'
}

fn is_route_param_segment(segment: &str) -> (r: bool)
    ensures
        r == is_parameter(segment@),
{
    let v = chars_of(segment);
    let n: usize = v.len();
    n > 2 && v[0] == '{' && v[n - 1] == '}'
}

/// The position of the last parameter among the segments of a route.
pub open spec fn last_parameter(segments: Seq<Seq<char>>) -> Option<int>
    decreases segments.len(),
{
    if segments.len() == 0 {
        None
    } else if is_parameter(segments.last()) {
        Some(segments.len() - 1)
    } else {
        last_parameter(segments.drop_last())
    }
}

fn find_last_parameter(list: &Vec<String>) -> (r: Option<usize>)
    ensures
        match r {
            Some(i) => last_parameter(texts(list@)) == Some(i as int) && i < list@.len(),
            None => last_parameter(texts(list@)) is None,
        },
{
    let mut n: usize = list.len();
    let ghost all = texts(list@);
    assert(all.take(all.len() as int) =~= all);
    while n > 0
        invariant
            n <= list@.len(),
            all == texts(list@),
            last_parameter(all) == last_parameter(all.take(n as int)),
        decreases n,
    {
        assert(all.take(n as int).drop_last() =~= all.take(n - 1));
        assert(all.take(n as int).last() == list@[n - 1]@);
        n = n - 1;
        if is_route_param_segment(list[n].as_str()) {
            return Some(n);
        }
    }
    None
}

fn has_resource_segment(route: &str) -> (r: bool)
    ensures
        r == (last_parameter(segments(route@)) is Some),
{
    find_last_parameter(&read_segments(route)).is_some()
}

/// The identifier in a path: what stands where the last parameter of the route does.
pub open spec fn resource_id(route: Seq<char>, path: Seq<char>) -> Option<Seq<char>> {
    match last_parameter(segments(route)) {
        Some(i) => if i < segments(path).len() {
            Some(segments(path)[i])
        } else {
            None
        },
        None => None,
    }
}

/// The identifier in a path: what stands where the last parameter of the route does.
pub fn resource_id_from_path(route: &str, path: &str) -> (r: Option<String>)
    ensures
        text_opt(r) == resource_id(route@, path@),
{
    let route_segments = read_segments(route);
    match find_last_parameter(&route_segments) {
        None => None,
        Some(i) => {
            let list = read_segments(path);
            assert(texts(list@).len() == list@.len());
            if i < list.len() {
                assert(texts(list@)[i as int] == list@[i as int]@);
                Some(list[i].clone())
            } else {
                None
            }
        },
    }
}

/// The value that pairs of a query give to a name: the first one, and an empty one where a pair
/// has no equals sign.
pub open spec fn pair_value(pairs: Seq<Seq<char>>, name: Seq<char>) -> Option<Seq<char>>
    decreases pairs.len(),
{
    if pairs.len() == 0 {
        None
    } else {
        let earlier = pair_value(pairs.drop_last(), name);
        let pair = pairs.last();
        if earlier is Some {
            earlier
        } else if pair.contains('=') && before_spec(pair, '=') == name {
            Some(after_spec(pair, '='))
        } else if !pair.contains('=') && pair == name {
            Some(Seq::empty())
        } else {
            None
        }
    }
}

/// The value of a query parameter.
pub fn query_param(query: &str, name: &str) -> (r: Option<String>)
    ensures
        text_opt(r) == pair_value(split_spec(query@, '&'), name@),
{
    let pairs = split(query, '&');
    let mut found: Option<String> = None;
    let mut i: usize = 0;
    let ghost all = texts(pairs@);
    assert(all.take(0) =~= Seq::<Seq<char>>::empty());
    while i < pairs.len()
        invariant
            i <= pairs@.len(),
            all == texts(pairs@),
            text_opt(found) == pair_value(all.take(i as int), name@),
        decreases pairs.len() - i,
    {
        assert(all.take(i + 1).drop_last() =~= all.take(i as int));
        assert(all.take(i + 1).last() == pairs@[i as int]@);
        if found.is_none() {
            match split_once(pairs[i].as_str(), '=') {
                Some((key, value)) => {
                    if same(key.as_str(), name) {
                        found = Some(value);
                    }
                },
                None => {
                    if same(pairs[i].as_str(), name) {
                        let empty = String::new();
                        assert(empty@ =~= Seq::<char>::empty());
                        found = Some(empty);
                    }
                },
            }
        }
        i += 1;
    }
    assert(all.take(all.len() as int) =~= all);
    found
}

/// The operation that a request asks for.
pub open spec fn operation(method: Seq<char>, route: Option<Seq<char>>, live: Option<Seq<char>>) -> Seq<
    char,
> {
    if route == Some("/healthz"@) {
        "health"@
    } else if route == Some("/readyz"@) {
        "readiness"@
    } else if route is None || last_parameter(segments(route->0)) is None {
        "request"@
    } else if method == "PUT"@ {
        "create"@
    } else if method == "POST"@ {
        "append"@
    } else if method == "HEAD"@ {
        "head"@
    } else if method == "DELETE"@ {
        "delete"@
    } else if method == "GET"@ {
        if live == Some("sse"@) {
            "subscribe"@
        } else if live == Some("long-poll"@) {
            "poll"@
        } else {
            "read"@
        }
    } else {
        "request"@
    }
}

fn is_text(s: Option<&str>, t: &str) -> (r: bool)
    ensures
        r == (str_opt(s) == Some(t@)),
{
    match s {
        Some(x) => same(x, t),
        None => false,
    }
}

/// Names the operation that a request asks for.
pub fn operation_name(method: &str, route: Option<&str>, live_mode: Option<&str>) -> (r: &'static str)
    ensures
        r@ == operation(method@, str_opt(route), str_opt(live_mode)),
{
    if is_text(route, "/healthz") {
        return "health";
    }
    if is_text(route, "/readyz") {
        return "readiness";
    }
    let has_resource = match route {
        Some(route) => has_resource_segment(route),
        None => false,
    };
    if !has_resource {
        return "request";
    }
    if same(method, "PUT") {
        "create"
    } else if same(method, "POST") {
        "append"
    } else if same(method, "HEAD") {
        "head"
    } else if same(method, "DELETE") {
        "delete"
    } else if same(method, "GET") {
        if is_text(live_mode, "sse") {
            "subscribe"
        } else if is_text(live_mode, "long-poll") {
            "poll"
        } else {
            "read"
        }
    } else {
        "request"
    }
}

/// What is recorded of a request.
#[derive(Debug)]
pub struct RequestContext {
    pub operation: &'static str,
    pub live_mode: Option<String>,
    pub stream_id: Option<String>,
    pub server_address: Option<String>,
    pub client_address: Option<String>,
}

/// The live mode that a query asks for.
pub open spec fn live_mode_of(query: Option<Seq<char>>) -> Option<Seq<char>> {
    match query {
        Some(q) => pair_value(split_spec(q, '&'), "live"@),
        None => None,
    }
}

/// Puts together what is recorded of a request. The route is the pattern that matched, and the
/// origin is what proxy trust has settled.
pub fn request_context(
    method: &str,
    path: &str,
    query: Option<&str>,
    route: Option<&str>,
    origin: Option<&ProxyTrustResult>,
) -> (r: RequestContext)
    ensures
        text_opt(r.live_mode) == live_mode_of(str_opt(query)),
        r.operation@ == operation(method@, str_opt(route), live_mode_of(str_opt(query))),
        text_opt(r.stream_id) == match str_opt(route) {
            Some(p) => resource_id(p, path@),
            None => None,
        },
        text_opt(r.server_address) == match origin {
            Some(o) => text_opt(o.authority),
            None => None,
        },
        text_opt(r.client_address) == match origin {
            Some(o) => text_opt(o.client_address),
            None => None,
        },
{
    let live_mode = match query {
        Some(q) => query_param(q, "live"),
        None => None,
    };
    let stream_id = match route {
        Some(p) => resource_id_from_path(p, path),
        None => None,
    };
    let (server_address, client_address) = match origin {
        Some(o) => (o.authority.clone(), o.client_address.clone()),
        None => (None, None),
    };
    let operation = match &live_mode {
        Some(live) => operation_name(method, route, Some(live.as_str())),
        None => operation_name(method, route, None),
    };
    RequestContext { operation, live_mode, stream_id, server_address, client_address }
}

/// How much attention a response deserves.
#[derive(Debug, Clone, Copy, PartialEq, Eq, Structural)]
pub enum Severity {
    Info,
    Warn,
    Error,
}

/// What is recorded of a response.
#[derive(Debug)]
pub struct ResponseEvent {
    pub severity: Severity,
    pub message: &'static str,
    pub error_type: Option<String>,
    pub error_message: Option<String>,
}

/// How much attention a status deserves: an error of the server most of all.
pub open spec fn severity_of(status: u16) -> Severity {
    if 500 <= status < 600 {
        Severity::Error
    } else if 400 <= status < 500 {
        Severity::Warn
    } else {
        Severity::Info
    }
}

/// What a problem is described by: the internal detail where there is one, else the detail, else
/// the title.
pub open spec fn problem_message(problem: TelemetryView) -> Seq<char> {
    match (problem.internal_detail, problem.detail) {
        (Some(t), _) => t,
        (None, Some(t)) => t,
        (None, None) => problem.title,
    }
}

/// Puts together what is recorded of a response with this status, and of the problem that it
/// reports if it does.
pub fn response_event(status: u16, problem: Option<&ProblemTelemetry>) -> (r: ResponseEvent)
    ensures
        r.severity == severity_of(status),
        r.message@ == match r.severity {
            Severity::Error => "request failed"@,
            Severity::Warn => "request completed with client error"@,
            Severity::Info => "request completed"@,
        },
        text_opt(r.error_type) == match problem {
            Some(p) => Some(p@.problem_type),
            None => match r.severity {
                Severity::Error => Some("server_error"@),
                Severity::Warn => Some("client_error"@),
                Severity::Info => None,
            },
        },
        text_opt(r.error_message) == match problem {
            Some(p) => Some(problem_message(p@)),
            None => if r.severity == Severity::Error {
                Some("request failed"@)
            } else {
                None
            },
        },
{
    let severity = if 500 <= status && status < 600 {
        Severity::Error
    } else if 400 <= status && status < 500 {
        Severity::Warn
    } else {
        Severity::Info
    };
    let message: &'static str = match severity {
        Severity::Error => "request failed",
        Severity::Warn => "request completed with client error",
        Severity::Info => "request completed",
    };
    let (error_type, error_message) = match problem {
        Some(p) => {
            let text = match (&p.internal_detail, &p.detail) {
                (Some(t), _) => t.clone(),
                (None, Some(t)) => t.clone(),
                (None, None) => p.title.clone(),
            };
            (Some(p.problem_type.clone()), Some(text))
        },
        None => match severity {
            Severity::Error => (
                Some("server_error".to_owned()),
                Some("request failed".to_owned()),
            ),
            Severity::Warn => (Some("client_error".to_owned()), None),
            Severity::Info => (None, None),
        },
    };
    ResponseEvent { severity, message, error_type, error_message }
}

} // verus!
