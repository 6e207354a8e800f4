//! What is recorded of requests: the stream, the operation and how it ended.

use vstd::prelude::*;
use crate::middleware::telemetry::{
    Severity, is_parameter, last_parameter, live_mode_of, operation, pair_value, problem_message,
    resource_id, segments, severity_of,
};
use crate::protocol::problem::TelemetryView;
use crate::text::{
    after_spec, before_spec, lemma_find_at, lemma_one_piece, lemma_split_then, split_spec,
};

verus! {

proof fn lemma_segments(base: Seq<char>, last: Seq<char>)
    requires
        last.len() > 0,
        !last.contains('/'),
    ensures
        segments(base + seq!['/'] + last) == segments(base).push(last),
{
    lemma_split_then(base, last, '/');
    lemma_one_piece(last, '/');
    let p = split_spec(base, '/');
    let all = split_spec(base + seq!['/'] + last, '/');
    assert(all =~= p.push(last));
    assert(all.drop_last() =~= p);
}

/// What is recorded as the stream of a request is what stands in the path where the route has its
/// parameter.
pub proof fn law_stream_of_a_request_is_recorded(base: Seq<char>, parameter: Seq<char>, name: Seq<char>)
    requires
        is_parameter(parameter),
        !parameter.contains('/'),
        name.len() > 0,
        !name.contains('/'),
    ensures
        resource_id(base + seq!['/'] + parameter, base + seq!['/'] + name) == Some(name),
{
    lemma_segments(base, parameter);
    lemma_segments(base, name);
    let r = segments(base + seq!['/'] + parameter);
    assert(r.last() == parameter);
    let s = segments(base + seq!['/'] + name);
    assert(s[s.len() - 1] == name);
}

/// A route without a parameter has no stream, whatever the path.
pub proof fn law_other_routes_have_no_stream(route: Seq<char>, path: Seq<char>)
    requires
        forall|i: int| 0 <= i < segments(route).len() ==> !is_parameter(#[trigger] segments(route)[i]),
    ensures
        resource_id(route, path) is None,
        route != "/healthz"@ && route != "/readyz"@ ==> forall|method: Seq<char>, live: Option<Seq<char>>|
            #[trigger] operation(method, Some(route), live) == "request"@,
{
    lemma_no_parameter(segments(route));
}

proof fn lemma_no_parameter(s: Seq<Seq<char>>)
    requires
        forall|i: int| 0 <= i < s.len() ==> !is_parameter(#[trigger] s[i]),
    ensures
        last_parameter(s) is None,
    decreases s.len(),
{
    if s.len() > 0 {
        let most = s.drop_last();
        assert forall|i: int| 0 <= i < most.len() implies !is_parameter(#[trigger] most[i]) by {
            assert(most[i] == s[i]);
        }
        assert(!is_parameter(s[s.len() - 1]));
        lemma_no_parameter(most);
    }
}

proof fn lemma_pair(pair: Seq<char>, name: Seq<char>, value: Seq<char>)
    requires
        pair == name + seq!['='] + value,
        !name.contains('='),
    ensures
        pair.contains('='),
        before_spec(pair, '=') == name,
        after_spec(pair, '=') == value,
{
    assert(pair[name.len() as int] == '=');
    assert forall|j: int| 0 <= j < name.len() implies #[trigger] pair[j] != '=' by {
        assert(pair[j] == name[j]);
        assert(name.contains(name[j]));
    }
    lemma_find_at(pair, '=', name.len() as int);
    assert(pair.take(name.len() as int) =~= name);
    assert(pair.skip(name.len() as int + 1) =~= value);
}

proof fn lemma_first_pair_wins(first: Seq<char>, more: Seq<Seq<char>>, name: Seq<char>)
    requires
        pair_value(seq![first], name) is Some,
    ensures
        pair_value(seq![first] + more, name) == pair_value(seq![first], name),
    decreases more.len(),
{
    if more.len() == 0 {
        assert(seq![first] + more =~= seq![first]);
    } else {
        lemma_first_pair_wins(first, more.drop_last(), name);
        assert((seq![first] + more).drop_last() =~= seq![first] + more.drop_last());
    }
}

/// The way of a live read is recorded from the query: the value of the first parameter of that
/// name, whatever follows it.
pub proof fn law_live_mode_is_recorded(value: Seq<char>, others: Seq<char>)
    requires
        !value.contains('&'),
    ensures
        live_mode_of(Some("live="@ + value)) == Some(value),
        live_mode_of(Some("live="@ + value + seq!['&'] + others)) == Some(value),
        live_mode_of(None) is None,
{
    reveal_strlit("live=");
    reveal_strlit("live");
    let pair = "live="@ + value;
    assert(pair =~= "live"@ + seq!['='] + value);
    assert(!"live"@.contains('='));
    lemma_pair(pair, "live"@, value);
    assert(!pair.contains('&')) by {
        if pair.contains('&') {
            let i = choose|i: int| 0 <= i < pair.len() && pair[i] == '&';
            if i >= 5 {
                assert(value.contains(value[i - 5]));
            }
        }
    }
    lemma_one_piece(pair, '&');
    assert(seq![pair].drop_last() =~= Seq::<Seq<char>>::empty());
    assert(pair_value(Seq::<Seq<char>>::empty(), "live"@) is None);
    assert(seq![pair].last() == pair);
    lemma_split_then(pair, others, '&');
    lemma_first_pair_wins(pair, split_spec(others, '&'), "live"@);
}

/// The operation on a stream is told by the method, and that of a read by the way it is live.
pub proof fn law_operations_are_told_apart(
    route: Seq<char>,
    live: Option<Seq<char>>,
    a: Seq<char>,
    b: Seq<char>,
)
    requires
        last_parameter(segments(route)) is Some,
        route != "/healthz"@ && route != "/readyz"@,
        a == "PUT"@ || a == "POST"@ || a == "GET"@ || a == "HEAD"@ || a == "DELETE"@,
        b == "PUT"@ || b == "POST"@ || b == "GET"@ || b == "HEAD"@ || b == "DELETE"@,
    ensures
        operation(a, Some(route), live) == operation(b, Some(route), live) ==> a == b,
        operation("GET"@, Some(route), live) == operation("GET"@, Some(route), None) <==> live != Some(
            "sse"@,
        ) && live != Some("long-poll"@),
        operation("GET"@, Some(route), Some("sse"@)) != operation(
            "GET"@,
            Some(route),
            Some("long-poll"@),
        ),
{
    reveal_strlit("create");
    reveal_strlit("append");
    reveal_strlit("head");
    reveal_strlit("delete");
    reveal_strlit("read");
    reveal_strlit("subscribe");
    reveal_strlit("poll");
    reveal_strlit("GET");
    reveal_strlit("PUT");
    reveal_strlit("POST");
    reveal_strlit("HEAD");
    reveal_strlit("DELETE");
    reveal_strlit("sse");
    reveal_strlit("long-poll");
    assert("create"@[0] == 'c' && "append"@[0] == 'a' && "head"@[0] == 'h' && "delete"@[0] == 'd');
    assert("read"@[0] == 'r' && "subscribe"@[0] == 's' && "poll"@[0] == 'p');
    assert("GET"@[0] == 'G' && "PUT"@[0] == 'P' && "POST"@.len() == 4 && "HEAD"@[0] == 'H' && "DELETE"@[0]
        == 'D' && "GET"@.len() == 3 && "PUT"@.len() == 3);
    assert("sse"@.len() == 3 && "long-poll"@.len() == 9);
}

/// A response is recorded as an error where the server failed, as a warning where the request was
/// wrong, and as information else.
pub proof fn law_severity_follows_the_class(status: u16)
    ensures
        severity_of(status) == Severity::Error <==> status / 100 == 5,
        severity_of(status) == Severity::Warn <==> status / 100 == 4,
{
}

/// A problem is recorded with the most that is known of it: what only the inside knows, before what
/// the client is told.
pub proof fn law_problems_are_recorded_from_the_inside(problem: TelemetryView)
    ensures
        problem.internal_detail matches Some(t) ==> problem_message(problem) == t,
        problem.internal_detail is None ==> problem_message(problem) == match problem.detail {
            Some(t) => t,
            None => problem.title,
        },
{
}

} // verus!
