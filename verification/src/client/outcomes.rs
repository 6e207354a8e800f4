//! What a caller is told of failures, what dynamic values come to, and how lines of JSON are read.

use vstd::prelude::*;
use vstd::utf8::encode_utf8;
use crate::client::dynamic::{DynamicView, after_value, next_value, with_missing};
use crate::client::error::{Error, ErrorCode, ErrorKind};
use crate::client::exchange::is_received;
use crate::client::ingest::{
    JsonInput, JsonInputFormat, is_blank_input, is_input, json_lines, line_values, text_lines,
    without_return,
};
use crate::client::model::LiveMode;
use crate::client::refusals::law_client_learns_why_its_append_was_refused;
use crate::client::reports::{
    ValidateTarget, error_report, http_code, local_code, read_report, target_rejection,
};
use crate::client::requests::is_reply_error;
use crate::decimal::{decimal, signed_decimal};
use crate::fields::{field_of, fields};
use crate::handlers::post::{Fields, append_problem};
use crate::json::{document_text, json_document};
use crate::protocol::error::Error as ServerError;
use crate::protocol::problem::{WireProblem, is_wire};
use crate::protocol::producer::ProducerHeaders;
use crate::text::{
    join_spec, lemma_join_then, lemma_one_piece, lemma_split_then, occurs, occurs_at, split_spec, texts,
    trim_spec,
};

verus! {

/// A report of a failure names the path that it is about, keeps the message, and has the status of
/// the response where there was one.
pub proof fn law_reports_name_the_path(command: Seq<char>, path: Seq<char>, error: Error)
    ensures
        ({
            let r = error_report(command, Some(path), error);
            let said = match error {
                Error::Http(h) => h.message@,
                _ => error.text(),
            };
            &&& r.command_type == command
            &&& occurs(r.message, path)
            &&& said.is_prefix_of(r.message)
            &&& occurs(said, path) ==> r.message == said
            &&& r.status == match error {
                Error::Http(h) => Some(h.status),
                _ => None,
            }
            &&& error_report(command, None, error).message == said
        }),
{
    let said = match error {
        Error::Http(h) => h.message@,
        _ => error.text(),
    };
    let r = error_report(command, Some(path), error);
    if !occurs(said, path) {
        let n = said.len() as int + " ["@.len() as int;
        let m = said + " ["@ + path + "]"@;
        assert(m.subrange(n, n + path.len()) =~= path);
        assert(occurs_at(m, path, n));
        assert(m.take(said.len() as int) =~= said);
        assert(r.message == m);
    }
    assert(said.is_prefix_of(r.message)) by {
        assert(r.message.take(said.len() as int) =~= said);
    }
}

/// What the server refuses an append for is what the report says: a closed stream, or numbers out
/// of order.
pub proof fn law_refused_appends_are_reported(
    error: ServerError,
    sender: ProducerHeaders,
    tail: Option<Seq<char>>,
    wire: WireProblem,
    all: Fields,
    body: Seq<char>,
    told: Error,
    path: Seq<char>,
)
    requires
        error is StreamClosed || error is SequenceGap,
        error matches ServerError::SequenceGap { expected, actual } ==> expected <= i64::MAX && actual
            <= i64::MAX,
        is_wire(wire, append_problem(error, Some(sender), tail)),
        is_received(all, fields(wire.headers@)),
        is_reply_error(told, wire.status, all, body),
    ensures
        error_report("append"@, Some(path), told).error_code == if error is StreamClosed {
            ErrorCode::StreamClosed
        } else {
            ErrorCode::SequenceConflict
        },
{
    law_client_learns_why_its_append_was_refused(error, Some(sender), tail, wire, all, body, told);
}

/// A stream that is not there is reported as such, and a place that is none likewise; a conflict of
/// numbers is told apart from others, and what else the server says is an unexpected status.
pub proof fn law_codes_tell_what_the_server_said(kind: ErrorKind, numbers: bool, message: Seq<char>)
    ensures
        http_code(kind, numbers, message) == ErrorCode::NotFound <==> kind == ErrorKind::NotFound,
        http_code(kind, numbers, message) == ErrorCode::InvalidOffset <==> kind
            == ErrorKind::InvalidOffset,
        kind == ErrorKind::StreamClosed ==> http_code(kind, numbers, message)
            == ErrorCode::StreamClosed,
        kind == ErrorKind::Conflict && numbers ==> http_code(kind, numbers, message)
            == ErrorCode::SequenceConflict,
        http_code(kind, numbers, message) == ErrorCode::SequenceConflict ==> kind
            == ErrorKind::Conflict,
        http_code(kind, numbers, message) == ErrorCode::UnexpectedStatus <==> kind
            != ErrorKind::NotFound && kind != ErrorKind::InvalidOffset && kind
            != ErrorKind::StreamClosed && kind != ErrorKind::Conflict,
{
}

/// What goes wrong without a response is told apart by where: in what was asked, on the way, in time
/// or in what was read.
pub proof fn law_local_codes_are_told_apart(kind: ErrorKind)
    ensures
        local_code(kind) == ErrorCode::InvalidArgument <==> kind == ErrorKind::InvalidArgument,
        local_code(kind) == ErrorCode::ParseError <==> kind == ErrorKind::Parse,
        local_code(kind) == ErrorCode::NetworkError <==> kind == ErrorKind::Network,
        local_code(kind) == ErrorCode::Timeout <==> kind == ErrorKind::Timeout,
{
}

/// A failed read is reported like any other failure, but for a server that refuses to stream events
/// from the tail.
pub proof fn law_reads_are_reported_like_others(
    path: Seq<char>,
    live: LiveMode,
    offset: Option<Seq<char>>,
    error: Error,
)
    ensures
        ({
            let r = read_report(path, live, offset, error);
            let refuses_tail = live == LiveMode::Sse && (offset is None || offset == Some("now"@)) && (
            error matches Error::Http(h) && h.kind == ErrorKind::InvalidOffset);
            &&& r.command_type == "read"@
            &&& !refuses_tail ==> r == error_report("read"@, Some(path), error)
            &&& refuses_tail ==> r.error_code == ErrorCode::ParseError && r.status == Some(
                error->Http_0.status,
            )
        }),
{
}

/// Options are accepted exactly where each that is given can be used.
pub proof fn law_usable_options_are_accepted(target: ValidateTarget)
    ensures
        target_rejection(target) is None <==> match target {
            ValidateTarget::RetryOptions { max_retries, initial_delay_ms, max_delay_ms, multiplier } => {
                &&& max_retries matches Some(n) ==> n >= 0
                &&& initial_delay_ms matches Some(n) ==> n > 0 && (max_delay_ms matches Some(m) ==> n <= m)
                &&& multiplier matches Some(m) ==> !m.below_one
            },
            ValidateTarget::IdempotentProducer { producer_id, epoch, max_batch_bytes, max_batch_items } => {
                &&& producer_id matches Some(id) ==> trim_spec(id@).len() > 0
                &&& epoch matches Some(n) ==> n >= 0
                &&& max_batch_bytes matches Some(n) ==> n > 0
                &&& max_batch_items matches Some(n) ==> n > 0
            },
        },
{
}

/// The values of a counter are the numbers after its count, one after another; those of a clock are
/// the time; and a token stays as it is.
pub proof fn law_dynamic_values_go_on(d: DynamicView, now: int, later: int)
    requires
        d.counter < u64::MAX,
    ensures
        d.kind == "counter"@ ==> next_value(d, now) == decimal((d.counter + 1) as nat) && after_value(
            d,
        ).counter == d.counter + 1,
        d.kind == "timestamp"@ ==> next_value(d, now) == signed_decimal(now) && next_value(
            after_value(d),
            later,
        ) == signed_decimal(later),
        d.kind == "token"@ ==> next_value(after_value(d), later) == next_value(d, now),
        d.kind == "token"@ ==> (d.token matches Some(t) ==> next_value(d, now) == t),
        after_value(d).kind == d.kind && after_value(d).token == d.token,
{
    reveal_strlit("counter");
    reveal_strlit("timestamp");
    reveal_strlit("token");
    assert("counter"@.len() == 7 && "timestamp"@.len() == 9 && "token"@.len() == 5);
}

/// Fields that are added where they are missing change none that is there.
pub proof fn law_missing_fields_are_added(
    f: Seq<(Seq<char>, Seq<char>)>,
    more: Seq<(Seq<char>, Seq<char>)>,
    name: Seq<char>,
)
    ensures
        field_of(with_missing(f, more), name) == match field_of(f, name) {
            Some(v) => Some(v),
            None => field_of(more, name),
        },
    decreases more.len(),
{
    if more.len() == 0 {
        assert(field_of(more, name) is None);
    } else {
        let most = more.drop_last();
        law_missing_fields_are_added(f, most, name);
        law_missing_fields_are_added(f, most, more.last().0);
        let rest = with_missing(f, most);
        lemma_field_last(rest, more.last(), name);
        lemma_field_last(most, more.last(), name);
        assert(most.push(more.last()) =~= more);
    }
}

proof fn lemma_field_last(f: Seq<(Seq<char>, Seq<char>)>, last: (Seq<char>, Seq<char>), name: Seq<char>)
    ensures
        field_of(f.push(last), name) == match field_of(f, name) {
            Some(v) => Some(v),
            None => if last.0 == name {
                Some(last.1)
            } else {
                None
            },
        },
    decreases f.len(),
{
    let g = f.push(last);
    if f.len() == 0 {
        assert(g.skip(1) =~= f);
    } else {
        lemma_field_last(f.skip(1), last, name);
        assert(g.skip(1) =~= f.skip(1).push(last));
        assert(g[0] == f[0]);
    }
}

proof fn lemma_split_of_join(parts: Seq<Seq<char>>, sep: char)
    requires
        parts.len() > 0,
        forall|i: int| 0 <= i < parts.len() ==> !(#[trigger] parts[i]).contains(sep),
    ensures
        split_spec(join_spec(parts, seq![sep]), sep) == parts,
    decreases parts.len(),
{
    let last = parts.last();
    assert(!parts[parts.len() - 1].contains(sep));
    lemma_one_piece(last, sep);
    let most = parts.drop_last();
    if most.len() == 0 {
        assert(parts =~= seq![last]);
        assert(join_spec(parts, seq![sep]) =~= last);
    } else {
        assert forall|i: int| 0 <= i < most.len() implies !(#[trigger] most[i]).contains(sep) by {
            assert(most[i] == parts[i]);
        }
        lemma_split_of_join(most, sep);
        lemma_join_then(most, seq![last], seq![sep]);
        assert(most + seq![last] =~= parts);
        assert(join_spec(seq![last], seq![sep]) =~= last);
        lemma_split_then(join_spec(most, seq![sep]), last, sep);
    }
}

/// Whether texts can stand as lines.
pub open spec fn are_lines(lines: Seq<Seq<char>>) -> bool {
    forall|i: int|
        0 <= i < lines.len() ==> !(#[trigger] lines[i]).contains('\n') && (lines[i].len() > 0
            ==> lines[i].last() != '\r')
}

/// Lines that end with line feeds are read back one for one.
pub proof fn law_lines_are_read_one_for_one(lines: Seq<Seq<char>>)
    requires
        lines.len() > 0,
        are_lines(lines),
    ensures
        text_lines(join_spec(lines, seq!['\n']) + seq!['\n']) == lines,
{
    let none = Seq::<char>::empty();
    let all = lines.push(none);
    assert forall|i: int| 0 <= i < all.len() implies !(#[trigger] all[i]).contains('\n') by {
        if i < lines.len() {
            assert(all[i] == lines[i]);
        }
    }
    lemma_split_of_join(all, '\n');
    lemma_join_then(lines, seq![none], seq!['\n']);
    assert(lines + seq![none] =~= all);
    assert(join_spec(seq![none], seq!['\n']) =~= none);
    let text = join_spec(lines, seq!['\n']) + seq!['\n'];
    assert(join_spec(all, seq!['\n']) =~= text);
    let ended = all.drop_last().map_values(|p: Seq<char>| without_return(p));
    assert(all.last() == none);
    assert forall|i: int| 0 <= i < lines.len() implies #[trigger] ended[i] == lines[i] by {
        assert(all.drop_last()[i] == lines[i]);
    }
    assert(ended =~= lines);
}

/// A carriage return in front of a line feed belongs to the end of the line.
pub proof fn law_carriage_returns_end_lines_too(line: Seq<char>)
    ensures
        without_return(line.push('\r')) == line,
        line.len() > 0 && line.last() != '\r' ==> without_return(line) == line,
{
    assert(line.push('\r').drop_last() =~= line);
}

/// Each line that is not blank is one value, in order; where one is no JSON, the error names its
/// line, and the lines before it do not matter.
pub proof fn law_each_line_is_one_value(lines: Seq<Seq<char>>, n: int)
    requires
        0 <= n < lines.len(),
    ensures
        ({
            let before = line_values(lines, n);
            let after = line_values(lines, n + 1);
            let blank = trim_spec(lines[n]).len() == 0;
            &&& before is Err ==> after == before
            &&& before is Ok && blank ==> after == before
            &&& before is Ok && !blank ==> match json_document(encode_utf8(lines[n])) {
                Ok(d) => after matches Ok(values) && values.len() == before->Ok_0.len() + 1
                    && values.drop_last() == before->Ok_0 && values.last() == document_text(d.0, d.1),
                Err(m) => after matches Err(e) && e == "invalid JSON on line "@ + decimal(
                    (n + 1) as nat,
                ) + ": "@ + m,
            }
            &&& line_values(lines, 0) == Ok::<Seq<Seq<char>>, Seq<char>>(Seq::empty())
        }),
{
    if let Ok(done) = line_values(lines, n) {
        if let Ok(d) = json_document(encode_utf8(lines[n])) {
            assert(done.push(document_text(d.0, d.1)).drop_last() =~= done);
        }
    }
}

/// A buffer that is one JSON document is that value, or the elements of that array; else it is read
/// line by line, and it is refused exactly where it is neither. Blank input holds nothing.
pub proof fn law_input_is_a_document_or_lines(r: Result<JsonInput, Error>, bytes: Seq<u8>)
    requires
        is_input(r, bytes),
    ensures
        bytes.len() == 0 ==> (r matches Ok(input) && input.values@.len() == 0),
        r is Err <==> !is_blank_input(bytes) && json_document(bytes) is Err && json_lines(bytes) is Err,
        !is_blank_input(bytes) ==> (json_document(bytes) matches Ok(d) ==> (r matches Ok(input) && texts(
            input.values@,
        ) == d.1 && (input.format == JsonInputFormat::JsonArray <==> d.0))),
        r matches Ok(input) ==> (input.format == JsonInputFormat::JsonLines && !is_blank_input(bytes)
            ==> json_lines(bytes) == Ok::<Seq<Seq<char>>, Seq<char>>(texts(input.values@))),
{
}

} // verus!
