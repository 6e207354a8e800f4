//! Live reads from end to end: what a server sends as events and what a client collects of it.

use vstd::prelude::*;
use vstd::utf8::{decode_utf8, encode_utf8, encode_utf8_decode_utf8};
use crate::client::collect::{
    CollectFailure, CollectRules, Collected, ControlView, SseCollector, Step, collect_all,
    collect_step, complete, is_finished, limit_reached, nothing_collected, rules_for, without_line_ends,
};
use crate::client::error::Error;
use crate::client::exchange::is_received;
use crate::client::model::{ReadResponse, chunk_views};
use crate::client::sse::{
    EventView, SseRun, after_text_line, idle, json_batch_text, law_batch_reads_back,
    law_control_frame_reads_back, law_json_batch_reads_back, lemma_run_events, lemma_run_of_prefix,
    line_content, message_events, no_leading_space, sse_run, with_bytes,
};
use crate::encoding::{
    base64_bytes, base64_text, is_base64, is_base64_char, lemma_encode_concat, lossy_text,
};
use crate::fields::header_of;
use crate::handlers::answers::{law_event_stream_says_its_encoding, lemma_header_names};
use crate::handlers::common::ReadResult;
use crate::handlers::get::{control_of, cursor_text, frames_of, sse_reply};
use crate::http::field_text;
use crate::json::{is_one_line, json_string};
use crate::protocol::json_mode::contents;
use crate::protocol::sse::{
    after_line_end, control_frame, data_frames, is_clean_line, is_line_end, lemma_line_len,
    lemma_lines_clean, lemma_one_line, line_len, lines_spec, lossy_texts, message_text,
};
use crate::text::{join_spec, lemma_join_then, text_opt, trim_spec};

verus! {

/// A text with each line ending, `\r\n`, `\r` or `\n`, as a line feed.
pub open spec fn with_line_feeds(s: Seq<char>) -> Seq<char>
    decreases s.len(),
{
    if s.len() == 0 {
        s
    } else if s[0] != '\r' {
        seq![s[0]] + with_line_feeds(s.skip(1))
    } else if s.len() >= 2 && s[1] == '\n' {
        seq!['\n'] + with_line_feeds(s.skip(2))
    } else {
        seq!['\n'] + with_line_feeds(s.skip(1))
    }
}

proof fn lemma_plain_prefix(s: Seq<char>, n: int)
    requires
        0 <= n <= s.len(),
        forall|i: int| 0 <= i < n ==> !is_line_end(#[trigger] s[i]),
    ensures
        with_line_feeds(s) == s.take(n) + with_line_feeds(s.skip(n)),
    decreases n,
{
    if n == 0 {
        assert(s.skip(0) =~= s);
        assert(s.take(0) + with_line_feeds(s) =~= with_line_feeds(s));
    } else {
        let t = s.skip(1);
        assert(!is_line_end(s[0]));
        assert forall|i: int| 0 <= i < n - 1 implies !is_line_end(#[trigger] t[i]) by {
            assert(t[i] == s[i + 1]);
        }
        lemma_plain_prefix(t, n - 1);
        assert(t.skip(n - 1) =~= s.skip(n));
        assert(with_line_feeds(s) =~= s.take(n) + with_line_feeds(s.skip(n)));
    }
}

/// The lines of a text, put together with line feeds, are the text, whatever ended its lines.
pub proof fn law_lines_make_up_the_text(s: Seq<char>)
    ensures
        join_spec(lines_spec(s), "\n"@) == with_line_feeds(s),
        !s.contains('\r') ==> with_line_feeds(s) == s,
    decreases s.len(),
{
    reveal_strlit("\n");
    lemma_line_len(s);
    let n = line_len(s);
    lemma_plain_prefix(s, n);
    let front = s.take(n);
    if n == s.len() {
        assert(s.skip(n) =~= Seq::<char>::empty());
        assert(with_line_feeds(s) =~= s);
    } else {
        let tail = s.skip(n);
        let rest = after_line_end(tail);
        law_lines_make_up_the_text(rest);
        lemma_lines_clean(rest);
        assert(is_line_end(tail[0]));
        assert(with_line_feeds(tail) =~= "\n"@ + with_line_feeds(rest));
        lemma_join_then(seq![front], lines_spec(rest), "\n"@);
        assert(join_spec(seq![front], "\n"@) =~= front);
        assert(join_spec(lines_spec(s), "\n"@) =~= front + "\n"@ + with_line_feeds(rest));
        if !s.contains('\r') {
            assert(tail[0] == s[n]);
            assert(rest =~= s.skip(n + 1));
            assert forall|i: int| 0 <= i < rest.len() implies rest[i] != '\r' by {
                assert(rest[i] == s[n + 1 + i]);
            }
            assert(!rest.contains('\r'));
            assert(with_line_feeds(s) =~= s);
        }
    }
}

/// A data event is one chunk with just the bytes of its text, line feeds and all, at the offset
/// that is known; nothing else changes.
pub proof fn law_data_event_is_one_chunk(
    rules: CollectRules,
    state: Collected,
    event: EventView,
    control: Result<ControlView, Seq<char>>,
)
    requires
        event.kind is None || event.kind == Some("data"@),
        !rules.base64,
    ensures
        ({
            let next = match collect_step(rules, state, event, control) {
                Step::Next(next) => Some(next),
                Step::Stop(next) => Some(next),
                Step::Fail(_) => None,
            };
            &&& next matches Some(end)
            &&& end.chunks.len() == state.chunks.len() + 1
            &&& end.chunks.drop_last() == state.chunks
            &&& end.chunks.last().data == encode_utf8(event.data)
            &&& decode_utf8(end.chunks.last().data) == event.data
            &&& end.chunks.last().next_offset == match state.next_offset {
                Some(o) => o,
                None => "-1"@,
            }
            &&& end == (Collected { chunks: end.chunks, ..state })
            &&& collect_step(rules, state, event, control) is Stop <==> (rules.max_chunks matches Some(
                limit,
            ) && end.chunks.len() >= limit)
        }),
{
    encode_utf8_decode_utf8(event.data);
    let end = match collect_step(rules, state, event, control) {
        Step::Next(next) => next,
        Step::Stop(next) => next,
        Step::Fail(_) => state,
    };
    assert(end.chunks.drop_last() =~= state.chunks);
}

proof fn lemma_without_nothing(s: Seq<char>)
    requires
        is_clean_line(s),
    ensures
        without_line_ends(s) == s,
    decreases s.len(),
{
    reveal(Seq::filter);
    if s.len() > 0 {
        let most = s.drop_last();
        assert(!is_line_end(s[s.len() - 1]));
        assert forall|j: int| 0 <= j < most.len() implies !is_line_end(#[trigger] most[j]) by {
            assert(most[j] == s[j]);
        }
        lemma_without_nothing(most);
        assert(most.push(s.last()) =~= s);
    } else {
        assert(without_line_ends(s) =~= s);
    }
}

/// A data event of a binary stream is one chunk with the bytes that its base64 text stands for.
pub proof fn law_binary_event_is_one_chunk(
    rules: CollectRules,
    state: Collected,
    event: EventView,
    control: Result<ControlView, Seq<char>>,
    data: Seq<u8>,
)
    requires
        event.kind is None || event.kind == Some("data"@),
        rules.base64,
        is_clean_line(event.data),
        base64_bytes(event.data) == Ok::<Seq<u8>, Seq<char>>(data),
    ensures
        ({
            let next = match collect_step(rules, state, event, control) {
                Step::Next(next) => Some(next),
                Step::Stop(next) => Some(next),
                Step::Fail(_) => None,
            };
            &&& next matches Some(end)
            &&& end.chunks.len() == state.chunks.len() + 1
            &&& end.chunks.drop_last() == state.chunks
            &&& end.chunks.last().data == data
            &&& end == (Collected { chunks: end.chunks, ..state })
        }),
{
    lemma_without_nothing(event.data);
    let end = match collect_step(rules, state, event, control) {
        Step::Next(next) => next,
        Step::Stop(next) => next,
        Step::Fail(_) => state,
    };
    assert(end.chunks.drop_last() =~= state.chunks);
}

/// A control event moves the reader to its offset and tells whether the reader is up to date and
/// whether the stream is closed; who has read a closed stream to its end is up to date. No chunk
/// changes. Reading ends where the stream is closed, or the reader wanted to be up to date and is.
pub proof fn law_control_event_moves_the_reader(
    rules: CollectRules,
    state: Collected,
    event: EventView,
    control: ControlView,
)
    requires
        event.kind == Some("control"@),
    ensures
        ({
            let step = collect_step(rules, state, event, Ok(control));
            let next = match step {
                Step::Next(next) => Some(next),
                Step::Stop(next) => Some(next),
                Step::Fail(_) => None,
            };
            &&& next matches Some(end)
            &&& end.chunks == state.chunks
            &&& end.next_offset == Some(control.next_offset)
            &&& end.cursor == control.cursor
            &&& end.up_to_date == (control.up_to_date || control.closed)
            &&& end.stream_closed == control.closed
            &&& step is Stop <==> control.closed || (rules.wait_for_up_to_date && control.up_to_date)
        }),
{
    reveal_strlit("data");
    reveal_strlit("control");
    assert("data"@.len() != "control"@.len());
}

/// An event of another type changes nothing.
pub proof fn law_other_events_are_ignored(
    rules: CollectRules,
    state: Collected,
    event: EventView,
    control: Result<ControlView, Seq<char>>,
)
    requires
        event.kind matches Some(k) && k != "data"@ && k != "control"@,
    ensures
        collect_step(rules, state, event, control) == Step::Next(state),
{
}

/// Whether a text is the JSON object of a control event: flags that are not set are left out.
pub open spec fn writes_control(json: Seq<char>, c: ControlView) -> bool {
    json == "{\"streamNextOffset\":"@ + json_string(c.next_offset) + (match c.cursor {
        Some(x) => ",\"streamCursor\":"@ + json_string(x),
        None => ""@,
    }) + (if c.up_to_date {
        ",\"upToDate\":true"@
    } else {
        ""@
    }) + (if c.closed {
        ",\"streamClosed\":true"@
    } else {
        ""@
    }) + "}"@
}

/// What the control event of a read says.
pub open spec fn said_of(read: ReadResult, last: u64) -> ControlView {
    ControlView {
        next_offset: read.next_offset.token@,
        cursor: if read.closed && read.at_tail {
            None
        } else {
            Some(cursor_text(last, read.next_offset.place))
        },
        up_to_date: read.at_tail,
        closed: read.closed && read.at_tail,
    }
}

proof fn lemma_members()
    ensures
        ",\"upToDate\":true"@ == ",\""@ + "upToDate"@ + "\":"@ + "true"@,
        ",\"streamClosed\":true"@ == ",\""@ + "streamClosed"@ + "\":"@ + "true"@,
        ""@ == Seq::<char>::empty(),
{
    reveal_strlit(",\"");
    reveal_strlit("\":");
    reveal_strlit("true");
    reveal_strlit("");
    reveal_strlit("upToDate");
    reveal_strlit("streamClosed");
    reveal_strlit(",\"upToDate\":true");
    reveal_strlit(",\"streamClosed\":true");
    assert(",\"upToDate\":true"@ =~= ",\""@ + "upToDate"@ + "\":"@ + "true"@);
    assert(",\"streamClosed\":true"@ =~= ",\""@ + "streamClosed"@ + "\":"@ + "true"@);
    assert(""@ =~= Seq::<char>::empty());
}

/// The control event of a read says what the read says: where the next read begins, that the
/// reader is up to date exactly where the read reaches the tail, that the stream is closed exactly
/// where it is and nothing follows, and a cursor exactly where something may follow.
pub proof fn law_control_event_says_what_the_read_says(read: ReadResult, last: u64)
    ensures
        writes_control(control_of(read, last), said_of(read, last)),
{
    lemma_members();
    let a = "{\"streamNextOffset\":"@ + json_string(read.next_offset.token@);
    assert(a + Seq::<char>::empty() =~= a);
}

/// Whether a text stands between quotation marks.
pub open spec fn is_quoted(s: Seq<char>) -> bool {
    s.len() >= 2 && s.last() == '"'
}

/// From the text of a control event a client learns whether the reader is up to date and whether
/// the stream is closed: reads that differ in either have different control events.
pub proof fn law_control_events_tell_reads_apart(a: ReadResult, a_last: u64, b: ReadResult, b_last: u64)
    requires
        control_of(a, a_last) == control_of(b, b_last),
        is_quoted(json_string(a.next_offset.token@)),
        is_quoted(json_string(b.next_offset.token@)),
        is_quoted(json_string(cursor_text(a_last, a.next_offset.place))),
        is_quoted(json_string(cursor_text(b_last, b.next_offset.place))),
    ensures
        a.at_tail == b.at_tail,
        (a.closed && a.at_tail) == (b.closed && b.at_tail),
{
    lemma_control_end(a, a_last);
    lemma_control_end(b, b_last);
}

proof fn lemma_control_end(read: ReadResult, last: u64)
    requires
        is_quoted(json_string(read.next_offset.token@)),
        is_quoted(json_string(cursor_text(last, read.next_offset.place))),
    ensures
        ({
            let json = control_of(read, last);
            let n = json.len();
            &&& n >= 8
            &&& json[n - 2] == if read.at_tail {
                'e'
            } else {
                '"'
            }
            &&& read.at_tail ==> json[n - 8] == if read.closed {
                'd'
            } else {
                'e'
            }
        }),
{
    law_control_event_says_what_the_read_says(read, last);
    reveal_strlit("");
    reveal_strlit("}");
    reveal_strlit("{\"streamNextOffset\":");
    reveal_strlit(",\"streamCursor\":");
    reveal_strlit(",\"upToDate\":true");
    reveal_strlit(",\"streamClosed\":true");
    let c = said_of(read, last);
    let front = "{\"streamNextOffset\":"@ + json_string(c.next_offset) + (match c.cursor {
        Some(x) => ",\"streamCursor\":"@ + json_string(x),
        None => ""@,
    });
    assert(front.len() >= 22);
    assert(front.last() == '"');
    let json = control_of(read, last);
    let n = json.len();
    if c.closed {
        let u = ",\"upToDate\":true"@;
        let s = ",\"streamClosed\":true"@;
        assert(json =~= front + u + s + "}"@);
        assert(n == front.len() + u.len() + s.len() + 1);
        assert(json[n - 2] == s[s.len() - 1]);
        assert(json[n - 8] == s[s.len() - 7]);
    } else if c.up_to_date {
        let u = ",\"upToDate\":true"@;
        assert(json =~= front + u + "}"@);
        assert(n == front.len() + u.len() + 1);
        assert(json[n - 2] == u[u.len() - 1]);
        assert(json[n - 8] == u[u.len() - 7]);
    } else {
        assert(json =~= front + "}"@);
        assert(json[n - 2] == front.last());
    }
}

/// The data events of a read, by the kind of the stream.
pub open spec fn data_events(messages: Seq<Seq<u8>>, is_binary: bool, is_json: bool) -> Seq<EventView> {
    if messages.len() == 0 {
        Seq::empty()
    } else if is_json {
        seq![EventView { kind: Some("data"@), data: json_batch_text(messages) }]
    } else {
        message_events(messages, is_binary)
    }
}

/// Whether messages reach a client unchanged as events: the values of a JSON stream are on one
/// line each, and no line of a text begins with a space.
pub open spec fn can_be_framed(messages: Seq<Seq<u8>>, is_binary: bool, is_json: bool) -> bool {
    forall|i: int|
        0 <= i < messages.len() ==> if is_json {
            is_one_line(lossy_text(#[trigger] messages[i]))
        } else {
            no_leading_space(message_text(messages[i], is_binary, false))
        }
}

/// What a server sends of a read, a client reads as the data events of the messages, in order, and
/// one control event behind them.
pub proof fn law_frames_of_a_read_are_its_events(
    read: ReadResult,
    is_binary: bool,
    is_json: bool,
    last: u64,
)
    requires
        !(is_binary && is_json),
        can_be_framed(contents(read.messages@), is_binary, is_json),
        is_one_line(control_of(read, last)),
    ensures
        sse_run(
            with_bytes(
                idle(),
                encode_utf8(frames_of(read, is_binary, is_json, last).flatten()),
            ),
            Seq::empty(),
        ) == (SseRun {
            state: idle(),
            events: data_events(contents(read.messages@), is_binary, is_json).push(
                EventView { kind: Some("control"@), data: control_of(read, last) },
            ),
            ok: true,
        }),
{
    let none = Seq::<EventView>::empty();
    let messages = contents(read.messages@);
    let data = data_frames(messages, is_binary, is_json);
    let json = control_of(read, last);
    let control = control_frame(json);
    let frames = frames_of(read, is_binary, is_json, last);
    reveal_strlit("{\"streamNextOffset\":");
    assert(json[0] == '{');
    lemma_flatten_frames(data, control, frames);
    assert(frames.flatten() == data + control);
    let events = data_events(messages, is_binary, is_json);
    assert(sse_run(with_bytes(idle(), encode_utf8(data)), none) == (SseRun {
        state: idle(),
        events,
        ok: true,
    })) by {
        if messages.len() == 0 {
            assert(encode_utf8(Seq::<char>::empty()) =~= Seq::<u8>::empty());
            assert(with_bytes(idle(), Seq::empty()) =~= idle());
        } else if is_json {
            assert forall|i: int| 0 <= i < messages.len() implies is_one_line(
                lossy_text(#[trigger] messages[i]),
            ) by {}
            law_json_batch_reads_back(messages);
        } else {
            assert forall|i: int| 0 <= i < messages.len() implies no_leading_space(
                message_text(#[trigger] messages[i], is_binary, false),
            ) by {}
            law_batch_reads_back(messages, is_binary);
        }
    }
    law_control_frame_reads_back(json);
    lemma_encode_concat(data, control);
    lemma_run_of_prefix(with_bytes(idle(), encode_utf8(data)), none, encode_utf8(control));
    assert(with_bytes(with_bytes(idle(), encode_utf8(data)), encode_utf8(control)) =~= with_bytes(
        idle(),
        encode_utf8(data + control),
    ));
    lemma_run_events(with_bytes(idle(), encode_utf8(control)), events);
    let said = EventView { kind: Some("control"@), data: json };
    assert(events + seq![said] =~= events.push(said));
}

proof fn lemma_flatten_frames(data: Seq<char>, control: Seq<char>, frames: Seq<Seq<char>>)
    requires
        frames == if data.len() == 0 {
            Seq::<Seq<char>>::empty().push(control)
        } else {
            seq![data].push(control)
        },
    ensures
        frames.flatten() == data + control,
{
    frames.lemma_flatten_and_flatten_alt_are_equivalent();
    let most = frames.drop_last();
    assert(frames.last() == control);
    if data.len() == 0 {
        assert(most =~= Seq::<Seq<char>>::empty());
        assert(most.flatten_alt() =~= Seq::<char>::empty());
        assert(frames.flatten_alt() =~= data + control);
    } else {
        assert(most =~= seq![data]);
        assert(most.drop_last() =~= Seq::<Seq<char>>::empty());
        assert(most.last() == data);
        assert(most.drop_last().flatten_alt() =~= Seq::<char>::empty());
        assert(most.flatten_alt() =~= data);
        assert(frames.flatten_alt() =~= data + control);
    }
}

/// What a client collects of a read: one chunk for each of the events, with the bytes of each, and
/// the place that the control event gives.
spec fn is_collected(
    end: (Collected, Option<CollectFailure>),
    state: Collected,
    bytes: Seq<Seq<u8>>,
    said: ControlView,
) -> bool {
    &&& end.1 is None
    &&& end.0.chunks.len() == state.chunks.len() + bytes.len()
    &&& forall|i: int| 0 <= i < state.chunks.len() ==> #[trigger] end.0.chunks[i] == state.chunks[i]
    &&& forall|i: int|
        0 <= i < bytes.len() ==> (#[trigger] end.0.chunks[state.chunks.len() + i]).data == bytes[i]
    &&& end.0.next_offset == Some(said.next_offset)
    &&& end.0.cursor == said.cursor
    &&& end.0.up_to_date == (said.up_to_date || said.closed)
    &&& end.0.stream_closed == said.closed
}

proof fn lemma_collect(
    rules: CollectRules,
    state: Collected,
    events: Seq<EventView>,
    controls: Seq<Result<ControlView, Seq<char>>>,
    bytes: Seq<Seq<u8>>,
    said: ControlView,
)
    requires
        rules.max_chunks is None,
        events.len() == bytes.len() + 1,
        controls.len() == events.len(),
        forall|i: int|
            0 <= i < bytes.len() ==> (#[trigger] events[i]).kind == Some("data"@) && if rules.base64 {
                is_clean_line(events[i].data) && base64_bytes(events[i].data) == Ok::<
                    Seq<u8>,
                    Seq<char>,
                >(bytes[i])
            } else {
                encode_utf8(events[i].data) == bytes[i]
            },
        events.last().kind == Some("control"@),
        controls.last() == Ok::<ControlView, Seq<char>>(said),
    ensures
        is_collected(collect_all(rules, state, events, controls), state, bytes, said),
    decreases events.len(),
{
    let end = collect_all(rules, state, events, controls);
    if bytes.len() == 0 {
        law_control_event_moves_the_reader(rules, state, events[0], said);
        if let Step::Next(next) = collect_step(rules, state, events[0], controls[0]) {
            assert(collect_all(rules, next, events.skip(1), controls.skip(1)) == (
                next,
                None::<CollectFailure>,
            ));
            assert(end == (next, None::<CollectFailure>));
        }
    } else {
        let first = events[0];
        if rules.base64 {
            law_binary_event_is_one_chunk(rules, state, first, controls[0], bytes[0]);
        } else {
            law_data_event_is_one_chunk(rules, state, first, controls[0]);
        }
        let next = match collect_step(rules, state, first, controls[0]) {
            Step::Next(next) => next,
            Step::Stop(next) => next,
            Step::Fail(_) => state,
        };
        assert(collect_step(rules, state, first, controls[0]) == Step::Next(next));
        let es = events.skip(1);
        let cs = controls.skip(1);
        let bs = bytes.skip(1);
        assert forall|i: int| 0 <= i < bs.len() implies (#[trigger] es[i]).kind == Some("data"@)
            && if rules.base64 {
            is_clean_line(es[i].data) && base64_bytes(es[i].data) == Ok::<Seq<u8>, Seq<char>>(bs[i])
        } else {
            encode_utf8(es[i].data) == bs[i]
        } by {
            assert(es[i] == events[i + 1]);
        }
        lemma_collect(rules, next, es, cs, bs, said);
        assert(end == collect_all(rules, next, es, cs));
        assert forall|i: int| 0 <= i < state.chunks.len() implies #[trigger] end.0.chunks[i]
            == state.chunks[i] by {
            assert(next.chunks.drop_last()[i] == next.chunks[i]);
        }
        assert forall|i: int| 0 <= i < bytes.len() implies (#[trigger] end.0.chunks[state.chunks.len()
            + i]).data == bytes[i] by {
            if i == 0 {
                assert(end.0.chunks[state.chunks.len() as int] == next.chunks.last());
            } else {
                assert(end.0.chunks[next.chunks.len() + (i - 1)].data == bs[i - 1]);
            }
        }
    }
}

/// A live read of a text stream gives a client the messages as they were appended, one chunk each,
/// in order, and then says where the reader is. Only line endings change: each becomes a line
/// feed.
pub proof fn law_live_read_of_texts(
    read: ReadResult,
    last: u64,
    rules: CollectRules,
    state: Collected,
    controls: Seq<Result<ControlView, Seq<char>>>,
)
    requires
        can_be_framed(contents(read.messages@), false, false),
        is_one_line(control_of(read, last)),
        !rules.base64,
        rules.max_chunks is None,
        controls.len() == read.messages@.len() + 1,
        controls.last() == Ok::<ControlView, Seq<char>>(said_of(read, last)),
    ensures
        ({
            let run = sse_run(
                with_bytes(idle(), encode_utf8(frames_of(read, false, false, last).flatten())),
                Seq::empty(),
            );
            let end = collect_all(rules, state, run.events, controls);
            let n = state.chunks.len();
            &&& run.ok
            &&& end.1 is None
            &&& end.0.chunks.len() == n + read.messages@.len()
            &&& forall|i: int|
                0 <= i < read.messages@.len() ==> (#[trigger] end.0.chunks[n + i]).data == encode_utf8(
                    with_line_feeds(lossy_text(read.messages@[i]@)),
                )
            &&& end.0.next_offset == Some(read.next_offset.token@)
            &&& end.0.up_to_date == read.at_tail
            &&& end.0.stream_closed == (read.closed && read.at_tail)
        }),
{
    let messages = contents(read.messages@);
    law_frames_of_a_read_are_its_events(read, false, false, last);
    let events = data_events(messages, false, false).push(
        EventView { kind: Some("control"@), data: control_of(read, last) },
    );
    let bytes = messages.map_values(|m: Seq<u8>| encode_utf8(with_line_feeds(lossy_text(m))));
    assert forall|i: int| 0 <= i < bytes.len() implies (#[trigger] events[i]).kind == Some("data"@)
        && encode_utf8(events[i].data) == bytes[i] by {
        law_lines_make_up_the_text(lossy_text(messages[i]));
    }
    lemma_collect(rules, state, events, controls, bytes, said_of(read, last));
    let end = collect_all(rules, state, events, controls);
    assert forall|i: int| 0 <= i < read.messages@.len() implies (#[trigger] end.0.chunks[
        state.chunks.len() + i]).data == encode_utf8(
        with_line_feeds(lossy_text(read.messages@[i]@)),
    ) by {
        assert(bytes[i] == encode_utf8(with_line_feeds(lossy_text(messages[i]))));
    }
}

/// A live read of a binary stream gives a client the bytes of the messages, one chunk each, in
/// order.
pub proof fn law_live_read_of_bytes(
    read: ReadResult,
    last: u64,
    rules: CollectRules,
    state: Collected,
    controls: Seq<Result<ControlView, Seq<char>>>,
)
    requires
        forall|i: int|
            0 <= i < read.messages@.len() ==> is_base64(base64_text((#[trigger] read.messages@[i])@))
                && base64_bytes(base64_text(read.messages@[i]@)) == Ok::<Seq<u8>, Seq<char>>(
                read.messages@[i]@,
            ),
        is_one_line(control_of(read, last)),
        rules.base64,
        rules.max_chunks is None,
        controls.len() == read.messages@.len() + 1,
        controls.last() == Ok::<ControlView, Seq<char>>(said_of(read, last)),
    ensures
        ({
            let run = sse_run(
                with_bytes(idle(), encode_utf8(frames_of(read, true, false, last).flatten())),
                Seq::empty(),
            );
            let end = collect_all(rules, state, run.events, controls);
            let n = state.chunks.len();
            &&& run.ok
            &&& end.1 is None
            &&& end.0.chunks.len() == n + read.messages@.len()
            &&& forall|i: int|
                0 <= i < read.messages@.len() ==> (#[trigger] end.0.chunks[n + i]).data
                    == read.messages@[i]@
            &&& end.0.next_offset == Some(read.next_offset.token@)
            &&& end.0.up_to_date == read.at_tail
            &&& end.0.stream_closed == (read.closed && read.at_tail)
        }),
{
    let messages = contents(read.messages@);
    reveal_strlit(" ");
    assert forall|i: int| 0 <= i < messages.len() implies {
        let text = base64_text(#[trigger] messages[i]);
        is_clean_line(text) && lines_spec(text) == seq![text] && no_leading_space(text)
    } by {
        assert(read.messages@[i]@ == messages[i]);
        let text = base64_text(messages[i]);
        assert forall|j: int| 0 <= j < text.len() implies !is_line_end(#[trigger] text[j]) by {
            assert(is_base64_char(text[j]));
        }
        lemma_one_line(text);
        assert(!" "@.is_prefix_of(text)) by {
            if " "@.is_prefix_of(text) {
                assert(" "@[0] == text.take(1)[0]);
                assert(is_base64_char(text[0]));
            }
        }
    }
    assert forall|i: int| 0 <= i < messages.len() implies no_leading_space(
        message_text(messages[i], true, false),
    ) by {
        assert(no_leading_space(base64_text(messages[i])));
    }
    law_frames_of_a_read_are_its_events(read, true, false, last);
    let events = data_events(messages, true, false).push(
        EventView { kind: Some("control"@), data: control_of(read, last) },
    );
    assert forall|i: int| 0 <= i < messages.len() implies (#[trigger] events[i]).kind == Some("data"@)
        && is_clean_line(events[i].data) && base64_bytes(events[i].data) == Ok::<Seq<u8>, Seq<char>>(
        messages[i],
    ) by {
        let text = base64_text(messages[i]);
        assert(read.messages@[i]@ == messages[i]);
        assert(join_spec(seq![text], "\n"@) =~= text);
    }
    lemma_collect(rules, state, events, controls, messages, said_of(read, last));
}

/// A live read of a JSON stream gives a client one chunk with one array of all messages, where
/// there are any.
pub proof fn law_live_read_of_json(
    read: ReadResult,
    last: u64,
    rules: CollectRules,
    state: Collected,
    controls: Seq<Result<ControlView, Seq<char>>>,
)
    requires
        read.messages@.len() > 0,
        can_be_framed(contents(read.messages@), false, true),
        is_one_line(control_of(read, last)),
        !rules.base64,
        rules.max_chunks is None,
        controls.len() == 2,
        controls.last() == Ok::<ControlView, Seq<char>>(said_of(read, last)),
    ensures
        ({
            let run = sse_run(
                with_bytes(idle(), encode_utf8(frames_of(read, false, true, last).flatten())),
                Seq::empty(),
            );
            let end = collect_all(rules, state, run.events, controls);
            let values = Seq::new(
                read.messages@.len(),
                |i: int| lossy_text(read.messages@[i]@),
            );
            &&& run.ok
            &&& end.1 is None
            &&& end.0.chunks.len() == state.chunks.len() + 1
            &&& end.0.chunks.last().data == encode_utf8("["@ + join_spec(values, ","@) + "]"@)
            &&& end.0.next_offset == Some(read.next_offset.token@)
            &&& end.0.up_to_date == read.at_tail
            &&& end.0.stream_closed == (read.closed && read.at_tail)
        }),
{
    let messages = contents(read.messages@);
    law_frames_of_a_read_are_its_events(read, false, true, last);
    let values = Seq::new(read.messages@.len(), |i: int| lossy_text(read.messages@[i]@));
    assert(lossy_texts(messages) =~= values);
    let events = data_events(messages, false, true).push(
        EventView { kind: Some("control"@), data: control_of(read, last) },
    );
    let bytes = seq![encode_utf8(json_batch_text(messages))];
    lemma_collect(rules, state, events, controls, bytes, said_of(read, last));
    let end = collect_all(rules, state, events, controls);
    assert(end.0.chunks[state.chunks.len() + 0int].data == bytes[0]);
}

/// The client reads the events of a server as the server writes them: in base64 exactly where the
/// server says so, and it stops when it was told to.
pub proof fn law_client_reads_as_the_server_writes(
    is_binary: bool,
    all: Map<Seq<char>, Seq<Seq<u8>>>,
    max_chunks: Option<usize>,
    wait_for_up_to_date: bool,
)
    requires
        is_received(all, sse_reply(is_binary).headers),
    ensures
        ({
            let rules = rules_for(all, max_chunks, wait_for_up_to_date);
            rules.base64 == is_binary && rules.max_chunks == max_chunks && rules.wait_for_up_to_date
                == wait_for_up_to_date
        }),
        nothing_collected().chunks.len() == 0 && nothing_collected().next_offset is None
            && !nothing_collected().stream_closed && !nothing_collected().up_to_date,
{
    law_event_stream_says_its_encoding(is_binary);
    lemma_header_names();
    assert(field_text(all, "stream-sse-data-encoding"@) == header_of(
        sse_reply(is_binary).headers,
        "stream-sse-data-encoding"@,
    ));
}

/// A read of events gives all that was collected, and where the reader is then; it fails exactly
/// where no event said where that is.
pub proof fn law_finished_read_is_what_was_collected(
    r: Result<ReadResponse, Error>,
    c: SseCollector,
    content_type: Option<String>,
    etag: Option<String>,
)
    requires
        is_finished(r, c, content_type, etag),
    ensures
        r is Err <==> c.collected().next_offset is None,
        r matches Ok(read) ==> {
            &&& chunk_views(read.chunks@) == c.collected().chunks
            &&& Some(read.next_offset@) == c.collected().next_offset
            &&& text_opt(read.cursor) == c.collected().cursor
            &&& read.up_to_date == c.collected().up_to_date
            &&& read.stream_closed == c.collected().stream_closed
            &&& read.content_type == content_type && read.etag == etag
            &&& read.status == 200 && read.payload is None
        },
{
}

/// What is written after the colon of a data line is one line of data, without one space at its
/// front; what is written after that of an event line is the type; any other line, such as a
/// comment, changes nothing.
pub proof fn law_lines_of_an_event_are_told_apart(
    event: Option<Seq<char>>,
    lines: Seq<Seq<char>>,
    text: Seq<char>,
)
    ensures
        after_text_line(event, lines, "data: "@ + text) == (event, lines.push(text)),
        (text.len() == 0 || text[0] != ' ') ==> after_text_line(event, lines, "data:"@ + text) == (
            event,
            lines.push(text),
        ),
        after_text_line(event, lines, "event:"@ + text) == (Some(trim_spec(text)), lines),
        !("data:"@.is_prefix_of(text)) && !("event:"@.is_prefix_of(text)) ==> after_text_line(
            event,
            lines,
            text,
        ) == (event, lines),
        after_text_line(event, lines, ":"@ + text) == (event, lines),
{
    reveal_strlit("data: ");
    reveal_strlit("data:");
    reveal_strlit("event:");
    reveal_strlit(":");
    reveal_strlit(" ");
    let spaced = "data: "@ + text;
    assert("data: "@ =~= "data:"@ + " "@);
    assert(spaced.take(5) =~= "data:"@);
    assert("data:"@.is_prefix_of(spaced));
    assert(!"event:"@.is_prefix_of(spaced)) by {
        assert(spaced[0] == 'd');
        if "event:"@.is_prefix_of(spaced) {
            assert("event:"@[0] == spaced[0]);
        }
    }
    assert(spaced.skip(5) =~= " "@ + text);
    assert((" "@ + text).take(1) =~= " "@);
    assert(" "@.is_prefix_of(" "@ + text));
    assert((" "@ + text).skip(1) =~= text);
    let plain = "data:"@ + text;
    assert(plain.take(5) =~= "data:"@);
    assert("data:"@.is_prefix_of(plain));
    assert(!"event:"@.is_prefix_of(plain)) by {
        assert(plain[0] == 'd');
        if "event:"@.is_prefix_of(plain) {
            assert("event:"@[0] == plain[0]);
        }
    }
    assert(plain.skip(5) =~= text);
    if " "@.is_prefix_of(text) {
        assert(" "@[0] == text[0]);
    }
    let named = "event:"@ + text;
    assert(named.take(6) =~= "event:"@);
    assert("event:"@.is_prefix_of(named));
    assert(named.skip(6) =~= text);
    let comment = ":"@ + text;
    assert(comment[0] == ':');
    if "event:"@.is_prefix_of(comment) {
        assert("event:"@[0] == comment[0]);
    }
    if "data:"@.is_prefix_of(comment) {
        assert("data:"@[0] == comment[0]);
    }
}

/// A carriage return at the end of a line belongs to the end.
pub proof fn law_lines_may_end_with_a_carriage_return(line: Seq<u8>)
    ensures
        line_content(line.push(13)) == line,
        line.len() == 0 || line.last() != 13 ==> line_content(line) == line,
{
    assert(line.push(13).drop_last() =~= line);
}

/// A read of events is done exactly where the stream is closed, there are as many chunks as were
/// asked for, or the reader has caught up and wanted no more.
pub proof fn law_read_is_done_when_it_has_enough(rules: CollectRules, state: Collected)
    ensures
        complete(rules, state) || limit_reached(rules, state) <==> {
            ||| state.stream_closed
            ||| rules.wait_for_up_to_date && state.up_to_date
            ||| rules.max_chunks matches Some(n) && state.chunks.len() >= n
        },
{
}

} // verus!
