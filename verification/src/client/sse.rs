//! Reading server-sent events from a stream of bytes.

use vstd::prelude::*;
use vstd::utf8::{
    decode_utf8, encode_scalar, encode_utf8, encode_utf8_decode_utf8, encode_utf8_valid_utf8, valid_utf8,
};
use crate::bytes::{append_slice, cut, find_byte, find_byte_from, lemma_find_byte, lemma_find_byte_at};
use crate::client::error::Error;
use crate::encoding::{
    base64_text, is_base64, is_base64_char, lemma_encode_ascii_byte, lemma_encode_ascii_char, lemma_encode_concat,
    lossy_text, utf8_text,
};
use crate::json::is_one_line;
use crate::protocol::sse::{
    data_frames, data_lines, frame_each, is_clean_line, is_line_end, lemma_lines_clean, lemma_one_line,
    lines_spec, lossy_texts, message_text, raw_data_frame,
};
use crate::text::{
    join, join_spec, lemma_trim_end_at, lemma_trim_start_at, strip_prefix, text_opt, texts, trim, trim_spec,
};

verus! {

/// One event of the stream.
#[derive(Debug)]
pub struct ParsedEvent {
    /// The event's type, where the stream gave one.
    pub kind: Option<String>,
    /// The event's data lines, joined by line feeds.
    pub data: String,
}

/// What an event holds.
#[verifier::ext_equal]
pub struct EventView {
    pub kind: Option<Seq<char>>,
    pub data: Seq<char>,
}

impl View for ParsedEvent {
    type V = EventView;

    open spec fn view(&self) -> EventView {
        EventView { kind: text_opt(self.kind), data: self.data@ }
    }
}

/// What the events hold.
pub open spec fn event_views(events: Seq<ParsedEvent>) -> Seq<EventView> {
    events.map_values(|e: ParsedEvent| e@)
}

/// A reader of events that takes the stream in pieces.
#[derive(Debug)]
pub struct SseParser {
    /// Bytes after the last complete line.
    pub buffer: Vec<u8>,
    /// The type of the event that is being read.
    pub current_event: Option<String>,
    /// The data lines of the event that is being read.
    pub data_lines: Vec<String>,
}

/// What a reader holds between two pieces: the bytes of an unfinished line and the event
/// that is being read.
#[verifier::ext_equal]
pub struct SseState {
    pub buffer: Seq<u8>,
    pub event: Option<Seq<char>>,
    pub lines: Seq<Seq<char>>,
}

impl View for SseParser {
    type V = SseState;

    open spec fn view(&self) -> SseState {
        SseState {
            buffer: self.buffer@,
            event: text_opt(self.current_event),
            lines: texts(self.data_lines@),
        }
    }
}

/// What reading comes to: the state that is left, the events in order, and whether every
/// line was UTF-8. Reading stops at a line that is not.
#[verifier::ext_equal]
pub struct SseRun {
    pub state: SseState,
    pub events: Seq<EventView>,
    pub ok: bool,
}

/// A line without a carriage return at its end.
pub open spec fn line_content(line: Seq<u8>) -> Seq<u8> {
    if line.len() > 0 && line.last() == 13 {
        line.drop_last()
    } else {
        line
    }
}

/// A text without one space at its front.
pub open spec fn without_space(s: Seq<char>) -> Seq<char> {
    if " "@.is_prefix_of(s) {
        s.skip(1)
    } else {
        s
    }
}

/// The event that is being read after a line of text: a type, a data line, or no change.
pub open spec fn after_text_line(event: Option<Seq<char>>, lines: Seq<Seq<char>>, text: Seq<char>) -> (
    Option<Seq<char>>,
    Seq<Seq<char>>,
) {
    if "event:"@.is_prefix_of(text) {
        (Some(trim_spec(text.skip(6))), lines)
    } else if "data:"@.is_prefix_of(text) {
        (event, lines.push(without_space(text.skip(5))))
    } else {
        (event, lines)
    }
}

/// Reads every complete line of the state's buffer. An empty line ends an event that has a
/// type or data.
pub open spec fn sse_run(state: SseState, events: Seq<EventView>) -> SseRun
    decreases state.buffer.len(),
{
    let i = find_byte(state.buffer, 10);
    if i == state.buffer.len() {
        SseRun { state, events, ok: true }
    } else {
        proof {
            lemma_find_byte(state.buffer, 10);
        }
        let line = line_content(state.buffer.take(i));
        let rest = state.buffer.skip(i + 1);
        if line.len() == 0 {
            if state.lines.len() > 0 || state.event is Some {
                let done = EventView { kind: state.event, data: join_spec(state.lines, "\n"@) };
                sse_run(
                    SseState { buffer: rest, event: None, lines: Seq::empty() },
                    events.push(done),
                )
            } else {
                sse_run(SseState { buffer: rest, ..state }, events)
            }
        } else if !valid_utf8(line) {
            SseRun { state: SseState { buffer: rest, ..state }, events, ok: false }
        } else {
            let next = after_text_line(state.event, state.lines, decode_utf8(line));
            sse_run(SseState { buffer: rest, event: next.0, lines: next.1 }, events)
        }
    }
}

/// A state with more bytes behind what it holds.
pub open spec fn with_bytes(state: SseState, bytes: Seq<u8>) -> SseState {
    SseState { buffer: state.buffer + bytes, ..state }
}

impl SseParser {
    /// A reader at the start of a stream.
    pub fn new() -> (r: Self)
        ensures
            r@ == (SseState { buffer: Seq::empty(), event: None, lines: Seq::empty() }),
    {
        let r = SseParser { buffer: Vec::new(), current_event: None, data_lines: Vec::new() };
        assert(texts(r.data_lines@) =~= Seq::empty());
        r
    }

    /// Reads a piece of the stream and gives the events that it completes.
    pub fn push(&mut self, bytes: &[u8]) -> (r: Result<Vec<ParsedEvent>, Error>)
        ensures
            ({
                let run = sse_run(with_bytes(old(self)@, bytes@), Seq::empty());
                &&& final(self)@ == run.state
                &&& match r {
                    Ok(events) => run.ok && event_views(events@) == run.events,
                    Err(Error::Parse(m)) => !run.ok && m@ == "SSE stream contained invalid UTF-8"@,
                    Err(_) => false,
                }
            }),
    {
        let ghost start = with_bytes(self@, bytes@);
        let ghost run = sse_run(start, Seq::empty());
        append_slice(&mut self.buffer, bytes);
        let mut events: Vec<ParsedEvent> = Vec::new();
        let mut pos: usize = 0;
        proof {
            reveal_strlit(" ");
            reveal_strlit("event:");
            reveal_strlit("data:");
            assert(self.buffer@.skip(0) =~= self.buffer@);
            assert(event_views(events@) =~= Seq::empty());
        }
        loop
            invariant
                pos <= self.buffer@.len(),
                run == sse_run(start, Seq::empty()),
                start == with_bytes(old(self)@, bytes@),
                run == sse_run(
                    SseState {
                        buffer: self.buffer@.skip(pos as int),
                        event: text_opt(self.current_event),
                        lines: texts(self.data_lines@),
                    },
                    event_views(events@),
                ),
                " "@.len() == 1,
                "event:"@.len() == 6,
                "data:"@.len() == 5,
            decreases self.buffer@.len() - pos,
        {
            let ghost here = SseState {
                buffer: self.buffer@.skip(pos as int),
                event: text_opt(self.current_event),
                lines: texts(self.data_lines@),
            };
            let ghost seen = event_views(events@);
            let line_end: usize = find_byte_from(&self.buffer, 10, pos);
            if line_end == self.buffer.len() {
                let rest = cut(&self.buffer, pos, line_end);
                assert(rest@ =~= here.buffer);
                self.buffer = rest;
                assert(self@ =~= here);
                return Ok(events);
            }
            let mut content_end: usize = line_end;
            if line_end > pos && self.buffer[line_end - 1] == 13 {
                content_end = line_end - 1;
            }
            let line = cut(&self.buffer, pos, content_end);
            let ghost i = find_byte(here.buffer, 10);
            proof {
                let raw = here.buffer.take(i);
                if line_end > pos {
                    assert(raw.last() == self.buffer@[line_end - 1]);
                }
                assert(line@ =~= line_content(raw));
                assert(here.buffer.skip(i + 1) =~= self.buffer@.skip(line_end + 1));
            }
            pos = line_end + 1;
            if line.len() == 0 {
                if self.data_lines.len() > 0 || self.current_event.is_some() {
                    let data = join(&self.data_lines, "\n");
                    let kind = self.current_event.take();
                    let event = ParsedEvent { kind, data };
                    let ghost e = event@;
                    events.push(event);
                    self.data_lines.clear();
                    proof {
                        assert(e =~= (EventView { kind: here.event, data: join_spec(here.lines, "\n"@) }));
                        assert(event_views(events@) =~= seen.push(e));
                        assert(texts(self.data_lines@) =~= Seq::empty());
                    }
                }
                continue ;
            }
            let text = match utf8_text(line.as_slice()) {
                Ok(t) => t,
                Err(_) => {
                    let rest = cut(&self.buffer, pos, self.buffer.len());
                    assert(rest@ =~= here.buffer.skip(i + 1));
                    self.buffer = rest;
                    assert(self@ =~= run.state);
                    return Err(Error::parse("SSE stream contained invalid UTF-8"));
                },
            };
            if let Some(rest) = strip_prefix(text.as_str(), "event:") {
                self.current_event = Some(trim(rest).to_owned());
            } else if let Some(rest) = strip_prefix(text.as_str(), "data:") {
                let value = match strip_prefix(rest, " ") {
                    Some(v) => v,
                    None => rest,
                };
                let ghost before = self.data_lines@;
                self.data_lines.push(value.to_owned());
                proof {
                    assert(value@ == without_space(text@.skip(5)));
                    assert(texts(self.data_lines@) =~= texts(before).push(value@));
                }
            }
        }
    }
}

pub proof fn lemma_run_of_prefix(state: SseState, events: Seq<EventView>, more: Seq<u8>)
    ensures
        ({
            let r = sse_run(state, events);
            let all = sse_run(with_bytes(state, more), events);
            &&& r.ok ==> all == sse_run(with_bytes(r.state, more), r.events)
            &&& !r.ok ==> !all.ok && all.events == r.events
        }),
    decreases state.buffer.len(),
{
    let i = find_byte(state.buffer, 10);
    lemma_find_byte(state.buffer, 10);
    if i < state.buffer.len() {
        let whole = state.buffer + more;
        assert forall|j: int| 0 <= j < i implies #[trigger] whole[j] != 10 by {
            assert(whole[j] == state.buffer[j]);
        }
        lemma_find_byte_at(whole, 10, i);
        assert(whole.take(i) =~= state.buffer.take(i));
        assert(whole.skip(i + 1) =~= state.buffer.skip(i + 1) + more);
        let line = line_content(state.buffer.take(i));
        let rest = state.buffer.skip(i + 1);
        if line.len() == 0 {
            if state.lines.len() > 0 || state.event is Some {
                let done = EventView { kind: state.event, data: join_spec(state.lines, "\n"@) };
                lemma_run_of_prefix(
                    SseState { buffer: rest, event: None, lines: Seq::empty() },
                    events.push(done),
                    more,
                );
            } else {
                lemma_run_of_prefix(SseState { buffer: rest, ..state }, events, more);
            }
        } else if valid_utf8(line) {
            let next = after_text_line(state.event, state.lines, decode_utf8(line));
            lemma_run_of_prefix(
                SseState { buffer: rest, event: next.0, lines: next.1 },
                events,
                more,
            );
        }
    }
}

/// How a stream is cut into pieces does not matter: reading two pieces one after the other
/// gives the events and the state that reading them as one gives.
pub proof fn law_pieces_do_not_matter(state: SseState, a: Seq<u8>, b: Seq<u8>)
    ensures
        ({
            let first = sse_run(with_bytes(state, a), Seq::empty());
            let second = sse_run(with_bytes(first.state, b), first.events);
            let all = sse_run(with_bytes(state, a + b), Seq::empty());
            &&& first.ok ==> all == second
            &&& !first.ok ==> !all.ok
        }),
{
    lemma_run_of_prefix(with_bytes(state, a), Seq::empty(), b);
    assert(with_bytes(with_bytes(state, a), b) =~= with_bytes(state, a + b));
}

/// Events that were read before do not change what is read next.
pub proof fn lemma_run_events(state: SseState, events: Seq<EventView>)
    ensures
        ({
            let r = sse_run(state, Seq::empty());
            sse_run(state, events) == (SseRun { events: events + r.events, ..r })
        }),
    decreases state.buffer.len(),
{
    let none = Seq::<EventView>::empty();
    let i = find_byte(state.buffer, 10);
    lemma_find_byte(state.buffer, 10);
    if i < state.buffer.len() {
        let line = line_content(state.buffer.take(i));
        let rest = state.buffer.skip(i + 1);
        if line.len() == 0 {
            if state.lines.len() > 0 || state.event is Some {
                let done = EventView { kind: state.event, data: join_spec(state.lines, "\n"@) };
                let s = SseState { buffer: rest, event: None, lines: Seq::empty() };
                lemma_run_events(s, events.push(done));
                lemma_run_events(s, none.push(done));
                let r = sse_run(s, none);
                assert(events.push(done) + r.events =~= events + (none.push(done) + r.events));
            } else {
                lemma_run_events(SseState { buffer: rest, ..state }, events);
            }
        } else if valid_utf8(line) {
            let next = after_text_line(state.event, state.lines, decode_utf8(line));
            lemma_run_events(SseState { buffer: rest, event: next.0, lines: next.1 }, events);
        } else {
            assert(events + none =~= events);
        }
    } else {
        assert(events + none =~= events);
    }
}

/// Reading a line of text that a line feed ends.
proof fn lemma_run_line(
    event: Option<Seq<char>>,
    lines: Seq<Seq<char>>,
    events: Seq<EventView>,
    line: Seq<char>,
    rest: Seq<char>,
)
    requires
        is_clean_line(line),
    ensures
        ({
            let s = SseState { buffer: encode_utf8(line + "\n"@ + rest), event, lines };
            sse_run(s, events) == if line.len() > 0 {
                let next = after_text_line(event, lines, line);
                sse_run(
                    SseState { buffer: encode_utf8(rest), event: next.0, lines: next.1 },
                    events,
                )
            } else if lines.len() > 0 || event is Some {
                sse_run(
                    SseState { buffer: encode_utf8(rest), event: None, lines: Seq::empty() },
                    events.push(EventView { kind: event, data: join_spec(lines, "\n"@) }),
                )
            } else {
                sse_run(SseState { buffer: encode_utf8(rest), event, lines }, events)
            }
        }),
{
    reveal_strlit("\n");
    assert("\n"@ =~= seq!['\n']);
    lemma_encode_ascii_char('\n');
    lemma_encode_concat(line + "\n"@, rest);
    lemma_encode_concat(line, "\n"@);
    assert forall|i: int| 0 <= i < line.len() implies #[trigger] line[i] as int != 10 && line[i] as int
        != 13 by {
        assert(!is_line_end(line[i]));
    }
    lemma_encode_ascii_byte(line, 10);
    lemma_encode_ascii_byte(line, 13);
    let l = encode_utf8(line);
    let b = encode_utf8(line + "\n"@ + rest);
    assert(b =~= l + seq![10u8] + encode_utf8(rest));
    assert forall|j: int| 0 <= j < l.len() implies #[trigger] b[j] != 10 by {
        assert(b[j] == l[j]);
    }
    lemma_find_byte_at(b, 10, l.len() as int);
    assert(b.take(l.len() as int) =~= l);
    assert(line_content(l) == l);
    assert(b.skip((l.len() + 1) as int) =~= encode_utf8(rest));
    encode_utf8_valid_utf8(line);
    encode_utf8_decode_utf8(line);
    if line.len() > 0 {
        assert(l.len() > 0) by {
            assert(encode_utf8(line).len() == encode_scalar(line[0] as u32).len() + encode_utf8(
                line.drop_first(),
            ).len());
        }
    } else {
        assert(l.len() == 0);
    }
}

proof fn lemma_data_lines_front(lines: Seq<Seq<char>>)
    requires
        lines.len() > 0,
    ensures
        data_lines(lines) == "data:"@ + lines[0] + "\n"@ + data_lines(lines.skip(1)),
    decreases lines.len(),
{
    if lines.len() == 1 {
        assert(lines.drop_last() =~= Seq::empty());
        assert(lines.skip(1) =~= Seq::empty());
        assert(data_lines(lines) =~= "data:"@ + lines[0] + "\n"@ + data_lines(lines.skip(1)));
    } else {
        lemma_data_lines_front(lines.drop_last());
        assert(lines.drop_last().skip(1) =~= lines.skip(1).drop_last());
        assert(data_lines(lines) =~= "data:"@ + lines[0] + "\n"@ + data_lines(lines.skip(1)));
    }
}

/// Reading the data lines of an event, the empty line behind them and what follows.
proof fn lemma_run_data_lines(
    event: Option<Seq<char>>,
    read: Seq<Seq<char>>,
    events: Seq<EventView>,
    lines: Seq<Seq<char>>,
    rest: Seq<char>,
)
    requires
        event is Some,
        forall|i: int| 0 <= i < lines.len() ==> is_clean_line(#[trigger] lines[i]),
        forall|i: int| 0 <= i < lines.len() ==> !" "@.is_prefix_of(#[trigger] lines[i]),
    ensures
        sse_run(
            SseState { buffer: encode_utf8(data_lines(lines) + "\n"@ + rest), event, lines: read },
            events,
        ) == sse_run(
            SseState { buffer: encode_utf8(rest), event: None, lines: Seq::empty() },
            events.push(EventView { kind: event, data: join_spec(read + lines, "\n"@) }),
        ),
    decreases lines.len(),
{
    if lines.len() == 0 {
        assert(data_lines(lines) + "\n"@ + rest =~= Seq::<char>::empty() + "\n"@ + rest);
        lemma_run_line(event, read, events, Seq::empty(), rest);
        assert(read + lines =~= read);
    } else {
        reveal_strlit("data:");
        reveal_strlit("event:");
        lemma_data_lines_front(lines);
        let line = "data:"@ + lines[0];
        let tail = lines.skip(1);
        assert(is_clean_line(lines[0]));
        assert forall|j: int| 0 <= j < line.len() implies !is_line_end(#[trigger] line[j]) by {
            if j >= 5 {
                assert(line[j] == lines[0][j - 5]);
            }
        }
        assert(data_lines(lines) + "\n"@ + rest =~= line + "\n"@ + (data_lines(tail) + "\n"@ + rest));
        lemma_run_line(event, read, events, line, data_lines(tail) + "\n"@ + rest);
        assert("data:"@ =~= line.take(5));
        assert(line[0] == 'd' && "event:"@[0] == 'e');
        assert(!"event:"@.is_prefix_of(line)) by {
            if "event:"@.is_prefix_of(line) {
                assert("event:"@[0] == line.take(6)[0]);
            }
        }
        assert(line.skip(5) =~= lines[0]);
        assert forall|i: int| 0 <= i < tail.len() implies is_clean_line(#[trigger] tail[i]) by {
            assert(tail[i] == lines[i + 1]);
        }
        assert forall|i: int| 0 <= i < tail.len() implies !" "@.is_prefix_of(#[trigger] tail[i]) by {
            assert(tail[i] == lines[i + 1]);
        }
        lemma_run_data_lines(event, read.push(lines[0]), events, tail, rest);
        assert(read.push(lines[0]) + tail =~= read + lines);
    }
}

/// A reader between two events.
pub open spec fn idle() -> SseState {
    SseState { buffer: Seq::empty(), event: None, lines: Seq::empty() }
}

/// What a server writes, a client reads: the frame of a text is read as one data event with
/// the lines of the text, joined by line feeds. A line that begins with a space loses it on
/// the way, so no line does here.
pub proof fn law_data_frame_reads_back(text: Seq<char>)
    requires
        forall|i: int|
            0 <= i < lines_spec(text).len() ==> !" "@.is_prefix_of(#[trigger] lines_spec(text)[i]),
    ensures
        sse_run(with_bytes(idle(), encode_utf8(raw_data_frame(text))), Seq::empty()) == (SseRun {
            state: idle(),
            events: seq![EventView { kind: Some("data"@), data: join_spec(lines_spec(text), "\n"@) }],
            ok: true,
        }),
{
    let none = Seq::<EventView>::empty();
    let no_lines = Seq::<Seq<char>>::empty();
    let lines = lines_spec(text);
    lemma_lines_clean(text);
    reveal_strlit("event: data\n");
    reveal_strlit("event: data");
    reveal_strlit("event:");
    reveal_strlit("data:");
    reveal_strlit("data");
    reveal_strlit("\n");
    let first = "event: data"@;
    let body = data_lines(lines) + "\n"@;
    assert(raw_data_frame(text) =~= first + "\n"@ + body);
    assert(with_bytes(idle(), encode_utf8(raw_data_frame(text))) =~= (SseState {
        buffer: encode_utf8(first + "\n"@ + body),
        event: None,
        lines: no_lines,
    }));
    lemma_run_line(None, no_lines, none, first, body);
    assert("event:"@ =~= first.take(6));
    let name = first.skip(6);
    assert(name.len() == 5 && name[0] == ' ' && name[1] == 'd' && name[4] == 'a');
    lemma_trim_start_at(name, 1);
    let t = name.skip(1);
    assert(t[3] == 'a');
    lemma_trim_end_at(t, 4);
    assert(trim_spec(name) =~= "data"@);
    assert(body =~= data_lines(lines) + "\n"@ + Seq::<char>::empty());
    lemma_run_data_lines(Some("data"@), no_lines, none, lines, Seq::empty());
    assert(no_lines + lines =~= lines);
    assert(encode_utf8(Seq::<char>::empty()) =~= Seq::<u8>::empty());
    assert(none.push(EventView { kind: Some("data"@), data: join_spec(lines, "\n"@) }) =~= seq![
        EventView { kind: Some("data"@), data: join_spec(lines, "\n"@) },
    ]);
}

/// A binary message is read back as one data event with its base64 text.
pub proof fn law_binary_message_reads_back(data: Seq<u8>)
    requires
        is_base64(base64_text(data)),
    ensures
        sse_run(
            with_bytes(idle(), encode_utf8(raw_data_frame(message_text(data, true, false)))),
            Seq::empty(),
        ) == (SseRun {
            state: idle(),
            events: seq![EventView { kind: Some("data"@), data: base64_text(data) }],
            ok: true,
        }),
{
    let text = base64_text(data);
    reveal_strlit(" ");
    assert forall|j: int| 0 <= j < text.len() implies !is_line_end(#[trigger] text[j]) by {
        assert(is_base64_char(text[j]));
    }
    lemma_one_line(text);
    assert(!" "@.is_prefix_of(text)) by {
        if " "@.is_prefix_of(text) {
            assert(" "@[0] == text.take(1)[0]);
            assert(is_base64_char(text[0]));
        }
    }
    law_data_frame_reads_back(text);
    assert(join_spec(seq![text], "\n"@) =~= text);
}

/// The data events of the messages, one for each.
pub open spec fn message_events(messages: Seq<Seq<u8>>, is_binary: bool) -> Seq<EventView> {
    messages.map_values(
        |m: Seq<u8>|
            EventView {
                kind: Some("data"@),
                data: join_spec(lines_spec(message_text(m, is_binary, false)), "\n"@),
            },
    )
}

/// Whether no line of a text begins with a space.
pub open spec fn no_leading_space(text: Seq<char>) -> bool {
    forall|i: int|
        0 <= i < lines_spec(text).len() ==> !" "@.is_prefix_of(#[trigger] lines_spec(text)[i])
}

/// The frames of a batch are read back as one data event for each message, in order.
pub proof fn law_batch_reads_back(messages: Seq<Seq<u8>>, is_binary: bool)
    requires
        forall|i: int|
            0 <= i < messages.len() ==> no_leading_space(
                message_text(#[trigger] messages[i], is_binary, false),
            ),
    ensures
        sse_run(with_bytes(idle(), encode_utf8(frame_each(messages, is_binary))), Seq::empty()) == (
        SseRun { state: idle(), events: message_events(messages, is_binary), ok: true }),
    decreases messages.len(),
{
    let none = Seq::<EventView>::empty();
    if messages.len() == 0 {
        assert(encode_utf8(Seq::<char>::empty()) =~= Seq::<u8>::empty());
        assert(with_bytes(idle(), Seq::empty()) =~= idle());
        assert(message_events(messages, is_binary) =~= none);
    } else {
        let most = messages.drop_last();
        let a = frame_each(most, is_binary);
        let text = message_text(messages.last(), is_binary, false);
        let b = raw_data_frame(text);
        assert forall|i: int| 0 <= i < most.len() implies no_leading_space(
            message_text(#[trigger] most[i], is_binary, false),
        ) by {
            assert(most[i] == messages[i]);
        }
        law_batch_reads_back(most, is_binary);
        assert(no_leading_space(message_text(messages[messages.len() - 1], is_binary, false)));
        law_data_frame_reads_back(text);
        lemma_encode_concat(a, b);
        let first = sse_run(with_bytes(idle(), encode_utf8(a)), none);
        lemma_run_of_prefix(with_bytes(idle(), encode_utf8(a)), none, encode_utf8(b));
        assert(with_bytes(with_bytes(idle(), encode_utf8(a)), encode_utf8(b)) =~= with_bytes(
            idle(),
            encode_utf8(a + b),
        ));
        lemma_run_events(with_bytes(idle(), encode_utf8(b)), first.events);
        assert(message_events(messages, is_binary) =~= message_events(most, is_binary) + seq![
            EventView { kind: Some("data"@), data: join_spec(lines_spec(text), "\n"@) },
        ]);
    }
}

/// The text of a JSON batch: one array of all messages.
pub open spec fn json_batch_text(messages: Seq<Seq<u8>>) -> Seq<char> {
    "["@ + join_spec(lossy_texts(messages), ","@) + "]"@
}

proof fn lemma_join_one_line(parts: Seq<Seq<char>>)
    requires
        forall|i: int| 0 <= i < parts.len() ==> is_one_line(#[trigger] parts[i]),
    ensures
        is_one_line(join_spec(parts, ","@)),
    decreases parts.len(),
{
    reveal_strlit(",");
    if parts.len() >= 1 {
        assert(is_one_line(parts[parts.len() - 1]));
        assert(is_one_line(parts[0]));
        let most = parts.drop_last();
        assert forall|i: int| 0 <= i < most.len() implies is_one_line(#[trigger] most[i]) by {
            assert(most[i] == parts[i]);
        }
        lemma_join_one_line(most);
    }
}

/// The frame of a JSON batch, whose messages are on one line each, is read back as one data
/// event with the array of all messages.
pub proof fn law_json_batch_reads_back(messages: Seq<Seq<u8>>)
    requires
        messages.len() > 0,
        forall|i: int| 0 <= i < messages.len() ==> is_one_line(lossy_text(#[trigger] messages[i])),
    ensures
        sse_run(
            with_bytes(idle(), encode_utf8(data_frames(messages, false, true))),
            Seq::empty(),
        ) == (SseRun {
            state: idle(),
            events: seq![EventView { kind: Some("data"@), data: json_batch_text(messages) }],
            ok: true,
        }),
{
    let text = json_batch_text(messages);
    let parts = lossy_texts(messages);
    reveal_strlit("[");
    reveal_strlit("]");
    reveal_strlit(" ");
    assert forall|i: int| 0 <= i < parts.len() implies is_one_line(#[trigger] parts[i]) by {
        assert(is_one_line(lossy_text(messages[i])));
    }
    lemma_join_one_line(parts);
    let inner = join_spec(parts, ","@);
    assert forall|j: int| 0 <= j < text.len() implies !is_line_end(#[trigger] text[j]) by {
        if 0 < j < text.len() - 1 {
            assert(text[j] == inner[j - 1]);
        }
    }
    lemma_one_line(text);
    assert(!" "@.is_prefix_of(text)) by {
        if " "@.is_prefix_of(text) {
            assert(" "@[0] == text.take(1)[0]);
            assert(text[0] == '[');
        }
    }
    law_data_frame_reads_back(text);
    assert(join_spec(seq![text], "\n"@) =~= text);
}

/// The control frame of a payload on one line is read as one control event with the payload.
pub proof fn law_control_frame_reads_back(json: Seq<char>)
    requires
        is_one_line(json),
        json.len() > 0,
        json[0] == '{',
    ensures
        sse_run(
            with_bytes(idle(), encode_utf8("event: control\ndata:"@ + json + "\n\n"@)),
            Seq::empty(),
        ) == (SseRun {
            state: idle(),
            events: seq![EventView { kind: Some("control"@), data: json }],
            ok: true,
        }),
{
    let none = Seq::<EventView>::empty();
    let no_lines = Seq::<Seq<char>>::empty();
    let lines = seq![json];
    reveal_strlit("event: control\ndata:");
    reveal_strlit("event: control");
    reveal_strlit("event:");
    reveal_strlit("data:");
    reveal_strlit("control");
    reveal_strlit("\n");
    reveal_strlit("\n\n");
    reveal_strlit(" ");
    let first = "event: control"@;
    let body = data_lines(lines) + "\n"@;
    assert(lines.drop_last() =~= no_lines);
    assert(data_lines(no_lines) =~= Seq::<char>::empty());
    assert(lines.last() == json);
    assert(data_lines(lines) =~= "data:"@ + json + "\n"@);
    let frame = "event: control\ndata:"@ + json + "\n\n"@;
    assert(frame =~= first + "\n"@ + body);
    assert(with_bytes(idle(), encode_utf8(frame)) =~= (SseState {
        buffer: encode_utf8(first + "\n"@ + body),
        event: None,
        lines: no_lines,
    }));
    lemma_run_line(None, no_lines, none, first, body);
    assert("event:"@ =~= first.take(6));
    let name = first.skip(6);
    assert(name.len() == 8 && name[0] == ' ' && name[1] == 'c' && name[7] == 'l');
    lemma_trim_start_at(name, 1);
    let t = name.skip(1);
    assert(t[6] == 'l');
    lemma_trim_end_at(t, 7);
    assert(trim_spec(name) =~= "control"@);
    assert(is_clean_line(lines[0]));
    assert(!" "@.is_prefix_of(json)) by {
        if " "@.is_prefix_of(json) {
            assert(" "@[0] == json.take(1)[0]);
        }
    }
    assert(body =~= data_lines(lines) + "\n"@ + Seq::<char>::empty());
    lemma_run_data_lines(Some("control"@), no_lines, none, lines, Seq::empty());
    assert(no_lines + lines =~= lines);
    assert(join_spec(lines, "\n"@) =~= json);
    assert(encode_utf8(Seq::<char>::empty()) =~= Seq::<u8>::empty());
    assert(none.push(EventView { kind: Some("control"@), data: json }) =~= seq![
        EventView { kind: Some("control"@), data: json },
    ]);
}

} // verus!
