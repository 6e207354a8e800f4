//! Collecting a live read from server-sent events.

use axum::http::HeaderMap;
use vstd::prelude::*;
use vstd::utf8::encode_utf8;
use crate::client::error::Error;
use crate::client::model::{ChunkView, ReadChunk, ReadResponse, chunk_views};
use crate::client::protocol::STREAM_SSE_DATA_ENCODING;
use crate::client::sse::{EventView, ParsedEvent, SseParser, event_views, idle};
use crate::encoding::{base64_bytes, base64_decode};
use crate::http::{field_text, header_fields, header_value};
use crate::text::{ascii_lower_spec, chars_of, joined, same, same_ignore_ascii_case, text_opt};

verus! {

/// The payload of a control event.
#[derive(Debug, Clone, PartialEq, Eq)]
pub struct ControlEvent {
    pub stream_next_offset: String,
    pub stream_cursor: Option<String>,
    pub up_to_date: bool,
    pub stream_closed: bool,
}

/// What a control event says.
#[verifier::ext_equal]
pub struct ControlView {
    pub next_offset: Seq<char>,
    pub cursor: Option<Seq<char>>,
    pub up_to_date: bool,
    pub closed: bool,
}

impl View for ControlEvent {
    type V = ControlView;

    open spec fn view(&self) -> ControlView {
        ControlView {
            next_offset: self.stream_next_offset@,
            cursor: text_opt(self.stream_cursor),
            up_to_date: self.up_to_date,
            closed: self.stream_closed,
        }
    }
}

/// What reading the data of an event as a control payload gave: the payload, or the message
/// of the error.
pub open spec fn control_view(control: Result<ControlEvent, String>) -> Result<ControlView, Seq<char>> {
    match control {
        Ok(c) => Ok(c@),
        Err(m) => Err(m@),
    }
}

/// What each of the readings gave.
pub open spec fn control_views(controls: Seq<Result<ControlEvent, String>>) -> Seq<
    Result<ControlView, Seq<char>>,
> {
    controls.map_values(|c: Result<ControlEvent, String>| control_view(c))
}

/// How a live read is collected.
#[verifier::ext_equal]
pub struct CollectRules {
    pub base64: bool,
    pub max_chunks: Option<usize>,
    pub wait_for_up_to_date: bool,
}

/// What has been collected.
#[verifier::ext_equal]
pub struct Collected {
    pub chunks: Seq<ChunkView>,
    pub next_offset: Option<Seq<char>>,
    pub cursor: Option<Seq<char>>,
    pub up_to_date: bool,
    pub stream_closed: bool,
}

/// Why collecting fails.
pub enum CollectFailure {
    /// Data is not base64; the decoder's message.
    Base64(Seq<char>),
    /// A control event's payload cannot be read; the reader's message.
    Control(Seq<char>),
}

/// What an event leads to.
pub enum Step {
    /// Go on with the next event.
    Next(Collected),
    /// Look at no more events of this piece.
    Stop(Collected),
    Fail(CollectFailure),
}

/// A text without its line endings.
pub open spec fn without_line_ends(s: Seq<char>) -> Seq<char> {
    s.filter(|c: char| c != '\n' && c != '\r')
}

/// Whether as many chunks have been collected as are wanted.
pub open spec fn limit_reached(rules: CollectRules, state: Collected) -> bool {
    rules.max_chunks matches Some(limit) && state.chunks.len() >= limit
}

/// Whether the read is complete.
pub open spec fn complete(rules: CollectRules, state: Collected) -> bool {
    state.stream_closed || (rules.wait_for_up_to_date && state.up_to_date)
}

/// The state with one more chunk, at the last known offset.
pub open spec fn with_chunk(state: Collected, data: Seq<u8>) -> Collected {
    let at = match state.next_offset {
        Some(o) => o,
        None => "-1"@,
    };
    Collected { chunks: state.chunks.push(ChunkView { data, next_offset: at }), ..state }
}

/// The state after a control event.
pub open spec fn with_control(state: Collected, control: ControlView) -> Collected {
    Collected {
        next_offset: Some(control.next_offset),
        cursor: control.cursor,
        up_to_date: control.up_to_date || control.closed,
        stream_closed: control.closed,
        ..state
    }
}

/// The type of an event: data where the stream gave none.
pub open spec fn kind_of(event: EventView) -> Seq<char> {
    match event.kind {
        Some(k) => k,
        None => "data"@,
    }
}

/// What an event leads to. Data adds a chunk, control moves the offset, and events of other
/// types are ignored.
pub open spec fn collect_step(
    rules: CollectRules,
    state: Collected,
    event: EventView,
    control: Result<ControlView, Seq<char>>,
) -> Step {
    if kind_of(event) == "data"@ {
        let data = if rules.base64 {
            base64_bytes(without_line_ends(event.data))
        } else {
            Ok(encode_utf8(event.data))
        };
        match data {
            Ok(d) => {
                let next = with_chunk(state, d);
                if limit_reached(rules, next) {
                    Step::Stop(next)
                } else {
                    Step::Next(next)
                }
            },
            Err(m) => Step::Fail(CollectFailure::Base64(m)),
        }
    } else if kind_of(event) == "control"@ {
        match control {
            Ok(c) => {
                let next = with_control(state, c);
                if complete(rules, next) {
                    Step::Stop(next)
                } else {
                    Step::Next(next)
                }
            },
            Err(m) => Step::Fail(CollectFailure::Control(m)),
        }
    } else {
        Step::Next(state)
    }
}

/// What the events of a piece lead to: the state, and the failure where there is one.
pub open spec fn collect_all(
    rules: CollectRules,
    state: Collected,
    events: Seq<EventView>,
    controls: Seq<Result<ControlView, Seq<char>>>,
) -> (Collected, Option<CollectFailure>)
    decreases events.len(),
{
    if events.len() == 0 {
        (state, None)
    } else {
        match collect_step(rules, state, events[0], controls[0]) {
            Step::Next(next) => collect_all(rules, next, events.skip(1), controls.skip(1)),
            Step::Stop(next) => (next, None),
            Step::Fail(failure) => (state, Some(failure)),
        }
    }
}

/// Whether an error is the one that a failure comes to.
pub open spec fn is_failure(e: Error, failure: CollectFailure) -> bool {
    match failure {
        CollectFailure::Base64(m) => e matches Error::Base64(t) && t@ == m,
        CollectFailure::Control(m) => e matches Error::Parse(t) && t@
            == "invalid SSE control event JSON: "@ + m,
    }
}

fn strip_line_ends(s: &str) -> (r: String)
    ensures
        r@ == without_line_ends(s@),
{
    let v = chars_of(s);
    let mut r = String::new();
    let mut i: usize = 0;
    let ghost keep = |c: char| c != '\n' && c != '\r';
    while i < v.len()
        invariant
            i <= v@.len(),
            v@ == s@,
            keep == (|c: char| c != '\n' && c != '\r'),
            r@ == s@.take(i as int).filter(keep),
        decreases v.len() - i,
    {
        let c = v[i];
        proof {
            reveal(Seq::filter);
            assert(s@.take(i + 1).drop_last() =~= s@.take(i as int));
        }
        if c != '\n' && c != '\r' {
            r.push(c);
        }
        i += 1;
    }
    assert(s@.take(s@.len() as int) =~= s@);
    r
}

/// A live read that is being collected.
#[derive(Debug)]
pub struct SseCollector {
    pub base64_mode: bool,
    pub max_chunks: Option<usize>,
    pub wait_for_up_to_date: bool,
    pub parser: SseParser,
    pub chunks: Vec<ReadChunk>,
    pub next_offset: Option<String>,
    pub cursor: Option<String>,
    pub up_to_date: bool,
    pub stream_closed: bool,
}

/// How a response with these fields is read.
pub open spec fn rules_for(
    all: Map<Seq<char>, Seq<Seq<u8>>>,
    max_chunks: Option<usize>,
    wait_for_up_to_date: bool,
) -> CollectRules {
    CollectRules {
        base64: field_text(all, "stream-sse-data-encoding"@) matches Some(v) && ascii_lower_spec(v)
            == ascii_lower_spec("base64"@),
        max_chunks,
        wait_for_up_to_date,
    }
}

/// What has been collected before the first event.
pub open spec fn nothing_collected() -> Collected {
    Collected {
        chunks: Seq::empty(),
        next_offset: None,
        cursor: None,
        up_to_date: false,
        stream_closed: false,
    }
}

/// Whether a result is the read that was collected.
pub open spec fn is_finished(
    r: Result<ReadResponse, Error>,
    c: SseCollector,
    content_type: Option<String>,
    etag: Option<String>,
) -> bool {
    match c.next_offset {
        Some(o) => r == Ok::<ReadResponse, Error>(
            ReadResponse {
                status: 200,
                next_offset: o,
                up_to_date: c.up_to_date,
                stream_closed: c.stream_closed,
                cursor: c.cursor,
                content_type,
                etag,
                chunks: c.chunks,
                payload: None,
            },
        ),
        None => r matches Err(Error::Parse(m)) && m@
            == "missing SSE control event with streamNextOffset"@,
    }
}

impl SseCollector {
    /// How the read is collected.
    pub open spec fn rules(self) -> CollectRules {
        CollectRules {
            base64: self.base64_mode,
            max_chunks: self.max_chunks,
            wait_for_up_to_date: self.wait_for_up_to_date,
        }
    }

    /// What has been collected.
    pub open spec fn collected(self) -> Collected {
        Collected {
            chunks: chunk_views(self.chunks@),
            next_offset: text_opt(self.next_offset),
            cursor: text_opt(self.cursor),
            up_to_date: self.up_to_date,
            stream_closed: self.stream_closed,
        }
    }

    /// A collector for a response with these headers. Data is base64 where they say so.
    pub fn new(headers: &HeaderMap, max_chunks: Option<usize>, wait_for_up_to_date: bool) -> (r: Self)
        ensures
            r.rules() == rules_for(header_fields(*headers), max_chunks, wait_for_up_to_date),
            r.collected() == nothing_collected(),
            r.parser@ == idle(),
    {
        let base64_mode = match header_value(headers, STREAM_SSE_DATA_ENCODING) {
            Some(value) => same_ignore_ascii_case(value.as_str(), "base64"),
            None => false,
        };
        let r = SseCollector {
            base64_mode,
            max_chunks,
            wait_for_up_to_date,
            parser: SseParser::new(),
            chunks: Vec::new(),
            next_offset: None,
            cursor: None,
            up_to_date: false,
            stream_closed: false,
        };
        assert(chunk_views(r.chunks@) =~= Seq::empty());
        r
    }

    fn at_limit(&self) -> (r: bool)
        ensures
            r == limit_reached(self.rules(), self.collected()),
    {
        match self.max_chunks {
            Some(limit) => self.chunks.len() >= limit,
            None => false,
        }
    }

    /// Takes an event and what reading its data as a control payload gave. Tells whether no
    /// more events of this piece are wanted.
    pub fn on_event(&mut self, event: &ParsedEvent, control: &Result<ControlEvent, String>) -> (r:
        Result<bool, Error>)
        ensures
            final(self).rules() == old(self).rules(),
            final(self).parser == old(self).parser,
            match collect_step(
                old(self).rules(),
                old(self).collected(),
                event@,
                control_view(*control),
            ) {
                Step::Next(next) => r matches Ok(false) && final(self).collected() == next,
                Step::Stop(next) => r matches Ok(true) && final(self).collected() == next,
                Step::Fail(failure) => r matches Err(e) && is_failure(e, failure)
                    && final(self).collected() == old(self).collected(),
            },
    {
        let kind = match &event.kind {
            Some(k) => k.as_str(),
            None => "data",
        };
        if same(kind, "data") {
            let data = if self.base64_mode {
                let flattened = strip_line_ends(event.data.as_str());
                match base64_decode(flattened.as_str()) {
                    Ok(data) => data,
                    Err(m) => return Err(Error::Base64(m)),
                }
            } else {
                event.data.as_str().as_bytes_vec()
            };
            let next_offset = match &self.next_offset {
                Some(o) => o.clone(),
                None => "-1".to_owned(),
            };
            let ghost before = self.chunks@;
            let chunk = ReadChunk { data, next_offset };
            let ghost c = chunk@;
            self.chunks.push(chunk);
            proof {
                assert(chunk_views(self.chunks@) =~= chunk_views(before).push(c));
            }
            Ok(self.at_limit())
        } else if same(kind, "control") {
            proof {
                reveal_strlit("data");
                reveal_strlit("control");
                assert("data"@.len() == 4 && "control"@.len() == 7);
            }
            match control {
                Ok(c) => {
                    self.next_offset = Some(c.stream_next_offset.clone());
                    self.cursor = c.stream_cursor.clone();
                    self.up_to_date = c.up_to_date || c.stream_closed;
                    self.stream_closed = c.stream_closed;
                    Ok(self.stream_closed || (self.wait_for_up_to_date && self.up_to_date))
                },
                Err(m) => Err(
                    Error::Parse(joined("invalid SSE control event JSON: ", m.as_str())),
                ),
            }
        } else {
            Ok(false)
        }
    }

    /// Takes the events of a piece, each with what reading its data as a control payload
    /// gave.
    pub fn on_events(
        &mut self,
        events: &Vec<ParsedEvent>,
        controls: &Vec<Result<ControlEvent, String>>,
    ) -> (r: Result<(), Error>)
        requires
            events@.len() == controls@.len(),
        ensures
            final(self).rules() == old(self).rules(),
            final(self).parser == old(self).parser,
            ({
                let all = collect_all(
                    old(self).rules(),
                    old(self).collected(),
                    event_views(events@),
                    control_views(controls@),
                );
                &&& final(self).collected() == all.0
                &&& match all.1 {
                    None => r is Ok,
                    Some(failure) => r matches Err(e) && is_failure(e, failure),
                }
            }),
    {
        let ghost rules = self.rules();
        let ghost es = event_views(events@);
        let ghost cs = control_views(controls@);
        let ghost all = collect_all(rules, self.collected(), es, cs);
        let mut i: usize = 0;
        assert(es.skip(0) =~= es);
        assert(cs.skip(0) =~= cs);
        while i < events.len()
            invariant
                i <= events@.len(),
                events@.len() == controls@.len(),
                es == event_views(events@),
                cs == control_views(controls@),
                self.rules() == rules,
                rules == old(self).rules(),
                self.parser == old(self).parser,
                all == collect_all(old(self).rules(), old(self).collected(), es, cs),
                all == collect_all(rules, self.collected(), es.skip(i as int), cs.skip(i as int)),
            decreases events.len() - i,
        {
            let ghost es_here = es.skip(i as int);
            let ghost cs_here = cs.skip(i as int);
            proof {
                assert(es_here[0] == events@[i as int]@);
                assert(cs_here[0] == control_view(controls@[i as int]));
                assert(es_here.skip(1) =~= es.skip(i + 1));
                assert(cs_here.skip(1) =~= cs.skip(i + 1));
            }
            match self.on_event(&events[i], &controls[i]) {
                Ok(stop) => {
                    if stop {
                        return Ok(());
                    }
                },
                Err(e) => return Err(e),
            }
            i += 1;
        }
        Ok(())
    }

    /// Whether the read needs no more pieces.
    pub fn is_done(&self) -> (r: bool)
        ensures
            r == (complete(self.rules(), self.collected()) || limit_reached(
                self.rules(),
                self.collected(),
            )),
    {
        self.stream_closed || (self.wait_for_up_to_date && self.up_to_date) || self.at_limit()
    }

    /// The collected read. It needs an offset, which a control event gives.
    pub fn finish(self, content_type: Option<String>, etag: Option<String>) -> (r: Result<
        ReadResponse,
        Error,
    >)
        ensures
            is_finished(r, self, content_type, etag),
    {
        match self.next_offset {
            Some(next_offset) => Ok(
                ReadResponse {
                    status: 200,
                    next_offset,
                    up_to_date: self.up_to_date,
                    stream_closed: self.stream_closed,
                    cursor: self.cursor,
                    content_type,
                    etag,
                    chunks: self.chunks,
                    payload: None,
                },
            ),
            None => Err(Error::parse("missing SSE control event with streamNextOffset")),
        }
    }
}

/// A read never collects more chunks than it was asked for, where it was asked for some.
pub proof fn law_chunk_limit_is_kept(
    rules: CollectRules,
    state: Collected,
    events: Seq<EventView>,
    controls: Seq<Result<ControlView, Seq<char>>>,
)
    requires
        rules.max_chunks matches Some(limit) && state.chunks.len() < limit,
        events.len() == controls.len(),
    ensures
        collect_all(rules, state, events, controls).0.chunks.len() <= rules.max_chunks.unwrap(),
    decreases events.len(),
{
    if events.len() > 0 {
        if let Step::Next(next) = collect_step(rules, state, events[0], controls[0]) {
            law_chunk_limit_is_kept(rules, next, events.skip(1), controls.skip(1));
        }
    }
}

/// Chunks that have been collected stay as they are.
pub proof fn law_chunks_are_only_added(
    rules: CollectRules,
    state: Collected,
    events: Seq<EventView>,
    controls: Seq<Result<ControlView, Seq<char>>>,
)
    requires
        events.len() == controls.len(),
    ensures
        state.chunks.is_prefix_of(collect_all(rules, state, events, controls).0.chunks),
    decreases events.len(),
{
    let end = collect_all(rules, state, events, controls).0.chunks;
    if events.len() > 0 {
        match collect_step(rules, state, events[0], controls[0]) {
            Step::Next(next) => {
                law_chunks_are_only_added(rules, next, events.skip(1), controls.skip(1));
                assert(state.chunks.is_prefix_of(next.chunks)) by {
                    assert(state.chunks =~= next.chunks.take(state.chunks.len() as int));
                }
                assert(state.chunks =~= end.take(state.chunks.len() as int));
            },
            _ => {
                assert(state.chunks =~= end.take(state.chunks.len() as int));
            },
        }
    } else {
        assert(state.chunks =~= end.take(state.chunks.len() as int));
    }
}

} // verus!
