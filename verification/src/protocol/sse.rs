//! SSE (Server-Sent Events) protocol types and helpers.
//!
//! Frames carry `data:<value>` without the optional space after the colon.

use vstd::prelude::*;
use crate::encoding::{
    base64_bytes, base64_encode, base64_text, decoded, is_base64, lossy_text, utf8_lossy,
};
use crate::json::{is_one_line, json_quote, json_string};
use crate::protocol::json_mode::contents;
use crate::text::{chars_of, join_spec, joined3, same, starts_with, string_of, text_opt, texts};

verus! {

/// JSON payload for `event: control` SSE events.
#[derive(Debug)]
pub struct ControlPayload {
    /// Current tail position (always present).
    pub stream_next_offset: String,
    /// Cursor for CDN collapsing (present when stream is open).
    pub stream_cursor: Option<String>,
    /// True when client has caught up with all available data.
    pub up_to_date: Option<bool>,
    /// True when stream is closed and all data has been sent.
    pub stream_closed: Option<bool>,
}

/// A truth value in JSON.
pub open spec fn json_bool(b: bool) -> Seq<char> {
    if b {
        "true"@
    } else {
        "false"@
    }
}

/// An optional truth value as a member of a JSON object that other members precede.
pub open spec fn bool_member(name: Seq<char>, value: Option<bool>) -> Seq<char> {
    match value {
        Some(b) => ",\""@ + name + "\":"@ + json_bool(b),
        None => Seq::empty(),
    }
}

/// Control data as a JSON object: camel-case names, absent fields left out.
pub open spec fn control_json(
    next_offset: Seq<char>,
    cursor: Option<Seq<char>>,
    up_to_date: Option<bool>,
    closed: Option<bool>,
) -> Seq<char> {
    "{\"streamNextOffset\":"@ + json_string(next_offset) + (match cursor {
        Some(c) => ",\"streamCursor\":"@ + json_string(c),
        None => Seq::empty(),
    }) + bool_member("upToDate"@, up_to_date) + bool_member("streamClosed"@, closed) + "}"@
}

impl ControlPayload {
    /// The payload as a JSON object.
    pub open spec fn json(self) -> Seq<char> {
        control_json(
            self.stream_next_offset@,
            text_opt(self.stream_cursor),
            self.up_to_date,
            self.stream_closed,
        )
    }

    /// The payload as a JSON object: camel-case names, absent fields left out.
    pub fn to_json(&self) -> (r: String)
        ensures
            r@ == self.json(),
            is_one_line(r@),
    {
        let mut out = "{\"streamNextOffset\":".to_owned();
        proof {
            reveal_strlit("{\"streamNextOffset\":");
            reveal_strlit(",\"streamCursor\":");
            reveal_strlit("}");
            reveal_strlit("upToDate");
            reveal_strlit("streamClosed");
        }
        out.append(json_quote(self.stream_next_offset.as_str()).as_str());
        let ghost a = out@;
        match &self.stream_cursor {
            Some(c) => {
                let mut member = ",\"streamCursor\":".to_owned();
                member.append(json_quote(c.as_str()).as_str());
                out.append(member.as_str());
            },
            None => {
                assert(a + Seq::<char>::empty() =~= a);
            },
        }
        out.append(bool_member_text("upToDate", self.up_to_date).as_str());
        out.append(bool_member_text("streamClosed", self.stream_closed).as_str());
        out.append("}");
        out
    }
}

/// An optional truth value as a member of a JSON object that other members precede.
fn bool_member_text(name: &'static str, value: Option<bool>) -> (r: String)
    requires
        is_one_line(name@),
    ensures
        r@ == bool_member(name@, value),
        is_one_line(r@),
{
    proof {
        reveal_strlit(",\"");
        reveal_strlit("\":");
        reveal_strlit("true");
        reveal_strlit("false");
    }
    match value {
        Some(b) => {
            let mut out = joined3(",\"", name, "\":");
            if b {
                out.append("true");
            } else {
                out.append("false");
            }
            out
        },
        None => String::new(),
    }
}

/// The `event: control` frame around control data.
pub open spec fn control_frame(json: Seq<char>) -> Seq<char> {
    "event: control\ndata:"@ + json + "\n\n"@
}

/// Format an `event: control` SSE frame from a typed payload.
///
/// Returns a raw SSE frame string ready to be written to the wire.
#[must_use]
pub fn format_control_frame(payload: &ControlPayload) -> (r: String)
    ensures
        r@ == control_frame(payload.json()),
        is_one_line(payload.json()),
{
    let json = payload.to_json();
    joined3("event: control\ndata:", json.as_str(), "\n\n")
}

/// Whether `c` ends a line.
pub open spec fn is_line_end(c: char) -> bool {
    c == '\r' || c == '\n'
}

/// How many characters of `s` stand before the first line ending.
pub open spec fn line_len(s: Seq<char>) -> int
    decreases s.len(),
{
    if s.len() == 0 || is_line_end(s[0]) {
        0
    } else {
        1 + line_len(s.skip(1))
    }
}

/// What follows the line ending at the front of `s`: `\r\n` counts as one.
pub open spec fn after_line_end(s: Seq<char>) -> Seq<char> {
    if s.len() >= 2 && s[0] == '\r' && s[1] == '\n' {
        s.skip(2)
    } else {
        s.skip(1)
    }
}

/// The lines of a text, where `\r\n`, `\r` and `\n` each end a line.
pub open spec fn lines_spec(s: Seq<char>) -> Seq<Seq<char>>
    decreases s.len(),
{
    let n = line_len(s);
    if n == s.len() {
        seq![s]
    } else {
        proof {
            lemma_line_len(s);
        }
        seq![s.take(n)] + lines_spec(after_line_end(s.skip(n)))
    }
}

pub proof fn lemma_line_len_at(s: Seq<char>, i: int)
    requires
        0 <= i <= s.len(),
        forall|j: int| 0 <= j < i ==> !is_line_end(#[trigger] s[j]),
        i == s.len() || is_line_end(s[i]),
    ensures
        line_len(s) == i,
    decreases i,
{
    if i > 0 {
        let t = s.skip(1);
        assert forall|j: int| 0 <= j < i - 1 implies !is_line_end(#[trigger] t[j]) by {
            assert(t[j] == s[j + 1]);
        }
        lemma_line_len_at(t, i - 1);
    }
}

pub proof fn lemma_line_len(s: Seq<char>)
    ensures
        0 <= line_len(s) <= s.len(),
        forall|j: int| 0 <= j < line_len(s) ==> !is_line_end(#[trigger] s[j]),
        line_len(s) < s.len() ==> is_line_end(s[line_len(s)]),
    decreases s.len(),
{
    if s.len() == 0 || is_line_end(s[0]) {
    } else {
        let t = s.skip(1);
        lemma_line_len(t);
        assert forall|j: int| 0 <= j < line_len(s) implies !is_line_end(#[trigger] s[j]) by {
            if j > 0 {
                assert(s[j] == t[j - 1]);
            }
        }
    }
}

/// Split text on all line-ending forms: `\r\n`, `\r`, and `\n`.
pub fn split_lines(text: &str) -> (lines: Vec<String>)
    ensures
        texts(lines@) == lines_spec(text@),
{
    let chars = chars_of(text);
    let n: usize = chars.len();
    let mut lines: Vec<String> = Vec::new();
    let mut start: usize = 0;
    let mut i: usize = 0;
    assert(text@.skip(0) =~= text@);
    assert(texts(lines@) + lines_spec(text@) =~= lines_spec(text@));
    while i < n
        invariant
            start <= i <= n,
            n == chars@.len(),
            chars@ == text@,
            forall|j: int| start <= j < i ==> !is_line_end(#[trigger] text@[j]),
            texts(lines@) + lines_spec(text@.skip(start as int)) == lines_spec(text@),
        decreases n - i,
    {
        let c = chars[i];
        if c == '\r' || c == '\n' {
            let line = string_of(&chars, start, i);
            let ghost t = text@.skip(start as int);
            let ghost before = lines@;
            let next: usize = if c == '\r' && i + 1 < n && chars[i + 1] == '\n' {
                i + 2
            } else {
                i + 1
            };
            proof {
                assert forall|j: int| 0 <= j < i - start implies !is_line_end(#[trigger] t[j]) by {
                    assert(t[j] == text@[start + j]);
                }
                lemma_line_len_at(t, i - start);
                assert(line@ =~= t.take(i - start));
                assert(after_line_end(t.skip(i - start)) =~= text@.skip(next as int));
            }
            lines.push(line);
            proof {
                assert(texts(lines@) =~= texts(before).push(t.take(i - start)));
                assert(texts(lines@) + lines_spec(text@.skip(next as int)) =~= texts(before)
                    + lines_spec(t));
            }
            i = next;
            start = next;
        } else {
            i += 1;
        }
    }
    let ghost t = text@.skip(start as int);
    let ghost before = lines@;
    let last = string_of(&chars, start, n);
    proof {
        assert forall|j: int| 0 <= j < t.len() implies !is_line_end(#[trigger] t[j]) by {
            assert(t[j] == text@[start + j]);
        }
        lemma_line_len_at(t, t.len() as int);
        assert(last@ =~= t);
    }
    lines.push(last);
    assert(texts(lines@) =~= texts(before).push(t));
    assert(texts(lines@) =~= texts(before) + seq![t]);
    lines
}

/// A `data:` line for each line.
pub open spec fn data_lines(lines: Seq<Seq<char>>) -> Seq<char>
    decreases lines.len(),
{
    if lines.len() == 0 {
        Seq::empty()
    } else {
        data_lines(lines.drop_last()) + "data:"@ + lines.last() + "\n"@
    }
}

/// The `event: data` frame of a text.
pub open spec fn raw_data_frame(text: Seq<char>) -> Seq<char> {
    "event: data\n"@ + data_lines(lines_spec(text)) + "\n"@
}

/// Format a raw text payload as an `event: data` SSE frame.
///
/// Splits on all line-ending forms (`\r\n`, `\r`, `\n`) to prevent CRLF
/// injection — each segment gets its own `data:` prefix.
pub fn format_raw_data_frame(text: &str) -> (r: String)
    ensures
        r@ == raw_data_frame(text@),
{
    let lines = split_lines(text);
    let mut frame = "event: data\n".to_owned();
    let mut i: usize = 0;
    assert(frame@ =~= "event: data\n"@ + data_lines(texts(lines@.take(0))));
    while i < lines.len()
        invariant
            i <= lines@.len(),
            frame@ == "event: data\n"@ + data_lines(texts(lines@.take(i as int))),
        decreases lines.len() - i,
    {
        let ghost before = frame@;
        frame.append("data:");
        frame.append(lines[i].as_str());
        frame.append("\n");
        proof {
            let a = texts(lines@.take(i as int));
            let b = texts(lines@.take(i + 1));
            assert(b.drop_last() =~= a);
            assert(b.last() == lines@[i as int]@);
            assert(frame@ =~= "event: data\n"@ + data_lines(b));
        }
        i += 1;
    }
    frame.append("\n");
    assert(lines@.take(lines@.len() as int) =~= lines@);
    frame
}

/// The text that a message is sent as.
pub open spec fn message_text(data: Seq<u8>, is_binary: bool, is_json: bool) -> Seq<char> {
    if is_binary {
        base64_text(data)
    } else if is_json {
        "["@ + lossy_text(data) + "]"@
    } else {
        lossy_text(data)
    }
}

/// Format an `event: data` SSE frame for a single stored message.
///
/// If the stream content type is binary (per `is_binary_content_type`),
/// the data is base64-encoded. For JSON content types, the message is
/// wrapped in a JSON array. Otherwise it's sent as UTF-8 text.
#[must_use]
pub fn format_data_frame(data: &Vec<u8>, is_binary: bool, is_json: bool) -> (r: String)
    ensures
        r@ == raw_data_frame(message_text(data@, is_binary, is_json)),
        is_binary ==> is_base64(base64_text(data@)) && base64_bytes(base64_text(data@)) == decoded(data@),
{
    let text = if is_binary {
        base64_encode(data.as_slice())
    } else if is_json {
        let raw = utf8_lossy(data.as_slice());
        joined3("[", raw.as_str(), "]")
    } else {
        utf8_lossy(data.as_slice())
    };
    format_raw_data_frame(text.as_str())
}

/// The texts of the messages.
pub open spec fn lossy_texts(messages: Seq<Seq<u8>>) -> Seq<Seq<char>> {
    messages.map_values(|m: Seq<u8>| lossy_text(m))
}

/// One frame for each message.
pub open spec fn frame_each(messages: Seq<Seq<u8>>, is_binary: bool) -> Seq<char>
    decreases messages.len(),
{
    if messages.len() == 0 {
        Seq::empty()
    } else {
        frame_each(messages.drop_last(), is_binary) + raw_data_frame(
            message_text(messages.last(), is_binary, false),
        )
    }
}

/// The frames of a batch: nothing for no message; for JSON one frame with one array of all
/// messages; else a frame for each message.
pub open spec fn data_frames(messages: Seq<Seq<u8>>, is_binary: bool, is_json: bool) -> Seq<char> {
    if messages.len() == 0 {
        Seq::empty()
    } else if is_json {
        raw_data_frame("["@ + join_spec(lossy_texts(messages), ","@) + "]"@)
    } else {
        frame_each(messages, is_binary)
    }
}

/// Format `event: data` SSE frames for a batch of messages from a single read.
///
/// For JSON streams, all messages are batched into a single `event: data` frame
/// containing one JSON array. For binary/text streams, each message gets its own
/// `event: data` frame. Returns an empty string if `messages` is empty.
#[must_use]
pub fn format_data_frames(messages: &Vec<Vec<u8>>, is_binary: bool, is_json: bool) -> (r: String)
    ensures
        r@ == data_frames(contents(messages@), is_binary, is_json),
{
    if messages.len() == 0 {
        return String::new();
    }
    let ghost all = contents(messages@);
    if is_json {
        let mut content = String::new();
        let mut i: usize = 0;
        assert(content@ =~= join_spec(lossy_texts(contents(messages@.take(0))), ","@));
        while i < messages.len()
            invariant
                i <= messages@.len(),
                content@ == join_spec(lossy_texts(contents(messages@.take(i as int))), ","@),
            decreases messages.len() - i,
        {
            if i > 0 {
                content.append(",");
            }
            let raw = utf8_lossy(messages[i].as_slice());
            content.append(raw.as_str());
            proof {
                let a = lossy_texts(contents(messages@.take(i as int)));
                let b = lossy_texts(contents(messages@.take(i + 1)));
                assert(b.drop_last() =~= a);
                assert(b.last() == lossy_text(messages@[i as int]@));
                assert(content@ =~= join_spec(b, ","@));
            }
            i += 1;
        }
        assert(messages@.take(messages@.len() as int) =~= messages@);
        let text = joined3("[", content.as_str(), "]");
        format_raw_data_frame(text.as_str())
    } else {
        let mut result = String::new();
        let mut i: usize = 0;
        assert(contents(messages@.take(0)).len() == 0);
        while i < messages.len()
            invariant
                i <= messages@.len(),
                result@ == frame_each(contents(messages@.take(i as int)), is_binary),
            decreases messages.len() - i,
        {
            let frame = format_data_frame(&messages[i], is_binary, false);
            result.append(frame.as_str());
            proof {
                let a = contents(messages@.take(i as int));
                let b = contents(messages@.take(i + 1));
                assert(b.drop_last() =~= a);
                assert(b.last() == messages@[i as int]@);
            }
            i += 1;
        }
        assert(messages@.take(messages@.len() as int) =~= messages@);
        result
    }
}

/// Format an SSE keep-alive comment frame.
#[must_use]
pub fn format_keepalive_frame() -> (r: &'static str)
    ensures
        r@ == ":\n\n"@,
{
    ":\n\n"
}

/// Determine if a content type requires base64 encoding in SSE mode.
///
/// Returns `false` for `text/*` and `application/json` (UTF-8 safe).
/// Returns `true` for everything else (binary).
#[must_use]
pub fn is_binary_content_type(ct: &str) -> (r: bool)
    ensures
        r == !("text/"@.is_prefix_of(ct@) || ct@ == "application/json"@),
{
    if starts_with(ct, "text/") {
        return false;
    }
    if same(ct, "application/json") {
        return false;
    }
    true
}

/// Whether no character of a line ends a line.
pub open spec fn is_clean_line(line: Seq<char>) -> bool {
    forall|j: int| 0 <= j < line.len() ==> !is_line_end(#[trigger] line[j])
}

/// There is at least one line, and no line holds a line ending.
pub proof fn lemma_lines_clean(s: Seq<char>)
    ensures
        lines_spec(s).len() >= 1,
        forall|i: int| 0 <= i < lines_spec(s).len() ==> is_clean_line(#[trigger] lines_spec(s)[i]),
    decreases s.len(),
{
    lemma_line_len(s);
    let n = line_len(s);
    if n < s.len() {
        let rest = after_line_end(s.skip(n));
        lemma_lines_clean(rest);
        let first = s.take(n);
        assert forall|j: int| 0 <= j < first.len() implies !is_line_end(#[trigger] first[j]) by {
            assert(first[j] == s[j]);
        }
        assert forall|i: int| 0 <= i < lines_spec(s).len() implies is_clean_line(
            #[trigger] lines_spec(s)[i],
        ) by {
            if i > 0 {
                assert(lines_spec(s)[i] == lines_spec(rest)[i - 1]);
            }
        }
    }
}

/// A text without line endings is one line.
pub proof fn lemma_one_line(s: Seq<char>)
    requires
        is_clean_line(s),
    ensures
        lines_spec(s) == seq![s],
{
    lemma_line_len_at(s, s.len() as int);
}

proof fn lemma_data_lines_clean(lines: Seq<Seq<char>>)
    requires
        forall|i: int| 0 <= i < lines.len() ==> is_clean_line(#[trigger] lines[i]),
    ensures
        !data_lines(lines).contains('\r'),
    decreases lines.len(),
{
    if lines.len() > 0 {
        lemma_data_lines_clean(lines.drop_last());
        reveal_strlit("data:");
        reveal_strlit("\n");
        let d = data_lines(lines);
        let p = data_lines(lines.drop_last());
        let l = lines.last();
        assert(is_clean_line(l));
        assert forall|i: int| 0 <= i < d.len() implies #[trigger] d[i] != '\r' by {
            if i < p.len() {
                assert(d[i] == p[i]);
                assert(p.contains(p[i]));
            } else if i < p.len() + 5 {
                assert(d[i] == "data:"@[i - p.len()]);
            } else if i < p.len() + 5 + l.len() {
                assert(d[i] == l[i - p.len() - 5]);
            }
        }
    }
}

/// No line ending of a message other than `\n` reaches the wire: a data frame holds no
/// carriage return, whatever the message.
pub proof fn law_data_frame_without_carriage_return(text: Seq<char>)
    ensures
        !raw_data_frame(text).contains('\r'),
{
    lemma_lines_clean(text);
    lemma_data_lines_clean(lines_spec(text));
    reveal_strlit("event: data\n");
    reveal_strlit("\n");
    let f = raw_data_frame(text);
    let d = data_lines(lines_spec(text));
    assert forall|i: int| 0 <= i < f.len() implies #[trigger] f[i] != '\r' by {
        if i < 12 {
            assert(f[i] == "event: data\n"@[i]);
        } else if i < 12 + d.len() {
            assert(f[i] == d[i - 12]);
            assert(d.contains(d[i - 12]));
        }
    }
}

} // verus!
