//! Shared JSON and JSONL input loading for library and CLI workflows.

use vstd::prelude::*;
use vstd::utf8::{decode_utf8, encode_utf8, valid_utf8};
use crate::bytes::{ascii_space, is_ascii_space};
use crate::client::error::Error;
use crate::client::idempotent::text_of_document;
use crate::decimal::{decimal, u64_text};
use crate::encoding::{utf8_error, utf8_text};
use crate::json::{document_text, json_document, parse_document};
use crate::text::{
    chars_of, joined, joined4, joined5, split, split_spec, string_of, texts, trim, trim_spec,
};

verus! {

/// Normalized source format detected during JSON input loading.
#[derive(Debug, Clone, Copy, PartialEq, Eq, Structural)]
pub enum JsonInputFormat {
    /// One top-level JSON value.
    JsonValue,
    /// One top-level JSON array expanded into logical items.
    JsonArray,
    /// Line-delimited JSON with one value per non-empty line.
    JsonLines,
}

/// Fully normalized JSON input. Values are held as compact text.
#[derive(Debug, Clone, PartialEq, Eq)]
pub struct JsonInput {
    pub format: JsonInputFormat,
    pub values: Vec<String>,
}

impl JsonInput {
    /// Return the detected input format.
    #[must_use]
    pub fn format(&self) -> (r: JsonInputFormat)
        ensures
            r == self.format,
    {
        self.format
    }

    /// Borrow the normalized JSON values.
    #[must_use]
    pub fn values(&self) -> (r: &Vec<String>)
        ensures
            *r == self.values,
    {
        &self.values
    }

    /// Consume the input and return the normalized values.
    #[must_use]
    pub fn into_values(self) -> (r: Vec<String>)
        ensures
            r == self.values,
    {
        self.values
    }
}

/// A line without the carriage return in front of its line feed.
pub open spec fn without_return(line: Seq<char>) -> Seq<char> {
    if line.len() > 0 && line.last() == '\r' {
        line.drop_last()
    } else {
        line
    }
}

/// The lines of a text: line feeds end them, with or without a carriage return in front; an
/// empty piece at the end is no line.
pub open spec fn text_lines(text: Seq<char>) -> Seq<Seq<char>> {
    let parts = split_spec(text, '\n');
    let ended = parts.drop_last().map_values(|p: Seq<char>| without_return(p));
    if parts.last().len() == 0 {
        ended
    } else {
        ended.push(parts.last())
    }
}

fn strip_return(line: &String) -> (r: String)
    ensures
        r@ == without_return(line@),
{
    let v = chars_of(line.as_str());
    let n: usize = v.len();
    if n > 0 && v[n - 1] == '\r' {
        let r = string_of(&v, 0, n - 1);
        assert(r@ =~= line@.drop_last());
        r
    } else {
        line.clone()
    }
}

/// Splits a text into its lines.
pub fn lines_of(text: &str) -> (r: Vec<String>)
    ensures
        texts(r@) == text_lines(text@),
{
    let parts = split(text, '\n');
    let ghost all = texts(parts@);
    let last: usize = parts.len() - 1;
    let mut lines: Vec<String> = Vec::new();
    let mut i: usize = 0;
    let ghost ended = all.drop_last().map_values(|p: Seq<char>| without_return(p));
    assert(texts(lines@) =~= ended.take(0));
    while i < last
        invariant
            i <= last,
            last == parts@.len() - 1,
            all == texts(parts@),
            ended == all.drop_last().map_values(|p: Seq<char>| without_return(p)),
            texts(lines@) == ended.take(i as int),
        decreases last - i,
    {
        let line = strip_return(&parts[i]);
        let ghost before = lines@;
        let ghost l = line@;
        lines.push(line);
        proof {
            assert(all[i as int] == parts@[i as int]@);
            assert(texts(lines@) =~= texts(before).push(l));
            assert(ended.take(i + 1) =~= ended.take(i as int).push(l));
        }
        i += 1;
    }
    proof {
        assert(ended.take(ended.len() as int) =~= ended);
        assert(all.last() == parts@[last as int]@);
    }
    if !parts[last].as_str().is_empty() {
        let ghost before = lines@;
        lines.push(parts[last].clone());
        assert(texts(lines@) =~= texts(before).push(all.last()));
    }
    lines
}

/// The values in the first `n` lines, or what is wrong with the first that holds none.
/// Blank lines are skipped.
pub open spec fn line_values(lines: Seq<Seq<char>>, n: int) -> Result<Seq<Seq<char>>, Seq<char>>
    decreases n,
{
    if n <= 0 {
        Ok(Seq::empty())
    } else {
        match line_values(lines, n - 1) {
            Ok(done) => {
                let line = lines[n - 1];
                if trim_spec(line).len() == 0 {
                    Ok(done)
                } else {
                    match json_document(encode_utf8(line)) {
                        Ok(d) => Ok(done.push(document_text(d.0, d.1))),
                        Err(m) => Err("invalid JSON on line "@ + decimal(n as nat) + ": "@ + m),
                    }
                }
            },
            Err(m) => Err(m),
        }
    }
}

/// What bytes come to as line-delimited JSON.
pub open spec fn json_lines(bytes: Seq<u8>) -> Result<Seq<Seq<char>>, Seq<char>> {
    if valid_utf8(bytes) {
        let lines = text_lines(decode_utf8(bytes));
        line_values(lines, lines.len() as int)
    } else {
        Err("input contained invalid UTF-8: "@ + utf8_error(bytes))
    }
}

proof fn lemma_line_values_fail(lines: Seq<Seq<char>>, i: int, n: int)
    requires
        0 <= i <= n,
        line_values(lines, i) is Err,
    ensures
        line_values(lines, n) == line_values(lines, i),
    decreases n - i,
{
    if i < n {
        lemma_line_values_fail(lines, i, n - 1);
    }
}

/// Reads line-delimited JSON: one value per line that is not blank.
pub fn parse_json_lines(bytes: &[u8]) -> (r: Result<JsonInput, String>)
    ensures
        match (json_lines(bytes@), r) {
            (Ok(values), Ok(input)) => input.format == JsonInputFormat::JsonLines && texts(
                input.values@,
            ) == values,
            (Err(e), Err(m)) => m@ == e,
            _ => false,
        },
{
    let text = match utf8_text(bytes) {
        Ok(t) => t,
        Err(m) => return Err(joined("input contained invalid UTF-8: ", m.as_str())),
    };
    let lines = lines_of(text.as_str());
    let ghost all = texts(lines@);
    let mut values: Vec<String> = Vec::new();
    let mut i: usize = 0;
    assert(texts(values@) =~= Seq::empty());
    while i < lines.len()
        invariant
            i <= lines@.len(),
            all == texts(lines@),
            valid_utf8(bytes@),
            all == text_lines(decode_utf8(bytes@)),
            line_values(all, i as int) == Ok::<Seq<Seq<char>>, Seq<char>>(texts(values@)),
        decreases lines.len() - i,
    {
        let line = lines[i].as_str();
        assert(all[i as int] == line@);
        if !trim(line).is_empty() {
            match parse_document(line.as_bytes()) {
                Ok(document) => {
                    let value = text_of_document(&document);
                    let ghost before = values@;
                    let ghost v = value@;
                    values.push(value);
                    assert(texts(values@) =~= texts(before).push(v));
                },
                Err(m) => {
                    proof {
                        lemma_line_values_fail(all, i + 1, all.len() as int);
                    }
                    return Err(
                        joined4(
                            "invalid JSON on line ",
                            u64_text(i as u64 + 1).as_str(),
                            ": ",
                            m.as_str(),
                        ),
                    );
                },
            }
        }
        i += 1;
    }
    Ok(JsonInput { format: JsonInputFormat::JsonLines, values })
}

/// Whether bytes are nothing but white space.
pub open spec fn is_blank_input(bytes: Seq<u8>) -> bool {
    forall|i: int| 0 <= i < bytes.len() ==> is_ascii_space(#[trigger] bytes[i])
}

/// Whether a result is what a buffer holds.
pub open spec fn is_input(r: Result<JsonInput, Error>, bytes: Seq<u8>) -> bool {
    if is_blank_input(bytes) {
        r matches Ok(input) && input.format == JsonInputFormat::JsonLines && input.values@.len() == 0
    } else {
        match json_document(bytes) {
            Ok(d) => r matches Ok(input) && texts(input.values@) == d.1 && input.format == if d.0 {
                JsonInputFormat::JsonArray
            } else {
                JsonInputFormat::JsonValue
            },
            Err(e) => match json_lines(bytes) {
                Ok(values) => r matches Ok(input) && input.format == JsonInputFormat::JsonLines && texts(
                    input.values@,
                ) == values,
                Err(l) => r matches Err(Error::Parse(m)) && m@
                    == "failed to parse JSON input as a single document ("@ + e + ") or JSONL ("@ + l
                    + ")"@,
            },
        }
    }
}

/// Parse JSON values from an in-memory buffer.
///
/// Empty or whitespace-only input is treated as an empty JSONL stream. A document is taken
/// as one value, or as the elements of one array; what is no document is tried line by line.
pub fn parse_json_input(bytes: &[u8]) -> (r: Result<JsonInput, Error>)
    ensures
        is_input(r, bytes@),
{
    let mut i: usize = 0;
    while i < bytes.len() && ascii_space(bytes[i])
        invariant
            i <= bytes@.len(),
            forall|j: int| 0 <= j < i ==> is_ascii_space(#[trigger] bytes@[j]),
        decreases bytes.len() - i,
    {
        i += 1;
    }
    if i == bytes.len() {
        return Ok(JsonInput { format: JsonInputFormat::JsonLines, values: Vec::new() });
    }
    assert(!is_ascii_space(bytes@[i as int]));
    match parse_document(bytes) {
        Ok(document) => {
            let format = if document.is_array {
                JsonInputFormat::JsonArray
            } else {
                JsonInputFormat::JsonValue
            };
            Ok(JsonInput { format, values: document.items })
        },
        Err(document_error) => match parse_json_lines(bytes) {
            Ok(input) => Ok(input),
            Err(line_error) => Err(
                Error::Parse(
                    joined5(
                        "failed to parse JSON input as a single document (",
                        document_error.as_str(),
                        ") or JSONL (",
                        line_error.as_str(),
                        ")",
                    ),
                ),
            ),
        },
    }
}

} // verus!
