//! JSON documents as compact text.

use vstd::prelude::*;
use vstd::utf8::encode_utf8;
use crate::fields::{fields, has_distinct_names};
use crate::text::{join_spec, texts};

verus! {

/// A text as a JSON string, as `serde_json::to_string` writes it.
pub uninterp spec fn json_string(s: Seq<char>) -> Seq<char>;

/// A JSON document as `serde_json::from_slice` reads it: whether it is an array, and the
/// compact texts of the elements, or of the one value where it is no array; else the
/// message of the error.
pub uninterp spec fn json_document(data: Seq<u8>) -> Result<(bool, Seq<Seq<char>>), Seq<char>>;

/// The compact text of a document.
pub open spec fn document_text(is_array: bool, items: Seq<Seq<char>>) -> Seq<char> {
    if is_array {
        "["@ + join_spec(items, ","@) + "]"@
    } else {
        items[0]
    }
}

/// The messages with commas between neighbours.
pub open spec fn comma_separated(messages: Seq<Seq<u8>>) -> Seq<u8>
    decreases messages.len(),
{
    if messages.len() == 0 {
        Seq::empty()
    } else if messages.len() == 1 {
        messages[0]
    } else {
        comma_separated(messages.drop_last()) + seq![44u8] + messages.last()
    }
}

/// The messages as the elements of a JSON array.
pub open spec fn wrapped(messages: Seq<Seq<u8>>) -> Seq<u8> {
    seq![91u8] + comma_separated(messages) + seq![93u8]
}

/// How deep arrays and objects are nested in the rest of a document, where `depth` of them are
/// open before it. Brackets in texts do not count.
pub open spec fn nesting_from(data: Seq<u8>, depth: int, in_text: bool) -> int
    decreases data.len(),
{
    if data.len() == 0 {
        depth
    } else if in_text {
        if data[0] == 92 && data.len() > 1 {
            nesting_from(data.skip(2), depth, true)
        } else {
            nesting_from(data.skip(1), depth, data[0] != 34)
        }
    } else if data[0] == 91 || data[0] == 123 {
        let inner = nesting_from(data.skip(1), depth + 1, false);
        if inner > depth {
            inner
        } else {
            depth
        }
    } else {
        let inner = nesting_from(
            data.skip(1),
            if data[0] == 93 || data[0] == 125 {
                depth - 1
            } else {
                depth
            },
            data[0] == 34,
        );
        if inner > depth {
            inner
        } else {
            depth
        }
    }
}

/// How deep arrays and objects are nested in a document.
pub open spec fn nesting(data: Seq<u8>) -> int {
    nesting_from(data, 0, false)
}

/// Whether bytes are a document in its compact form.
pub open spec fn is_compact(data: Seq<u8>) -> bool {
    json_document(data) matches Ok(d) && data == encode_utf8(document_text(d.0, d.1))
}

/// Whether messages can be the elements of one array: compact documents, each with room for one
/// more level of nesting.
pub open spec fn fit_an_array(messages: Seq<Seq<u8>>) -> bool {
    forall|i: int|
        0 <= i < messages.len() ==> is_compact(#[trigger] messages[i]) && nesting(messages[i]) <= 126
}

/// Whether a text holds no control character.
pub open spec fn is_one_line(s: Seq<char>) -> bool {
    forall|i: int| 0 <= i < s.len() ==> #[trigger] s[i] >= ' '
}

/// `serde_json::to_string` on a text depends on the text alone. The result is enclosed in
/// quotation marks and holds no control character.
#[verifier::external_body]
pub(crate) fn json_quote(s: &str) -> (r: String)
    ensures
        r@ == json_string(s@),
        is_one_line(r@),
        r@.len() >= 2 && r@[0] == '"' && r@.last() == '"',
{
    serde_json::to_string(s).expect("text serializes to JSON")
}

/// A parsed JSON document.
#[derive(Debug, Clone, PartialEq, Eq)]
pub struct Document {
    /// Whether the document is an array.
    pub is_array: bool,
    /// The compact texts of the elements of the array, or of the one value.
    pub items: Vec<String>,
}

/// `serde_json::from_slice` reads a document or fails, depending on the bytes alone. The
/// compact text of a value, which `Value::to_string` gives, holds no control character. A
/// document that is no array is one value. An array of documents in their compact form has just
/// these for elements, unless it is nested beyond the 127 levels that are read.
#[verifier::external_body]
pub(crate) fn parse_document(data: &[u8]) -> (r: Result<Document, String>)
    ensures
        match r {
            Ok(d) => {
                &&& json_document(data@) == Ok::<(bool, Seq<Seq<char>>), Seq<char>>(
                    (d.is_array, texts(d.items@)),
                )
                &&& !d.is_array ==> d.items@.len() == 1
                &&& forall|i: int| 0 <= i < d.items@.len() ==> is_one_line(#[trigger] d.items@[i]@)
            },
            Err(m) => json_document(data@) == Err::<(bool, Seq<Seq<char>>), Seq<char>>(m@),
        },
        forall|messages: Seq<Seq<u8>>|
            data@ == #[trigger] wrapped(messages) && fit_an_array(messages) ==> (r matches Ok(d)
                && d.is_array && d.items@.len() == messages.len() && forall|i: int|
                0 <= i < messages.len() ==> encode_utf8((#[trigger] d.items@[i])@) == messages[i]),
{
    match serde_json::from_slice::<serde_json::Value>(data) {
        Ok(serde_json::Value::Array(v)) => Ok(
            Document { is_array: true, items: v.iter().map(|e| e.to_string()).collect() },
        ),
        Ok(v) => Ok(Document { is_array: false, items: vec![v.to_string()] }),
        Err(e) => Err(e.to_string()),
    }
}

/// The values of a JSON array as `serde_json::from_slice` reads it to a list: their compact
/// texts; else the message of the error.
pub uninterp spec fn json_values(data: Seq<u8>) -> Result<Seq<Seq<char>>, Seq<char>>;

/// `serde_json::from_slice` to a list of values succeeds or fails depending on the bytes
/// alone.
#[verifier::external_body]
pub(crate) fn parse_values(data: &[u8]) -> (r: Result<Vec<String>, String>)
    ensures
        match r {
            Ok(v) => json_values(data@) matches Ok(items) && texts(v@) == items,
            Err(m) => json_values(data@) matches Err(e) && m@ == e,
        },
{
    match serde_json::from_slice::<Vec<serde_json::Value>>(data) {
        Ok(v) => Ok(v.iter().map(|e| e.to_string()).collect()),
        Err(e) => Err(e.to_string()),
    }
}

/// The members of a JSON object of texts as `serde_json::from_str` reads it, sorted by name;
/// else the message of the error.
pub uninterp spec fn json_text_map(text: Seq<char>) -> Result<Seq<(Seq<char>, Seq<char>)>, Seq<char>>;

/// `serde_json::from_str` to a map of texts succeeds or fails depending on the text alone. A map
/// holds each name once.
#[verifier::external_body]
pub(crate) fn parse_text_map(text: &str) -> (r: Result<Vec<(String, String)>, String>)
    ensures
        match r {
            Ok(v) => json_text_map(text@) matches Ok(members) && fields(v@) == members
                && has_distinct_names(fields(v@)),
            Err(m) => json_text_map(text@) matches Err(e) && m@ == e,
        },
{
    match serde_json::from_str::<std::collections::BTreeMap<String, String>>(text) {
        Ok(map) => Ok(map.into_iter().collect()),
        Err(e) => Err(e.to_string()),
    }
}

} // verus!
