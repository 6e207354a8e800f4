//! JSON streams: how bodies become messages and messages become bodies.

use vstd::prelude::*;
use vstd::utf8::encode_utf8;
use crate::bytes::append_slice;
use crate::json::{
    Document, comma_separated, fit_an_array, json_document, parse_document, wrapped,
};
use crate::protocol::error::{Error, Result};
use crate::text::{same, texts};

verus! {

/// The contents of a list of messages.
pub open spec fn contents(messages: Seq<Vec<u8>>) -> Seq<Seq<u8>> {
    messages.map_values(|m: Vec<u8>| m@)
}

/// The messages of a document: one for each element of an array, or the one value.
pub open spec fn document_messages(items: Seq<Seq<char>>) -> Seq<Seq<u8>> {
    items.map_values(|t: Seq<char>| encode_utf8(t))
}

/// The messages of a parsed document: one for each element of an array, or the one value.
pub fn messages_of(document: &Document) -> (r: Vec<Vec<u8>>)
    ensures
        contents(r@) == document_messages(texts(document.items@)),
{
    let mut messages: Vec<Vec<u8>> = Vec::new();
    let mut i: usize = 0;
    while i < document.items.len()
        invariant
            i <= document.items@.len(),
            contents(messages@) == document_messages(texts(document.items@.take(i as int))),
        decreases document.items.len() - i,
    {
        let ghost before = messages@;
        messages.push(document.items[i].as_str().as_bytes_vec());
        assert(contents(messages@) =~= contents(before).push(encode_utf8(document.items@[i as int]@)));
        assert(document_messages(texts(document.items@.take(i + 1))) =~= document_messages(
            texts(document.items@.take(i as int)),
        ).push(encode_utf8(document.items@[i as int]@)));
        i += 1;
        assert(contents(messages@) =~= document_messages(texts(document.items@.take(i as int))));
    }
    assert(document.items@.take(document.items@.len() as int) =~= document.items@);
    messages
}

/// Process JSON data for append: validate and flatten arrays
///
/// If the input is a JSON array, returns each element as a separate message.
/// If the input is a single JSON value, returns it as one message.
/// Empty arrays return `Ok(vec![])` — callers decide whether that's an error.
///
/// What a read wraps in an array comes apart into the same messages: one that is an array itself
/// stays whole.
pub fn process_append(data: &[u8]) -> (r: Result<Vec<Vec<u8>>>)
    ensures
        forall|messages: Seq<Seq<u8>>|
            data@ == #[trigger] wrapped(messages) && fit_an_array(messages) ==> (r matches Ok(m)
                && contents(m@) == messages),
        match (json_document(data@), r) {
            (Ok(d), Ok(messages)) => contents(messages@) == document_messages(d.1),
            (Err(m), Err(Error::InvalidJson(t))) => t@ == m,
            _ => false,
        },
{
    match parse_document(data) {
        Ok(document) => {
            let messages = messages_of(&document);
            proof {
                assert forall|all: Seq<Seq<u8>>|
                    data@ == #[trigger] wrapped(all) && fit_an_array(all) implies contents(
                    messages@,
                ) == all by {
                    assert(contents(messages@) =~= all);
                }
            }
            Ok(messages)
        },
        Err(m) => Err(Error::InvalidJson(m)),
    }
}

/// Wrap JSON messages in a JSON array for read responses.
///
/// Stored JSON messages are validated on write; the array is built directly from them.
#[must_use]
pub fn wrap_read_iter(messages: &Vec<Vec<u8>>) -> (r: Vec<u8>)
    ensures
        r@ == wrapped(contents(messages@)),
{
    let mut out: Vec<u8> = Vec::new();
    out.push(91u8);
    let mut i: usize = 0;
    assert(out@ =~= seq![91u8] + comma_separated(contents(messages@.take(0))));
    while i < messages.len()
        invariant
            i <= messages@.len(),
            out@ == seq![91u8] + comma_separated(contents(messages@.take(i as int))),
        decreases messages.len() - i,
    {
        if i > 0 {
            out.push(44u8);
        }
        append_slice(&mut out, messages[i].as_slice());
        proof {
            let a = contents(messages@.take(i as int));
            let b = contents(messages@.take(i + 1));
            assert(b.drop_last() =~= a);
            assert(b.last() == messages@[i as int]@);
            assert(out@ =~= seq![91u8] + comma_separated(b));
        }
        i += 1;
    }
    out.push(93u8);
    assert(messages@.take(messages@.len() as int) =~= messages@);
    assert(out@ =~= wrapped(contents(messages@)));
    out
}

/// Check if a content type is JSON
///
/// Returns true if the normalized content type is "application/json".
#[must_use]
pub fn is_json_content_type(content_type: &str) -> (r: bool)
    ensures
        r == (content_type@ == "application/json"@),
{
    same(content_type, "application/json")
}

/// What a body comes to as messages.
pub open spec fn body_messages(body: Seq<u8>, content_type: Seq<char>) -> std::result::Result<
    Seq<Seq<u8>>,
    Seq<char>,
> {
    if body.len() == 0 {
        Ok(Seq::empty())
    } else if content_type == "application/json"@ {
        match json_document(body) {
            Ok(d) => Ok(document_messages(d.1)),
            Err(m) => Err(m),
        }
    } else {
        Ok(seq![body])
    }
}

/// Split an initial/append body into records, leaving empty-array policy to callers.
pub fn extract_messages(body: Vec<u8>, content_type: &str) -> (r: Result<Vec<Vec<u8>>>)
    ensures
        match (body_messages(body@, content_type@), r) {
            (Ok(d), Ok(messages)) => contents(messages@) == d,
            (Err(m), Err(Error::InvalidJson(t))) => t@ == m,
            _ => false,
        },
{
    if body.len() == 0 {
        let r: Vec<Vec<u8>> = Vec::new();
        assert(contents(r@) =~= Seq::empty());
        Ok(r)
    } else if is_json_content_type(content_type) {
        process_append(body.as_slice())
    } else {
        let ghost b = body@;
        let mut r: Vec<Vec<u8>> = Vec::new();
        r.push(body);
        assert(contents(r@) =~= seq![b]);
        Ok(r)
    }
}

} // verus!
