//! HTTP header maps: what they hold and how fields are read.

use axum::http::HeaderMap;
use vstd::prelude::*;
use vstd::utf8::encode_utf8;
use crate::decimal::{parse_signed, signed_value};
use crate::text::{ascii_lower_spec, same_ignore_ascii_case, text_opt};

verus! {

/// A map of header fields, `http::HeaderMap`.
#[verifier::external_type_specification]
#[verifier::external_body]
#[verifier::reject_recursive_types(T)]
pub struct ExHeaderMap<T>(axum::http::HeaderMap<T>);

/// A header value, `http::HeaderValue`.
#[verifier::external_type_specification]
#[verifier::external_body]
pub struct ExHeaderValue(axum::http::HeaderValue);

/// What a header map holds: for each lower-case name the values in the order in which they
/// were added.
pub uninterp spec fn header_fields(headers: HeaderMap) -> Map<Seq<char>, Seq<Seq<u8>>>;

/// The first value of the field `name`.
pub open spec fn first_value(fields: Map<Seq<char>, Seq<Seq<u8>>>, name: Seq<char>) -> Option<
    Seq<u8>,
> {
    let key = ascii_lower_spec(name);
    if fields.dom().contains(key) && fields[key].len() > 0 {
        Some(fields[key][0])
    } else {
        None
    }
}

/// Whether a value is visible ASCII text (tabs and spaces count).
pub open spec fn is_visible(value: Seq<u8>) -> bool {
    forall|i: int| 0 <= i < value.len() ==> 32 <= #[trigger] value[i] < 127 || value[i] == 9
}

/// The text of a value of ASCII bytes.
pub open spec fn ascii_text(value: Seq<u8>) -> Seq<char> {
    value.map_values(|b: u8| b as char)
}

/// The text of the first value of the field `name`, where there is one and it is text.
pub open spec fn field_text(fields: Map<Seq<char>, Seq<Seq<u8>>>, name: Seq<char>) -> Option<Seq<char>> {
    match first_value(fields, name) {
        Some(v) => if is_visible(v) {
            Some(ascii_text(v))
        } else {
            None
        },
        None => None,
    }
}

/// `HeaderMap::get` finds a field by its name without regard to case and gives its first
/// value; `HeaderValue::to_str` gives the text of a value of visible ASCII bytes, tabs and
/// spaces, and fails on any other.
#[verifier::external_body]
pub(crate) fn header_text(headers: &HeaderMap, name: &str) -> (r: Option<String>)
    ensures
        match r {
            Some(t) => field_text(header_fields(*headers), name@) == Some(t@),
            None => field_text(header_fields(*headers), name@) is None,
        },
{
    headers.get(name).and_then(|v| v.to_str().ok()).map(|v| v.to_string())
}

/// Whether a field says "true", in any case, or is there without a value.
pub open spec fn field_flag(fields: Map<Seq<char>, Seq<Seq<u8>>>, name: Seq<char>) -> bool {
    field_text(fields, name) matches Some(v) && (ascii_lower_spec(v) == ascii_lower_spec("true"@)
        || v.len() == 0)
}

/// The text of the first value of the field `name`.
pub fn header_value(headers: &HeaderMap, name: &str) -> (r: Option<String>)
    ensures
        text_opt(r) == field_text(header_fields(*headers), name@),
{
    header_text(headers, name)
}

/// Whether the field `name` says "true", in any case, or is there without a value.
pub fn parse_bool_header(headers: &HeaderMap, name: &str) -> (r: bool)
    ensures
        r == field_flag(header_fields(*headers), name@),
{
    match header_value(headers, name) {
        Some(value) => same_ignore_ascii_case(value.as_str(), "true") || value.as_str().is_empty(),
        None => false,
    }
}

/// The signed number that the field `name` holds.
pub open spec fn field_number(fields: Map<Seq<char>, Seq<Seq<u8>>>, name: Seq<char>) -> Option<int> {
    match field_text(fields, name) {
        Some(v) => signed_value(v),
        None => None,
    }
}

/// The signed number that the field `name` holds.
pub fn parse_i64_header(headers: &HeaderMap, name: &str) -> (r: Option<i64>)
    ensures
        match r {
            Some(n) => field_number(header_fields(*headers), name@) == Some(n as int),
            None => field_number(header_fields(*headers), name@) is None,
        },
{
    match header_value(headers, name) {
        Some(value) => parse_signed(value.as_str()),
        None => None,
    }
}

/// Whether `c` may stand in a header name.
pub open spec fn is_name_char(c: char) -> bool {
    ||| 'a' <= c <= 'z'
    ||| 'A' <= c <= 'Z'
    ||| '0' <= c <= '9'
    ||| c == '!' || c == '#' || c == '$' || c == '%' || c == '&' || c == '\'' || c == '*'
    ||| c == '+' || c == '-' || c == '.' || c == '^' || c == '_' || c == '`' || c == '|' || c == '~'
}

/// Whether `s` is a header name.
pub open spec fn is_header_name(s: Seq<char>) -> bool {
    0 < s.len() <= 65535 && forall|i: int| 0 <= i < s.len() ==> is_name_char(#[trigger] s[i])
}

/// Whether bytes are a header value: no control character but the tab.
pub open spec fn is_value_bytes(bytes: Seq<u8>) -> bool {
    forall|i: int|
        0 <= i < bytes.len() ==> (#[trigger] bytes[i] >= 32 && bytes[i] != 127 || bytes[i] == 9)
}

/// `HeaderName::try_from` accepts exactly the texts of 1 to 65535 token characters and gives
/// the name in lower case; its error has one message.
#[verifier::external_body]
pub(crate) fn header_name(name: &str) -> (r: Result<String, String>)
    ensures
        match r {
            Ok(n) => is_header_name(name@) && n@ == ascii_lower_spec(name@),
            Err(m) => !is_header_name(name@) && m@ == "invalid HTTP header name"@,
        },
{
    match axum::http::HeaderName::try_from(name) {
        Ok(n) => Ok(n.as_str().to_string()),
        Err(e) => Err(e.to_string()),
    }
}

/// `HeaderValue::try_from` accepts exactly the texts whose bytes hold no control character
/// but the tab; its error has one message.
#[verifier::external_body]
pub(crate) fn check_header_value(value: &str) -> (r: Result<(), String>)
    ensures
        match r {
            Ok(_) => is_value_bytes(encode_utf8(value@)),
            Err(m) => !is_value_bytes(encode_utf8(value@)) && m@ == "failed to parse header value"@,
        },
{
    match axum::http::HeaderValue::try_from(value) {
        Ok(_) => Ok(()),
        Err(e) => Err(e.to_string()),
    }
}

/// `HeaderMap::remove` takes a field with all its values out of the map, its name found without
/// regard to case, and leaves the other fields as they are.
#[verifier::external_body]
pub(crate) fn remove_header(headers: &mut HeaderMap, name: &str)
    ensures
        header_fields(*final(headers)) == header_fields(*old(headers)).remove(
            ascii_lower_spec(name@),
        ),
{
    headers.remove(name);
}

/// `HeaderMap::contains_key` tells whether the map has a field, its name found without regard to
/// case.
#[verifier::external_body]
pub(crate) fn has_header(headers: &HeaderMap, name: &str) -> (r: bool)
    ensures
        r == header_fields(*headers).dom().contains(ascii_lower_spec(name@)),
{
    headers.contains_key(name)
}

} // verus!
