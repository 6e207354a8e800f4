//! Protocol header values.

use vstd::prelude::*;
use crate::decimal::{
    decimal, int_error, is_digit, lemma_canonical_numeral, lemma_decimal_round_trip, parse_unsigned,
    unsigned_value,
};
use crate::protocol::error::{Error, Result};
use crate::text::{
    ascii_lower, ascii_lower_spec, before, before_spec, chars_of, contains_char, joined, joined3,
    lemma_find, lemma_find_at, lemma_trim_ends, lemma_trim_idempotent, lemma_trim_inside,
    same_ignore_ascii_case, trim, trim_spec, unicode_lowercase,
};
use crate::time::Timestamp;

pub mod names;

verus! {

/// Why a trimmed TTL value is rejected, if it is.
pub open spec fn ttl_rejection(t: Seq<char>) -> Option<Seq<char>> {
    if t.len() == 0 {
        Some("empty value"@)
    } else if t.len() > 1 && t[0] == '0' {
        Some("leading zeros not allowed: '"@ + t + "'"@)
    } else if t.contains('.') {
        Some("decimal values not allowed: '"@ + t + "'"@)
    } else if t.contains('e') || t.contains('E') {
        Some("scientific notation not allowed: '"@ + t + "'"@)
    } else if t[0] == '-' {
        Some("negative values not allowed: '"@ + t + "'"@)
    } else if t[0] == '+' {
        Some("leading plus sign not allowed: '"@ + t + "'"@)
    } else if unsigned_value(t, u64::MAX as nat) is None {
        Some("invalid integer '"@ + t + "': "@ + int_error(t, u64::MAX as nat).message())
    } else {
        None
    }
}

/// Parse TTL header value
///
/// Validates that the TTL is a valid unsigned integer with no leading zeros,
/// no decimal points, and no scientific notation.
pub fn parse_ttl(value: &str) -> (r: Result<u64>)
    ensures
        match r {
            Ok(n) => ttl_rejection(trim_spec(value@)) is None && unsigned_value(
                trim_spec(value@),
                u64::MAX as nat,
            ) == Some(n as nat),
            Err(Error::InvalidTtl(reason)) => ttl_rejection(trim_spec(value@)) == Some(reason@),
            Err(_) => false,
        },
{
    let trimmed = trim(value);
    let chars = chars_of(trimmed);
    if chars.len() == 0 {
        return Err(Error::InvalidTtl("empty value".to_owned()));
    }
    if chars.len() > 1 && chars[0] == '0' {
        return Err(Error::InvalidTtl(joined3("leading zeros not allowed: '", trimmed, "'")));
    }
    if contains_char(trimmed, '.') {
        return Err(Error::InvalidTtl(joined3("decimal values not allowed: '", trimmed, "'")));
    }
    if contains_char(trimmed, 'e') || contains_char(trimmed, 'E') {
        return Err(Error::InvalidTtl(joined3("scientific notation not allowed: '", trimmed, "'")));
    }
    if chars[0] == '-' {
        return Err(Error::InvalidTtl(joined3("negative values not allowed: '", trimmed, "'")));
    }
    if chars[0] == '+' {
        return Err(Error::InvalidTtl(joined3("leading plus sign not allowed: '", trimmed, "'")));
    }
    match parse_unsigned(trimmed, u64::MAX) {
        Ok(n) => Ok(n),
        Err(e) => {
            let mut m = joined3("invalid integer '", trimmed, "': ");
            let reason = joined(m.as_str(), e.as_str());
            Err(Error::InvalidTtl(reason))
        },
    }
}

/// A TTL is accepted exactly where it is, white space aside, the numeral of a 64-bit number.
pub proof fn law_ttl_is_canonical_numeral(value: Seq<char>, n: u64)
    ensures
        (ttl_rejection(trim_spec(value)) is None && unsigned_value(
            trim_spec(value),
            u64::MAX as nat,
        ) == Some(n as nat)) <==> trim_spec(value) == decimal(n as nat),
{
    let t = trim_spec(value);
    if ttl_rejection(t) is None && unsigned_value(t, u64::MAX as nat) == Some(n as nat) {
        lemma_canonical_numeral(t);
    }
    if t == decimal(n as nat) {
        lemma_decimal_round_trip(n as nat, u64::MAX as nat);
        assert(is_digit(t[0]));
        assert forall|i: int| 0 <= i < t.len() implies #[trigger] t[i] != '.' && t[i] != 'e' && t[i]
            != 'E' by {
            assert(is_digit(t[i]));
        }
        if n == 0 {
            assert(t.len() == 1);
        }
    }
}

/// The moment that a text names, as chrono reads it, in seconds and nanoseconds; else the
/// message of the error.
pub uninterp spec fn utc_timestamp(value: Seq<char>) -> std::result::Result<(i64, u32), Seq<char>>;

/// `str::parse` to chrono's `DateTime<Utc>` depends on the text alone. `timestamp` and
/// `timestamp_subsec_nanos` take the moment apart.
#[verifier::external_body]
fn read_utc_timestamp(value: &str) -> (r: std::result::Result<(i64, u32), String>)
    ensures
        match r {
            Ok(t) => utc_timestamp(value@) matches Ok(u) && t == u,
            Err(m) => utc_timestamp(value@) matches Err(u) && m@ == u,
        },
{
    match value.parse::<chrono::DateTime<chrono::Utc>>() {
        Ok(t) => Ok((t.timestamp(), t.timestamp_subsec_nanos())),
        Err(e) => Err(e.to_string()),
    }
}

/// What an expiry value that was read, or not, comes to.
pub fn expires_at_of(read: std::result::Result<(i64, u32), String>) -> (r: Result<Timestamp>)
    ensures
        match (read, r) {
            (Ok(t), Ok(at)) => at == (Timestamp { seconds: t.0, nanos: t.1 }),
            (Err(m), Err(Error::InvalidHeader { header, reason })) => header@
                == "Stream-Expires-At"@ && reason@ == "invalid ISO 8601 timestamp: "@ + m@,
            _ => false,
        },
{
    match read {
        Ok(t) => Ok(Timestamp { seconds: t.0, nanos: t.1 }),
        Err(m) => Err(
            Error::InvalidHeader {
                header: names::STREAM_EXPIRES_AT.to_owned(),
                reason: joined("invalid ISO 8601 timestamp: ", m.as_str()),
            },
        ),
    }
}

/// Parse Expires-At header value (ISO 8601 timestamp)
pub fn parse_expires_at(value: &str) -> (r: Result<Timestamp>)
    ensures
        match (utc_timestamp(value@), r) {
            (Ok(t), Ok(at)) => at == (Timestamp { seconds: t.0, nanos: t.1 }),
            (Err(m), Err(Error::InvalidHeader { header, reason })) => header@
                == "Stream-Expires-At"@ && reason@ == "invalid ISO 8601 timestamp: "@ + m,
            _ => false,
        },
{
    expires_at_of(read_utc_timestamp(value))
}

/// Whether a value is "true", white space and case aside.
pub open spec fn is_true_text(value: Seq<char>) -> bool {
    ascii_lower_spec(trim_spec(value)) == ascii_lower_spec("true"@)
}

/// Parse boolean header value
///
/// Accepts "true" (case-insensitive) as true, anything else as false.
#[must_use]
pub fn parse_bool(value: &str) -> (r: bool)
    ensures
        r == is_true_text(value@),
{
    same_ignore_ascii_case(trim(value), "true")
}

/// The normal form of a content type: lower-case, without parameters.
pub open spec fn normalized_content_type(content_type: Seq<char>) -> Seq<char> {
    unicode_lowercase(trim_spec(before_spec(content_type, ';')))
}

/// The normal form of a content type whose main part is ASCII text.
pub open spec fn normalized_ascii_content_type(content_type: Seq<char>) -> Seq<char> {
    ascii_lower_spec(trim_spec(before_spec(content_type, ';')))
}

/// Normalize content type for storage and comparison
///
/// Lowercases the content type and strips charset parameter.
/// Example: "text/plain; charset=utf-8" → "text/plain"
#[must_use]
pub fn normalize_content_type(content_type: &str) -> (r: String)
    ensures
        r@ == normalized_content_type(content_type@),
        vstd::utf8::is_ascii_chars(trim_spec(before_spec(content_type@, ';'))) ==> r@
            == normalized_ascii_content_type(content_type@),
{
    let main = before(content_type, ';');
    trim(main.as_str()).to_lowercase()
}

/// Normalizing an ASCII content type twice is normalizing it once.
pub proof fn law_normalize_content_type_idempotent(content_type: Seq<char>)
    requires
        vstd::utf8::is_ascii_chars(trim_spec(before_spec(content_type, ';'))),
    ensures
        ({
            let n = normalized_ascii_content_type(content_type);
            &&& vstd::utf8::is_ascii_chars(trim_spec(before_spec(n, ';')))
            &&& normalized_ascii_content_type(n) == n
        }),
{
    let b = before_spec(content_type, ';');
    let t = trim_spec(b);
    let n = ascii_lower_spec(t);
    lemma_find(content_type, ';');
    assert forall|j: int| 0 <= j < b.len() implies #[trigger] b[j] != ';' by {
        assert(b[j] == content_type[j]);
    }
    lemma_trim_inside(b);
    assert forall|j: int| 0 <= j < n.len() implies #[trigger] n[j] != ';' by {
        assert(n[j] == ascii_lower(t[j]));
    }
    lemma_find_at(n, ';', n.len() as int);
    assert(before_spec(n, ';') =~= n);
    lemma_trim_idempotent(b);
    lemma_trim_ends(b);
    if t.len() > 0 {
        assert(n[0] == ascii_lower(t[0]));
        assert(n.last() == ascii_lower(t.last()));
    }
    assert(trim_spec(n) == n);
    assert(ascii_lower_spec(n) =~= n);
    assert forall|j: int| 0 <= j < n.len() implies 0 <= #[trigger] n[j] as nat <= 127 by {
        assert(n[j] == ascii_lower(t[j]));
        assert(0 <= t[j] as nat <= 127);
    }
}

} // verus!
