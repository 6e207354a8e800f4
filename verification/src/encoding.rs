//! Bytes and text: base64 and UTF-8.

use base64::Engine;
use vstd::prelude::*;
use vstd::utf8::{
    decode_utf8, encode_scalar, encode_utf8, last_continuation_byte, leading_byte_width_1,
    leading_byte_width_2, leading_byte_width_3, leading_byte_width_4, second_last_continuation_byte,
    third_last_continuation_byte, valid_utf8,
};

verus! {

/// The standard base64 text of bytes, padded.
pub uninterp spec fn base64_text(data: Seq<u8>) -> Seq<char>;

/// The bytes that a standard base64 text stands for; none where it is no such text, and
/// then the message of the error.
pub uninterp spec fn base64_bytes(text: Seq<char>) -> Result<Seq<u8>, Seq<char>>;

/// The text of bytes as `String::from_utf8_lossy` gives it.
pub uninterp spec fn lossy_text(data: Seq<u8>) -> Seq<char>;

/// Whether `c` is in the standard base64 alphabet or is padding.
pub open spec fn is_base64_char(c: char) -> bool {
    'A' <= c <= 'Z' || 'a' <= c <= 'z' || '0' <= c <= '9' || c == '+' || c == '/' || c == '='
}

/// Whether `s` is made of the standard base64 alphabet and padding.
pub open spec fn is_base64(s: Seq<char>) -> bool {
    forall|i: int| 0 <= i < s.len() ==> is_base64_char(#[trigger] s[i])
}

/// A decoding that succeeds.
pub open spec fn decoded(data: Seq<u8>) -> Result<Seq<u8>, Seq<char>> {
    Ok(data)
}

/// `Engine::encode` of the base64 crate's `STANDARD` engine depends on the bytes alone. The
/// result is made of the standard alphabet and padding, and decoding it gives the bytes
/// back.
#[verifier::external_body]
pub(crate) fn base64_encode(data: &[u8]) -> (r: String)
    ensures
        r@ == base64_text(data@),
        is_base64(r@),
        base64_bytes(r@) == decoded(data@),
{
    base64::engine::general_purpose::STANDARD.encode(data)
}

/// `String::from_utf8_lossy` depends on the bytes alone; bytes that are valid UTF-8 give
/// the text they encode.
#[verifier::external_body]
pub(crate) fn utf8_lossy(data: &[u8]) -> (r: String)
    ensures
        r@ == lossy_text(data@),
        valid_utf8(data@) ==> r@ == decode_utf8(data@),
{
    String::from_utf8_lossy(data).into_owned()
}

/// What `std::str::from_utf8` says of bytes that are no UTF-8.
pub uninterp spec fn utf8_error(data: Seq<u8>) -> Seq<char>;

/// `std::str::from_utf8` succeeds exactly on valid UTF-8 and gives the text that it
/// encodes; its error depends on the bytes alone.
#[verifier::external_body]
pub(crate) fn utf8_text(data: &[u8]) -> (r: Result<String, String>)
    ensures
        match r {
            Ok(t) => valid_utf8(data@) && t@ == decode_utf8(data@),
            Err(m) => !valid_utf8(data@) && m@ == utf8_error(data@),
        },
{
    match std::str::from_utf8(data) {
        Ok(t) => Ok(t.to_string()),
        Err(e) => Err(e.to_string()),
    }
}

/// `Engine::decode` of the base64 crate's `STANDARD` engine depends on the text alone.
#[verifier::external_body]
pub(crate) fn base64_decode(text: &str) -> (r: Result<Vec<u8>, String>)
    ensures
        match r {
            Ok(data) => base64_bytes(text@) matches Ok(d) && data@ == d,
            Err(m) => base64_bytes(text@) matches Err(e) && m@ == e,
        },
{
    match base64::engine::general_purpose::STANDARD.decode(text) {
        Ok(data) => Ok(data),
        Err(e) => Err(e.to_string()),
    }
}

/// The encoding of two texts one after another is the two encodings one after another.
pub proof fn lemma_encode_concat(a: Seq<char>, b: Seq<char>)
    ensures
        encode_utf8(a + b) == encode_utf8(a) + encode_utf8(b),
    decreases a.len(),
{
    if a.len() == 0 {
        assert(a + b =~= b);
        assert(encode_utf8(a) + encode_utf8(b) =~= encode_utf8(b));
    } else {
        assert((a + b).drop_first() =~= a.drop_first() + b);
        lemma_encode_concat(a.drop_first(), b);
        assert(encode_utf8(a + b) =~= encode_utf8(a) + encode_utf8(b));
    }
}

proof fn lemma_high_bytes(s: u32)
    ensures
        s <= 0x7f ==> leading_byte_width_1(s) == s,
        leading_byte_width_2(s) >= 0x80,
        leading_byte_width_3(s) >= 0x80,
        leading_byte_width_4(s) >= 0x80,
        last_continuation_byte(s) >= 0x80,
        second_last_continuation_byte(s) >= 0x80,
        third_last_continuation_byte(s) >= 0x80,
{
    assert(s <= 0x7f ==> leading_byte_width_1(s) == s) by (bit_vector);
    assert(leading_byte_width_2(s) >= 0x80) by (bit_vector);
    assert(leading_byte_width_3(s) >= 0x80) by (bit_vector);
    assert(leading_byte_width_4(s) >= 0x80) by (bit_vector);
    assert(last_continuation_byte(s) >= 0x80) by (bit_vector);
    assert(second_last_continuation_byte(s) >= 0x80) by (bit_vector);
    assert(third_last_continuation_byte(s) >= 0x80) by (bit_vector);
}

proof fn lemma_scalar_bytes(c: char, b: u8)
    requires
        b < 0x80,
        c as int != b,
    ensures
        forall|i: int|
            0 <= i < encode_scalar(c as u32).len() ==> #[trigger] encode_scalar(c as u32)[i] != b,
{
    lemma_high_bytes(c as u32);
}

/// An ASCII byte is in the encoding of a text only where its character is in the text.
pub proof fn lemma_encode_ascii_byte(s: Seq<char>, b: u8)
    requires
        b < 0x80,
        forall|i: int| 0 <= i < s.len() ==> #[trigger] s[i] as int != b,
    ensures
        forall|i: int| 0 <= i < encode_utf8(s).len() ==> #[trigger] encode_utf8(s)[i] != b,
    decreases s.len(),
{
    if s.len() > 0 {
        let c = s[0];
        let rest = s.drop_first();
        assert forall|i: int| 0 <= i < rest.len() implies #[trigger] rest[i] as int != b by {
            assert(rest[i] == s[i + 1]);
        }
        lemma_encode_ascii_byte(rest, b);
        lemma_scalar_bytes(c, b);
        let head = encode_scalar(c as u32);
        let e = encode_utf8(s);
        assert forall|i: int| 0 <= i < e.len() implies #[trigger] e[i] != b by {
            if i < head.len() {
                assert(e[i] == head[i]);
            } else {
                assert(e[i] == encode_utf8(rest)[i - head.len()]);
            }
        }
    }
}

/// An ASCII character is encoded as one byte.
pub proof fn lemma_encode_ascii_char(c: char)
    requires
        c as int <= 0x7f,
    ensures
        encode_utf8(seq![c]) == seq![c as u8],
{
    lemma_high_bytes(c as u32);
    assert(seq![c].drop_first() =~= Seq::<char>::empty());
    assert(encode_utf8(Seq::<char>::empty()) =~= Seq::<u8>::empty());
    assert(encode_utf8(seq![c]) =~= seq![c as u8]);
}

} // verus!
