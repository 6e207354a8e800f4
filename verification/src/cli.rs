//! The command line: what is shown, and what is refused.

use vstd::prelude::*;
use vstd::utf8::{encode_utf8, is_ascii_chars, is_ascii_chars_encode_utf8};
use crate::config::model::{Config, Settings};
use crate::config::modes::{AcidBackend, StorageMode};
use crate::encoding::lemma_encode_concat;
use crate::text::{chars_of, joined, string_of, str_opt};

verus! {

/// How many bytes a text has.
pub open spec fn byte_len(s: Seq<char>) -> nat {
    encode_utf8(s).len()
}

/// Whether `k` characters are the longest beginning of a text that has at most `limit` bytes.
pub open spec fn is_longest_fit(s: Seq<char>, k: int, limit: nat) -> bool {
    &&& 0 <= k <= s.len()
    &&& byte_len(s.take(k)) <= limit
    &&& k < s.len() ==> byte_len(s.take(k + 1)) > limit
}

/// Whether a text is another cut to `max` bytes: unchanged where it fits, else as much of its
/// beginning as leaves room for three dots, and the dots alone where there is no room.
pub open spec fn is_truncated(r: Seq<char>, s: Seq<char>, max: nat) -> bool {
    if byte_len(s) <= max {
        r == s
    } else if max <= 3 {
        r == "..."@.take(max as int)
    } else {
        exists|k: int| #[trigger] is_longest_fit(s, k, (max - 3) as nat) && r == s.take(k) + "..."@
    }
}

fn byte_count(s: &str) -> (r: usize)
    ensures
        r == byte_len(s@),
{
    s.as_bytes_vec().len()
}

/// Cuts a text to at most `max` bytes without breaking a character.
pub fn truncate(s: &str, max: usize) -> (r: String)
    ensures
        is_truncated(r@, s@, max as nat),
{
    if byte_count(s) <= max {
        return s.to_owned();
    }
    proof {
        reveal_strlit("...");
    }
    if max <= 3 {
        let dots = chars_of("...");
        let r = string_of(&dots, 0, max);
        assert(r@ =~= "..."@.take(max as int));
        return r;
    }
    let limit: usize = max - 3;
    let v = chars_of(s);
    let mut used: usize = 0;
    let mut k: usize = 0;
    let mut fits = true;
    assert(s@.take(0) =~= Seq::<char>::empty());
    while fits && k < v.len()
        invariant
            k <= v@.len(),
            v@ == s@,
            used == byte_len(s@.take(k as int)),
            used <= limit,
            !fits ==> k < v@.len() && byte_len(s@.take(k + 1)) > limit,
        decreases v.len() - k, if fits { 1int } else { 0 },
    {
        let one = string_of(&v, k, k + 1);
        let width: usize = byte_count(one.as_str());
        proof {
            assert(s@.take(k + 1) =~= s@.take(k as int) + one@);
            lemma_encode_concat(s@.take(k as int), one@);
        }
        if width <= limit - used {
            used = used + width;
            k += 1;
        } else {
            fits = false;
        }
    }
    let head = string_of(&v, 0, k);
    let r = joined(head.as_str(), "...");
    proof {
        assert(head@ =~= s@.take(k as int));
        assert(is_longest_fit(s@, k as int, (max as nat - 3) as nat));
        assert(r@ == s@.take(k as int) + "..."@);
    }
    r
}

/// A cut text has no more bytes than allowed.
pub proof fn law_truncated_text_fits(r: Seq<char>, s: Seq<char>, max: nat)
    requires
        is_truncated(r, s, max),
    ensures
        byte_len(r) <= max,
{
    reveal_strlit("...");
    let dots = "..."@;
    lemma_ascii_bytes(dots);
    if byte_len(s) > max {
        if max <= 3 {
            lemma_ascii_bytes(dots.take(max as int));
        } else {
            let k = choose|k: int|
                #[trigger] is_longest_fit(s, k, (max - 3) as nat) && r == s.take(k) + "..."@;
            lemma_encode_concat(s.take(k), dots);
        }
    }
}

proof fn lemma_ascii_bytes(s: Seq<char>)
    requires
        forall|i: int| 0 <= i < s.len() ==> #[trigger] s[i] == '.',
    ensures
        byte_len(s) == s.len(),
{
    assert(is_ascii_chars(s));
    is_ascii_chars_encode_utf8(s);
}

/// Why the streams of a configured storage cannot be listed without asking a server, if they
/// cannot: it keeps nothing that another process could see.
pub open spec fn list_refusal_spec(s: Settings) -> Option<Seq<char>> {
    if s.storage_mode == StorageMode::Acid && s.acid_backend == AcidBackend::InMemory {
        Some(
            "cannot list local streams for storage.acid_backend='in-memory': storage is process-local and has no durable state to inspect; use acid_backend='file', or pass --url to query an explicitly enabled admin endpoint"@,
        )
    } else if s.storage_mode == StorageMode::Memory {
        Some(
            "cannot list local streams for storage.mode='memory': in-memory storage is process-local and has no durable state to inspect; use file or acid storage, or pass --url to query an explicitly enabled admin endpoint"@,
        )
    } else {
        None
    }
}

/// Why the streams of a configured storage cannot be listed without asking a server, if they
/// cannot.
pub fn list_refusal(config: &Config) -> (r: Option<&'static str>)
    ensures
        str_opt(r) == list_refusal_spec(config@),
{
    if config.storage.mode == StorageMode::Acid && config.storage.acid_backend
        == AcidBackend::InMemory {
        return Some(
            "cannot list local streams for storage.acid_backend='in-memory': storage is process-local and has no durable state to inspect; use acid_backend='file', or pass --url to query an explicitly enabled admin endpoint",
        );
    }
    if config.storage.mode == StorageMode::Memory {
        return Some(
            "cannot list local streams for storage.mode='memory': in-memory storage is process-local and has no durable state to inspect; use file or acid storage, or pass --url to query an explicitly enabled admin endpoint",
        );
    }
    None
}

/// Streams can be listed without a server exactly where storage keeps them where another process can
/// see them.
pub proof fn law_only_stored_streams_are_listed(s: Settings)
    ensures
        list_refusal_spec(s) is None <==> s.storage_mode == StorageMode::FileFast || s.storage_mode
            == StorageMode::FileDurable || (s.storage_mode == StorageMode::Acid && s.acid_backend
            != AcidBackend::InMemory),
{
}

} // verus!
