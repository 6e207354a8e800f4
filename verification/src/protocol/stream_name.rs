//! Stream name validation.

use vstd::prelude::*;
use vstd::utf8::encode_utf8;
use crate::decimal::{decimal, u64_text};
use crate::protocol::error::Error;
use crate::protocol::problem::{ProblemResponse, ProblemView, ResponseView};
use crate::text::{
    chars_of, joined3, joined5, lemma_split, same, split, split_spec, strip_prefix, text_opt, texts,
};

verus! {

/// Configurable limits for stream name validation.
#[derive(Debug, Clone, Copy)]
pub struct StreamNameLimits {
    /// Maximum byte length of the stream name.
    pub max_bytes: usize,
    /// Maximum number of `/`-separated segments in the stream name.
    pub max_segments: usize,
}

/// Validated stream name extracted from the request path.
///
/// The request path may include a leading `/`, which is stripped before validation.
pub struct StreamName(pub String);

/// Whether the first segment of `name` is reserved for control APIs.
pub open spec fn reserved_spec(name: Seq<char>) -> bool {
    split_spec(name, '/')[0] == "__ds"@
}

/// Structural predicates shared by literal names and subscription patterns.
/// Callers retain their own limits, wildcard policy, and error envelopes.
pub fn is_reserved(name: &str) -> (r: bool)
    ensures
        r == reserved_spec(name@),
{
    let parts = split(name, '/');
    assert(texts(parts@)[0] == parts@[0]@);
    same(parts[0].as_str(), "__ds")
}

/// Whether a segment is empty or names the current or the parent directory.
pub open spec fn bad_segment(segment: Seq<char>) -> bool {
    segment.len() == 0 || segment == "."@ || segment == ".."@
}

/// The first of the segments that is bad.
pub open spec fn first_bad(segments: Seq<Seq<char>>) -> Option<Seq<char>>
    decreases segments.len(),
{
    if segments.len() == 0 {
        None
    } else if bad_segment(segments[0]) {
        Some(segments[0])
    } else {
        first_bad(segments.skip(1))
    }
}

/// The first segment of `name` that is empty, `.` or `..`.
pub fn invalid_segment(name: &str) -> (r: Option<String>)
    ensures
        text_opt(r) == first_bad(split_spec(name@, '/')),
{
    let parts = split(name, '/');
    let ghost all = texts(parts@);
    let mut i: usize = 0;
    assert(all.skip(0) =~= all);
    while i < parts.len()
        invariant
            i <= parts@.len(),
            all == texts(parts@),
            all == split_spec(name@, '/'),
            first_bad(all) == first_bad(all.skip(i as int)),
        decreases parts.len() - i,
    {
        let ghost rest = all.skip(i as int);
        assert(rest[0] == parts@[i as int]@);
        let segment = parts[i].as_str();
        if segment.is_empty() || same(segment, ".") || same(segment, "..") {
            return Some(segment.to_owned());
        }
        assert(rest.skip(1) =~= all.skip(i + 1));
        i += 1;
    }
    None
}

/// Why a stream name is rejected, if it is.
pub open spec fn name_rejection(name: Seq<char>, limits: StreamNameLimits) -> Option<Seq<char>> {
    let segments = split_spec(name, '/');
    let bytes = encode_utf8(name).len();
    if reserved_spec(name) {
        Some("__ds is reserved for control APIs"@)
    } else if name.len() == 0 {
        Some("stream name cannot be empty"@)
    } else if name.last() == '/' {
        Some("stream name must not end with '/'"@)
    } else if first_bad(segments) is Some {
        let segment = first_bad(segments).unwrap();
        if segment.len() == 0 {
            Some("stream name contains empty segments (consecutive '/' characters)"@)
        } else {
            Some("stream name contains invalid segment '"@ + segment + "'"@)
        }
    } else if bytes > limits.max_bytes {
        Some(
            "stream name is "@ + decimal(bytes) + " bytes, which exceeds the maximum of "@ + decimal(
                limits.max_bytes as nat,
            ) + " bytes"@,
        )
    } else if segments.len() > limits.max_segments {
        Some(
            "stream name has "@ + decimal(segments.len())
                + " path segments, which exceeds the maximum of "@ + decimal(
                limits.max_segments as nat,
            ),
        )
    } else {
        None
    }
}

proof fn lemma_first_bad(segments: Seq<Seq<char>>)
    ensures
        match first_bad(segments) {
            Some(s) => bad_segment(s) && segments.contains(s),
            None => forall|i: int| 0 <= i < segments.len() ==> !bad_segment(#[trigger] segments[i]),
        },
    decreases segments.len(),
{
    if segments.len() > 0 && !bad_segment(segments[0]) {
        let t = segments.skip(1);
        lemma_first_bad(t);
        match first_bad(t) {
            Some(s) => {
                let k = choose|k: int| 0 <= k < t.len() && t[k] == s;
                assert(segments[k + 1] == s);
            },
            None => {
                assert forall|i: int| 0 <= i < segments.len() implies !bad_segment(
                    #[trigger] segments[i],
                ) by {
                    if i > 0 {
                        assert(segments[i] == t[i - 1]);
                    }
                }
            },
        }
    }
}

/// Validate a stream name against the configured limits.
///
/// Checks (in order):
/// 1. Name is non-empty
/// 2. No trailing slash
/// 3. No empty segments (consecutive slashes)
/// 4. No `.` or `..` segments (path traversal)
/// 5. Byte length within limit
/// 6. Segment count within limit
///
/// Names under the reserved first segment are rejected before anything else.
pub fn validate(name: &str, limits: &StreamNameLimits) -> (r: Result<(), String>)
    ensures
        match r {
            Ok(_) => name_rejection(name@, *limits) is None,
            Err(m) => name_rejection(name@, *limits) == Some(m@),
        },
{
    if is_reserved(name) {
        return Err("__ds is reserved for control APIs".to_owned());
    }
    if name.is_empty() {
        return Err("stream name cannot be empty".to_owned());
    }
    let chars = chars_of(name);
    if chars[chars.len() - 1] == '/' {
        return Err("stream name must not end with '/'".to_owned());
    }
    if let Some(segment) = invalid_segment(name) {
        proof {
            lemma_first_bad(split_spec(name@, '/'));
        }
        if segment.as_str().is_empty() {
            return Err(
                "stream name contains empty segments (consecutive '/' characters)".to_owned(),
            );
        }
        return Err(joined3("stream name contains invalid segment '", segment.as_str(), "'"));
    }
    let bytes: usize = name.as_bytes().len();
    if bytes > limits.max_bytes {
        return Err(
            joined5(
                "stream name is ",
                u64_text(bytes as u64).as_str(),
                " bytes, which exceeds the maximum of ",
                u64_text(limits.max_bytes as u64).as_str(),
                " bytes",
            ),
        );
    }
    let parts = split(name, '/');
    let segment_count: usize = parts.len();
    assert(texts(parts@).len() == parts@.len());
    if segment_count > limits.max_segments {
        return Err(
            crate::text::joined4(
                "stream name has ",
                u64_text(segment_count as u64).as_str(),
                " path segments, which exceeds the maximum of ",
                u64_text(limits.max_segments as u64).as_str(),
            ),
        );
    }
    Ok(())
}

/// The name in a captured path: without one leading slash.
pub open spec fn stripped(raw: Seq<char>) -> Seq<char> {
    if "/"@.is_prefix_of(raw) {
        raw.skip(1)
    } else {
        raw
    }
}

impl StreamName {
    /// The stream name in a captured path: one leading slash is stripped, the rest is
    /// validated.
    pub fn from_captured(raw: &str, limits: &StreamNameLimits) -> (r: Result<StreamName, String>)
        ensures
            match r {
                Ok(n) => n.0@ == stripped(raw@) && name_rejection(stripped(raw@), *limits) is None,
                Err(m) => name_rejection(stripped(raw@), *limits) == Some(m@),
            },
    {
        proof {
            reveal_strlit("/");
        }
        let name = match strip_prefix(raw, "/") {
            Some(rest) => rest,
            None => raw,
        };
        match validate(name, limits) {
            Ok(_) => Ok(StreamName(name.to_owned())),
            Err(m) => Err(m),
        }
    }
}

/// The response to a request whose stream name is rejected.
pub fn problem_response(reason: String, instance: Option<String>) -> (r: ProblemResponse)
    ensures
        r@ == (ResponseView {
            problem: ProblemView {
                instance: text_opt(instance),
                ..Error::InvalidStreamName(reason).problem()
            },
            headers: Seq::empty(),
            telemetry: None,
        }),
{
    let response = Error::InvalidStreamName(reason).into_problem_response();
    match instance {
        Some(i) => response.with_instance(i),
        None => response,
    }
}

/// An accepted name is not reserved, keeps both limits, and each of its segments is a
/// proper name: not empty, not `.` and not `..`.
pub proof fn law_accepted_name_is_well_formed(name: Seq<char>, limits: StreamNameLimits)
    requires
        name_rejection(name, limits) is None,
    ensures
        encode_utf8(name).len() <= limits.max_bytes,
        1 <= split_spec(name, '/').len() <= limits.max_segments,
        !reserved_spec(name),
        forall|i: int|
            0 <= i < split_spec(name, '/').len() ==> !bad_segment(#[trigger] split_spec(name, '/')[i]),
{
    lemma_first_bad(split_spec(name, '/'));
    lemma_split(name, '/');
}

/// A name is accepted exactly where it is not reserved, keeps both limits, and each of its segments
/// is a proper name.
pub proof fn law_proper_names_are_accepted(name: Seq<char>, limits: StreamNameLimits)
    ensures
        ({
            let segments = split_spec(name, '/');
            name_rejection(name, limits) is None <==> {
                &&& segments[0] != "__ds"@
                &&& forall|i: int|
                    0 <= i < segments.len() ==> (#[trigger] segments[i]).len() > 0 && segments[i]
                        != "."@ && segments[i] != ".."@
                &&& encode_utf8(name).len() <= limits.max_bytes
                &&& segments.len() <= limits.max_segments
            }
        }),
{
    let segments = split_spec(name, '/');
    lemma_split(name, '/');
    lemma_first_bad(segments);
    if name.len() == 0 {
        assert(segments =~= seq![Seq::<char>::empty()]);
        assert(segments[0].len() == 0);
    } else if name.last() == '/' {
        assert(segments.last().len() == 0);
        assert(segments[segments.len() - 1].len() == 0);
    }
    if let Some(s) = first_bad(segments) {
        let i = choose|i: int| 0 <= i < segments.len() && segments[i] == s;
        assert(bad_segment(segments[i]));
    }
}

/// One slash before a captured name does not belong to it, and no more than one.
pub proof fn law_one_leading_slash_is_stripped(name: Seq<char>)
    ensures
        stripped(seq!['/'] + name) == name,
        name.len() == 0 || name[0] != '/' ==> stripped(name) == name,
{
    reveal_strlit("/");
    let raw = seq!['/'] + name;
    assert("/"@ =~= seq!['/']);
    assert(raw.take(1) =~= "/"@);
    assert("/"@.is_prefix_of(raw));
    assert(raw.skip(1) =~= name);
    if "/"@.is_prefix_of(name) {
        assert(name[0] == "/"@[0]);
    }
}

} // verus!
