//! Headers that every response carries.

use axum::http::HeaderMap;
use vstd::prelude::*;
use crate::fields::fields;
use crate::http::{field_text, header_fields, header_value};
use crate::text::{same, starts_with};

verus! {

/// How long a response with this content type may be kept: keys for five minutes, events only
/// after asking, anything else not at all.
pub open spec fn cache_policy(content_type: Option<Seq<char>>) -> Seq<char> {
    match content_type {
        Some(t) => if t == "application/jwk-set+json"@ {
            "public, max-age=300"@
        } else if "text/event-stream"@.is_prefix_of(t) {
            "no-cache"@
        } else {
            "no-store"@
        },
        None => "no-store"@,
    }
}

/// The headers to set on a response with these headers:
/// - `Cache-Control: no-store` (`no-cache` for SSE; a five-minute public cache for JWKS)
/// - `X-Content-Type-Options: nosniff` - Prevents MIME type sniffing
/// - `Cross-Origin-Resource-Policy: cross-origin` - Allows cross-origin access
pub fn add_security_headers(headers: &HeaderMap) -> (r: Vec<(String, String)>)
    ensures
        fields(r@) == seq![
            ("cache-control"@, cache_policy(field_text(header_fields(*headers), "content-type"@))),
            ("x-content-type-options"@, "nosniff"@),
            ("cross-origin-resource-policy"@, "cross-origin"@),
        ],
{
    let cache_control: &'static str = match header_value(headers, "content-type") {
        Some(t) => if same(t.as_str(), "application/jwk-set+json") {
            "public, max-age=300"
        } else if starts_with(t.as_str(), "text/event-stream") {
            "no-cache"
        } else {
            "no-store"
        },
        None => "no-store",
    };
    let mut r: Vec<(String, String)> = Vec::new();
    r.push(("cache-control".to_owned(), cache_control.to_owned()));
    r.push(("x-content-type-options".to_owned(), "nosniff".to_owned()));
    r.push(("cross-origin-resource-policy".to_owned(), "cross-origin".to_owned()));
    assert(fields(r@) =~= seq![
        ("cache-control"@, cache_control@),
        ("x-content-type-options"@, "nosniff"@),
        ("cross-origin-resource-policy"@, "cross-origin"@),
    ]);
    r
}

/// Nothing that a stream holds is kept without asking: only the answers with public keys may be
/// kept, and events may be kept where the server is asked each time.
pub proof fn law_streams_are_not_kept(content_type: Option<Seq<char>>)
    ensures
        cache_policy(content_type) == "public, max-age=300"@ <==> content_type == Some(
            "application/jwk-set+json"@,
        ),
        cache_policy(content_type) == "no-cache"@ <==> (content_type matches Some(t)
            && "text/event-stream"@.is_prefix_of(t)),
        cache_policy(content_type) != "public, max-age=300"@ && cache_policy(content_type)
            != "no-cache"@ ==> cache_policy(content_type) == "no-store"@,
{
    reveal_strlit("public, max-age=300");
    reveal_strlit("no-cache");
    reveal_strlit("no-store");
    reveal_strlit("application/jwk-set+json");
    reveal_strlit("text/event-stream");
    assert("no-cache"@[3] == 'c' && "no-store"@[3] == 's');
    assert("application/jwk-set+json"@[0] == 'a' && "text/event-stream"@[0] == 't');
}

} // verus!
