//! Stream names: limits, segments and the reserved prefix.

use durable_streams::protocol::stream_name::{
    StreamName, StreamNameLimits, invalid_segment, is_reserved, problem_response, validate,
};

fn default_limits() -> StreamNameLimits {
    StreamNameLimits {
        max_bytes: 1024,
        max_segments: 8,
    }
}

/// Helper: strip leading slash then validate, mirroring the extractor flow.
fn strip_and_validate(raw: &str, limits: &StreamNameLimits) -> Result<String, String> {
    let name = raw.strip_prefix('/').unwrap_or(raw);
    validate(name, limits)?;
    Ok(name.to_string())
}

#[test]
fn flat_name_passes() {
    let result = strip_and_validate("my-stream", &default_limits());
    assert_eq!(result.unwrap(), "my-stream");
}

#[test]
fn nested_name_passes() {
    let result = strip_and_validate("a/b/c", &default_limits());
    assert_eq!(result.unwrap(), "a/b/c");
}

#[test]
fn leading_slash_stripped() {
    let result = strip_and_validate("/my-stream", &default_limits());
    assert_eq!(result.unwrap(), "my-stream");
}

#[test]
fn leading_slash_stripped_nested() {
    let result = strip_and_validate("/slides/abc123", &default_limits());
    assert_eq!(result.unwrap(), "slides/abc123");
}

#[test]
fn empty_name_rejected() {
    let result = strip_and_validate("", &default_limits());
    assert!(result.unwrap_err().contains("cannot be empty"));
}

#[test]
fn slash_only_rejected() {
    let result = strip_and_validate("/", &default_limits());
    assert!(result.unwrap_err().contains("cannot be empty"));
}

#[test]
fn exceeds_byte_limit_rejected() {
    let limits = StreamNameLimits {
        max_bytes: 10,
        max_segments: 8,
    };
    let err = strip_and_validate("this-is-way-too-long", &limits).unwrap_err();
    assert!(
        err.contains("20 bytes"),
        "should include actual length: {err}"
    );
    assert!(
        err.contains("maximum of 10 bytes"),
        "should include limit: {err}"
    );
}

#[test]
fn exceeds_segment_limit_rejected() {
    let limits = StreamNameLimits {
        max_bytes: 1024,
        max_segments: 3,
    };
    let err = strip_and_validate("a/b/c/d", &limits).unwrap_err();
    assert!(
        err.contains("4 path segments"),
        "should include actual count: {err}"
    );
    assert!(err.contains("maximum of 3"), "should include limit: {err}");
}

#[test]
fn exactly_at_segment_limit_passes() {
    let limits = StreamNameLimits {
        max_bytes: 1024,
        max_segments: 3,
    };
    assert_eq!(strip_and_validate("a/b/c", &limits).unwrap(), "a/b/c");
}

#[test]
fn exactly_at_byte_limit_passes() {
    let limits = StreamNameLimits {
        max_bytes: 5,
        max_segments: 8,
    };
    assert_eq!(strip_and_validate("abcde", &limits).unwrap(), "abcde");
}

// --- segment validation ---

#[test]
fn trailing_slash_rejected() {
    let err = strip_and_validate("slides/abc123/", &default_limits()).unwrap_err();
    assert!(err.contains("must not end with '/'"), "got: {err}");
}

#[test]
fn empty_segment_rejected() {
    let err = strip_and_validate("a//b", &default_limits()).unwrap_err();
    assert!(err.contains("empty segments"), "got: {err}");
}

#[test]
fn dot_segment_rejected() {
    let err = strip_and_validate("a/./b", &default_limits()).unwrap_err();
    assert!(err.contains("invalid segment '.'"), "got: {err}");
}

#[test]
fn dot_dot_segment_rejected() {
    let err = strip_and_validate("a/../b", &default_limits()).unwrap_err();
    assert!(err.contains("invalid segment '..'"), "got: {err}");
}

#[test]
fn leading_dot_dot_rejected() {
    let err = strip_and_validate("../etc/passwd", &default_limits()).unwrap_err();
    assert!(err.contains("invalid segment '..'"), "got: {err}");
}

#[test]
fn dot_in_segment_name_allowed() {
    // "v1.2" contains a dot but is not "." or ".."
    let result = strip_and_validate("releases/v1.2", &default_limits());
    assert_eq!(result.unwrap(), "releases/v1.2");
}

#[test]
fn dotdot_prefix_in_segment_allowed() {
    // "..foo" starts with dots but is not ".."
    let result = strip_and_validate("a/..foo/b", &default_limits());
    assert_eq!(result.unwrap(), "a/..foo/b");
}

#[test]
fn captured_names_lose_one_slash() {
    assert_eq!(StreamName::from_captured("/a/b", &default_limits()).unwrap().0, "a/b");
    assert!(StreamName::from_captured("//a", &default_limits()).is_err());
}

#[test]
fn reserved_names_are_told_by_their_first_segment() {
    assert!(is_reserved("__ds"));
    assert!(is_reserved("__ds/x"));
    assert!(!is_reserved("__dsx"));
    assert!(!is_reserved("a/__ds"));
    assert!(validate("__ds/x", &default_limits()).is_err());
}

#[test]
fn first_bad_segment_is_reported() {
    assert_eq!(invalid_segment("a/../."), Some("..".to_string()));
    assert_eq!(invalid_segment("a/b"), None);
}

#[test]
fn byte_limit_counts_bytes_not_characters() {
    let limits = StreamNameLimits { max_bytes: 3, max_segments: 8 };
    assert!(validate("\u{e9}a", &limits).is_ok());
    assert!(validate("\u{e9}\u{e9}", &limits).unwrap_err().contains("4 bytes"));
}

#[test]
fn rejected_names_become_problems() {
    let response = problem_response("bad name".to_string(), Some("/v1/stream/x".to_string()));
    assert_eq!(response.problem.status, 400);
    assert_eq!(response.problem.instance.as_deref(), Some("/v1/stream/x"));
}
