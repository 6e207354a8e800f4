//! Protocol errors and the problems they become.

use durable_streams::protocol::error::{Error, IoFailureKind, StorageFailureClass};
use durable_streams::protocol::problem::{ProblemDetails, ProblemResponse, request_instance};
use std::io;

#[test]
fn classify_io_failure_maps_transient_errors_to_503() {
    let error = io::Error::new(io::ErrorKind::TimedOut, "backend timed out");
    let response = Error::classify_io_failure(
        "file",
        "append stream log".to_string(),
        "failed to append stream log: backend timed out".to_string(),
        &error,
    )
    .into_problem_response();

    assert_eq!(response.problem.status, 503);
    assert_eq!(
        response
            .headers
            .iter()
            .find(|(name, _)| name.eq_ignore_ascii_case("retry-after"))
            .map(|(_, value)| value.as_str()),
        Some("1")
    );
}

#[test]
fn classify_io_failure_maps_capacity_errors_to_507() {
    let error = io::Error::new(io::ErrorKind::StorageFull, "disk full");
    let response = Error::classify_io_failure(
        "file",
        "sync stream log".to_string(),
        "failed to sync stream log: disk full".to_string(),
        &error,
    )
    .into_problem_response();

    assert_eq!(response.problem.status, 507);
    assert!(!response.headers.iter().any(|(name, _)| name.eq_ignore_ascii_case("retry-after")));
}

fn all_errors() -> Vec<(Error, u16)> {
    vec![
        (Error::NotFound("missing".into()), 404),
        (Error::ConfigMismatch, 409),
        (Error::InvalidOffset("bad".into()), 400),
        (
            Error::ContentTypeMismatch {
                expected: "text/plain".into(),
                actual: "application/json".into(),
            },
            409,
        ),
        (Error::StreamClosed, 409),
        (Error::SequenceGap { expected: 3, actual: 5 }, 409),
        (Error::EpochFenced { current: 3, received: 1 }, 403),
        (Error::InvalidProducerState("incomplete headers".into()), 400),
        (Error::MemoryLimitExceeded, 413),
        (Error::StreamSizeLimitExceeded, 413),
        (Error::InvalidTtl("bad".into()), 400),
        (Error::ConflictingExpiration, 400),
        (Error::StreamExpired, 404),
        (Error::InvalidJson("bad".into()), 400),
        (Error::EmptyBody, 400),
        (Error::EmptyArray, 400),
        (
            Error::InvalidHeader { header: "Stream-Seq".into(), reason: "bad".into() },
            400,
        ),
        (Error::InvalidStreamName("bad".into()), 400),
        (
            Error::SeqOrderingViolation { last: "b".into(), received: "a".into() },
            409,
        ),
        (
            Error::storage_unavailable("file", "append".into(), "private timeout".into()),
            503,
        ),
        (
            Error::storage_insufficient("acid", "commit".into(), "private disk path".into()),
            507,
        ),
        (Error::StreamGone("deleted".into()), 410),
        (Error::StreamPathBlocked("reserved".into()), 409),
        (Error::ForkOffsetBeyondTail, 400),
        (Error::ForkFromTombstone("deleted".into()), 409),
        (Error::Storage("private internal failure".into()), 500),
    ]
}

#[test]
fn test_error_response_wire_contract() {
    for (error, expected) in all_errors() {
        let expected_status = error.status_code();
        assert_eq!(expected_status, expected, "{}", error.to_string());
        let is_unavailable = matches!(error, Error::Unavailable(_));
        let response = error.into_problem_response().into_wire();
        assert_eq!(response.status, expected_status);
        let header = |name: &str| {
            response
                .headers
                .iter()
                .find(|(n, _)| n.eq_ignore_ascii_case(name))
                .map(|(_, value)| value.as_str())
        };
        assert_eq!(header("content-type"), Some("application/problem+json"));
        assert_eq!(header("retry-after"), if is_unavailable { Some("1") } else { None });
        let body: serde_json::Value = serde_json::from_str(&response.body).unwrap();
        let telemetry = &response.telemetry;
        assert_eq!(body["status"].as_u64(), Some(u64::from(expected)));
        assert_eq!(body["type"].as_str(), Some(telemetry.problem_type.as_str()));
        assert_eq!(body["code"].as_str(), Some(telemetry.code.as_str()));
        assert_eq!(body["title"].as_str(), Some(telemetry.title.as_str()));
        assert_eq!(body.get("detail").and_then(|d| d.as_str()), telemetry.detail.as_deref());
        assert_eq!(telemetry.retry_after_secs.is_some(), is_unavailable);
        assert!(!response.body.contains("private"), "{}", response.body);
        if expected >= 500 {
            assert!(telemetry.internal_detail.as_deref().expect("detail").contains("private"));
            assert!(telemetry.error_class.is_some());
        }
    }
}

#[test]
fn messages_say_what_happened() {
    assert_eq!(Error::NotFound("x".into()).to_string(), "Stream not found: x");
    let failure = Error::storage_unavailable("file", "append".into(), "slow".into());
    match &failure {
        Error::Unavailable(f) => {
            assert_eq!(f.to_string(), "file append: slow");
            assert_eq!(f.class, StorageFailureClass::Unavailable);
            assert_eq!(f.class.as_str(), "unavailable");
        }
        _ => panic!("unavailable storage is unavailable"),
    }
}

#[test]
fn io_kinds_are_classified() {
    for kind in [IoFailureKind::Interrupted, IoFailureKind::WouldBlock, IoFailureKind::TimedOut] {
        assert!(Error::is_retryable_io_kind(kind));
        let error = Error::classify_io_kind("b", "o".into(), "d".into(), kind);
        assert!(matches!(error, Error::Unavailable(_)));
    }
    assert!(!Error::is_retryable_io_kind(IoFailureKind::StorageFull));
    assert!(Error::is_retryable_io_error(&io::Error::from(io::ErrorKind::WouldBlock)));
    assert!(!Error::is_retryable_io_error(&io::Error::from(io::ErrorKind::NotFound)));
}

#[test]
fn problems_are_built_step_by_step() {
    let problem = ProblemDetails::new("/errors/x", "X", 418, "X_CODE")
        .with_detail("why".to_string())
        .with_instance("/a".to_string());
    let response = ProblemResponse::new(problem)
        .with_header("Retry-After".to_string(), "1".to_string())
        .with_header("Retry-After".to_string(), "2".to_string());
    assert_eq!(response.problem.detail.as_deref(), Some("why"));
    assert_eq!(response.headers, vec![("Retry-After".to_string(), "2".to_string())]);
    let wire = response.into_wire();
    assert_eq!(wire.status, 418);
    assert_eq!(
        wire.body,
        r#"{"type":"/errors/x","title":"X","status":418,"code":"X_CODE","detail":"why","instance":"/a"}"#
    );
    let typed = ProblemResponse::new(ProblemDetails::new("/e", "E", 400, "E"))
        .with_header("x-a".to_string(), "1".to_string())
        .with_header("X-A".to_string(), "2".to_string())
        .with_header("Content-Type".to_string(), "text/plain".to_string())
        .into_wire();
    assert_eq!(
        typed.headers,
        vec![
            ("Content-Type".to_string(), "text/plain".to_string()),
            ("X-A".to_string(), "2".to_string()),
        ]
    );
    let odd = ProblemResponse::new(ProblemDetails::new("/e", "E", 7, "E")).into_wire();
    assert_eq!((odd.status, odd.telemetry.code.as_str()), (500, "E"));
    assert_eq!(request_instance(Some("/a?b"), "/a"), "/a?b");
    assert_eq!(request_instance(None, "/a"), "/a");
}
