//! Domain errors and their HTTP problem-response mappings.

use vstd::prelude::*;
use crate::text::{joined, joined4};
use crate::decimal::{decimal, u64_text};
use crate::protocol::problem::{
    ProblemDetails, ProblemResponse, ProblemTelemetry, ProblemView, ResponseView, TelemetryView,
    telemetry_of,
};

verus! {

/// Default `Retry-After` value for temporary backend unavailability.
pub const DEFAULT_STORAGE_RETRY_AFTER_SECS: u32 = 1;

/// Classification used for storage HTTP responses and telemetry.
#[derive(Debug, Clone, Copy, PartialEq, Eq, Structural)]
pub enum StorageFailureClass {
    /// Temporary backend failure, mapped to HTTP 503.
    Unavailable,
    /// Backend capacity exhaustion, mapped to HTTP 507.
    InsufficientStorage,
}

impl StorageFailureClass {
    /// The label of the class.
    pub open spec fn label(self) -> Seq<char> {
        match self {
            StorageFailureClass::Unavailable => "unavailable"@,
            StorageFailureClass::InsufficientStorage => "insufficient_storage"@,
        }
    }

    /// Stable telemetry label for this failure class.
    #[must_use]
    pub fn as_str(self) -> (r: &'static str)
        ensures
            r@ == self.label(),
    {
        match self {
            StorageFailureClass::Unavailable => "unavailable",
            StorageFailureClass::InsufficientStorage => "insufficient_storage",
        }
    }
}

/// Backend failure context retained for diagnostics and retry guidance.
#[derive(Debug, Clone, PartialEq, Eq)]
pub struct StorageFailure {
    /// Response and telemetry classification.
    pub class: StorageFailureClass,
    /// Backend identifier used in diagnostics.
    pub backend: &'static str,
    /// Operation that failed, such as reading metadata or committing an append.
    pub operation: String,
    /// Internal diagnostic detail; classified responses keep this out of the public body.
    pub detail: String,
    /// Suggested delay in seconds before retrying, if available.
    pub retry_after_secs: Option<u32>,
}

impl StorageFailure {
    /// The diagnostic line: backend, operation and detail.
    pub open spec fn text(self) -> Seq<char> {
        self.backend@ + " "@ + self.operation@ + ": "@ + self.detail@
    }

    /// The diagnostic line: backend, operation and detail.
    pub fn to_string(&self) -> (r: String)
        ensures
            r@ == self.text(),
    {
        let mut m = self.backend.to_owned();
        m.append(" ");
        m.append(self.operation.as_str());
        m.append(": ");
        m.append(self.detail.as_str());
        m
    }
}

/// Domain errors for stream storage and protocol operations.
///
/// This module defines the HTTP status, problem details, and telemetry for each
/// variant. Handlers attach request context and operation-specific headers.
#[derive(Debug)]
pub enum Error {
    /// Stream not found (404)
    NotFound(String),
    /// Stream already exists with different config (409)
    ConfigMismatch,
    /// Invalid offset format (400)
    InvalidOffset(String),
    /// Content type mismatch (409)
    ContentTypeMismatch {
        /// Content type fixed when the stream was created.
        expected: String,
        /// Content type supplied by the request.
        actual: String,
    },
    /// Stream is closed (409)
    StreamClosed,
    /// Producer sequence gap (409)
    SequenceGap {
        /// Next producer sequence expected by the server.
        expected: u64,
        /// Producer sequence supplied by the request.
        actual: u64,
    },
    /// Producer epoch fenced (403)
    EpochFenced {
        /// Current producer epoch.
        current: u64,
        /// Producer epoch supplied by the request.
        received: u64,
    },
    /// Invalid producer state (400)
    InvalidProducerState(String),
    /// Memory limit exceeded (413)
    MemoryLimitExceeded,
    /// Stream size limit exceeded (413)
    StreamSizeLimitExceeded,
    /// Invalid TTL format (400)
    InvalidTtl(String),
    /// Both TTL and Expires-At provided (400)
    ConflictingExpiration,
    /// Stream has expired (404)
    StreamExpired,
    /// Invalid JSON (400)
    InvalidJson(String),
    /// Empty request body when data is required (400)
    EmptyBody,
    /// Empty JSON array append body (400)
    EmptyArray,
    /// Invalid header value (400)
    InvalidHeader {
        /// Header whose value is invalid.
        header: String,
        /// Why the header value was rejected.
        reason: String,
    },
    /// Invalid stream name (400)
    InvalidStreamName(String),
    /// Stream-Seq ordering violation (409)
    SeqOrderingViolation {
        /// Last accepted writer sequence.
        last: String,
        /// Writer sequence supplied by the request.
        received: String,
    },
    /// Storage backend is temporarily unavailable (503)
    Unavailable(StorageFailure),
    /// Storage backend has insufficient capacity (507)
    InsufficientStorage(StorageFailure),
    /// Stream has been deleted (tombstoned) and is gone (410)
    StreamGone(String),
    /// Stream path is blocked because a soft-deleted lineage still owns it (409)
    StreamPathBlocked(String),
    /// Fork offset exceeds the source stream's tail (400)
    ForkOffsetBeyondTail,
    /// Cannot fork from a tombstoned stream (409)
    ForkFromTombstone(String),
    /// Storage backend I/O or serialization error (500)
    Storage(String),
}

/// Result type alias for storage and protocol operations
pub type Result<T> = std::result::Result<T, Error>;

/// Static response metadata; public detail overrides keep storage internals out
/// of the wire response without losing them from telemetry.
struct ProblemDefinition {
    status: u16,
    type_uri: &'static str,
    title: &'static str,
    code: &'static str,
    detail: Option<&'static str>,
}

impl ProblemDefinition {
    fn new(status: u16, type_uri: &'static str, title: &'static str, code: &'static str) -> (r: Self)
        ensures
            r == (ProblemDefinition { status, type_uri, title, code, detail: None }),
    {
        ProblemDefinition { status, type_uri, title, code, detail: None }
    }

    fn with_detail(self, detail: &'static str) -> (r: Self)
        ensures
            r == (ProblemDefinition { detail: Some(detail), ..self }),
    {
        ProblemDefinition { detail: Some(detail), ..self }
    }
}

impl Error {
    /// The message of the error.
    pub open spec fn message(self) -> Seq<char> {
        match self {
            Error::NotFound(s) => "Stream not found: "@ + s@,
            Error::ConfigMismatch => "Stream already exists with different configuration"@,
            Error::InvalidOffset(s) => "Invalid offset format: "@ + s@,
            Error::ContentTypeMismatch { expected, actual } => "Content type mismatch: expected "@
                + expected@ + ", got "@ + actual@,
            Error::StreamClosed => "Stream is closed"@,
            Error::SequenceGap { expected, actual } => "Producer sequence gap: expected "@
                + decimal(expected as nat) + ", got "@ + decimal(actual as nat),
            Error::EpochFenced { current, received } => "Producer epoch fenced: current "@
                + decimal(current as nat) + ", received "@ + decimal(received as nat),
            Error::InvalidProducerState(s) => "Invalid producer state: "@ + s@,
            Error::MemoryLimitExceeded => "Memory limit exceeded"@,
            Error::StreamSizeLimitExceeded => "Stream size limit exceeded"@,
            Error::InvalidTtl(s) => "Invalid TTL format: "@ + s@,
            Error::ConflictingExpiration => "Cannot specify both TTL and Expires-At"@,
            Error::StreamExpired => "Stream has expired"@,
            Error::InvalidJson(s) => "Invalid JSON: "@ + s@,
            Error::EmptyBody => "Empty request body requires Stream-Closed: true"@,
            Error::EmptyArray => "Empty JSON arrays are not permitted for append"@,
            Error::InvalidHeader { header, reason } => "Invalid header value for "@ + header@ + ": "@
                + reason@,
            Error::InvalidStreamName(s) => "Invalid stream name: "@ + s@,
            Error::SeqOrderingViolation { last, received } => "Stream-Seq ordering violation: last="@
                + last@ + ", received="@ + received@,
            Error::Unavailable(f) => "Storage temporarily unavailable: "@ + f.text(),
            Error::InsufficientStorage(f) => "Storage capacity exhausted: "@ + f.text(),
            Error::StreamGone(s) => "Stream is gone: "@ + s@,
            Error::StreamPathBlocked(s) => "Stream path is reserved by a soft-deleted lineage: "@ + s@,
            Error::ForkOffsetBeyondTail => "Fork offset is beyond the source stream's tail"@,
            Error::ForkFromTombstone(s) => "Cannot fork from deleted stream: "@ + s@,
            Error::Storage(s) => "Storage error: "@ + s@,
        }
    }

    /// The message of the error.
    pub fn to_string(&self) -> (r: String)
        ensures
            r@ == self.message(),
    {
        match self {
            Error::NotFound(s) => joined("Stream not found: ", s.as_str()),
            Error::ConfigMismatch => "Stream already exists with different configuration".to_owned(),
            Error::InvalidOffset(s) => joined("Invalid offset format: ", s.as_str()),
            Error::ContentTypeMismatch { expected, actual } => joined4(
                "Content type mismatch: expected ",
                expected.as_str(),
                ", got ",
                actual.as_str(),
            ),
            Error::StreamClosed => "Stream is closed".to_owned(),
            Error::SequenceGap { expected, actual } => joined4(
                "Producer sequence gap: expected ",
                u64_text(*expected).as_str(),
                ", got ",
                u64_text(*actual).as_str(),
            ),
            Error::EpochFenced { current, received } => joined4(
                "Producer epoch fenced: current ",
                u64_text(*current).as_str(),
                ", received ",
                u64_text(*received).as_str(),
            ),
            Error::InvalidProducerState(s) => joined("Invalid producer state: ", s.as_str()),
            Error::MemoryLimitExceeded => "Memory limit exceeded".to_owned(),
            Error::StreamSizeLimitExceeded => "Stream size limit exceeded".to_owned(),
            Error::InvalidTtl(s) => joined("Invalid TTL format: ", s.as_str()),
            Error::ConflictingExpiration => "Cannot specify both TTL and Expires-At".to_owned(),
            Error::StreamExpired => "Stream has expired".to_owned(),
            Error::InvalidJson(s) => joined("Invalid JSON: ", s.as_str()),
            Error::EmptyBody => "Empty request body requires Stream-Closed: true".to_owned(),
            Error::EmptyArray => "Empty JSON arrays are not permitted for append".to_owned(),
            Error::InvalidHeader { header, reason } => joined4(
                "Invalid header value for ",
                header.as_str(),
                ": ",
                reason.as_str(),
            ),
            Error::InvalidStreamName(s) => joined("Invalid stream name: ", s.as_str()),
            Error::SeqOrderingViolation { last, received } => joined4(
                "Stream-Seq ordering violation: last=",
                last.as_str(),
                ", received=",
                received.as_str(),
            ),
            Error::Unavailable(f) => joined("Storage temporarily unavailable: ", f.to_string().as_str()),
            Error::InsufficientStorage(f) => joined("Storage capacity exhausted: ", f.to_string().as_str()),
            Error::StreamGone(s) => joined("Stream is gone: ", s.as_str()),
            Error::StreamPathBlocked(s) => joined(
                "Stream path is reserved by a soft-deleted lineage: ",
                s.as_str(),
            ),
            Error::ForkOffsetBeyondTail => "Fork offset is beyond the source stream's tail".to_owned(),
            Error::ForkFromTombstone(s) => joined("Cannot fork from deleted stream: ", s.as_str()),
            Error::Storage(s) => joined("Storage error: ", s.as_str()),
        }
    }

    /// The HTTP status of the error.
    pub open spec fn status_spec(self) -> u16 {
        match self {
            Error::InvalidOffset(_)
            | Error::InvalidProducerState(_)
            | Error::InvalidTtl(_)
            | Error::ConflictingExpiration
            | Error::InvalidJson(_)
            | Error::EmptyBody
            | Error::EmptyArray
            | Error::InvalidHeader { .. }
            | Error::InvalidStreamName(_)
            | Error::ForkOffsetBeyondTail => 400,
            Error::EpochFenced { .. } => 403,
            Error::NotFound(_) | Error::StreamExpired => 404,
            Error::ConfigMismatch
            | Error::ContentTypeMismatch { .. }
            | Error::StreamClosed
            | Error::SequenceGap { .. }
            | Error::SeqOrderingViolation { .. }
            | Error::StreamPathBlocked(_)
            | Error::ForkFromTombstone(_) => 409,
            Error::StreamGone(_) => 410,
            Error::MemoryLimitExceeded | Error::StreamSizeLimitExceeded => 413,
            Error::Storage(_) => 500,
            Error::Unavailable(_) => 503,
            Error::InsufficientStorage(_) => 507,
        }
    }

    /// Type URI, title and code of the error's problem type.
    pub open spec fn problem_kind(self) -> (Seq<char>, Seq<char>, Seq<char>) {
        match self {
            Error::NotFound(_) | Error::StreamExpired => (
                "/errors/not-found"@,
                "Stream Not Found"@,
                "NOT_FOUND"@,
            ),
            Error::ConfigMismatch => (
                "/errors/already-exists"@,
                "Stream Already Exists"@,
                "ALREADY_EXISTS"@,
            ),
            Error::ContentTypeMismatch { .. } => (
                "/errors/content-type-mismatch"@,
                "Content Type Mismatch"@,
                "CONTENT_TYPE_MISMATCH"@,
            ),
            Error::StreamClosed => (
                "/errors/stream-closed"@,
                "Stream Closed"@,
                "STREAM_CLOSED"@,
            ),
            Error::SequenceGap { .. } | Error::SeqOrderingViolation { .. } => (
                "/errors/sequence-conflict"@,
                "Sequence Conflict"@,
                "SEQUENCE_CONFLICT"@,
            ),
            Error::ForkFromTombstone(_) => (
                "/errors/fork-from-tombstone"@,
                "Fork From Deleted Stream"@,
                "FORK_FROM_TOMBSTONE"@,
            ),
            Error::StreamPathBlocked(_) => (
                "/errors/path-blocked"@,
                "Stream Path Blocked"@,
                "PATH_BLOCKED"@,
            ),
            Error::InvalidOffset(_) => (
                "/errors/invalid-offset"@,
                "Invalid Offset"@,
                "INVALID_OFFSET"@,
            ),
            Error::InvalidStreamName(_) => (
                "/errors/invalid-stream-name"@,
                "Invalid Stream Name"@,
                "INVALID_STREAM_NAME"@,
            ),
            Error::InvalidJson(_) => (
                "/errors/invalid-json"@,
                "Invalid JSON"@,
                "INVALID_JSON"@,
            ),
            Error::EmptyBody => ("/errors/empty-body"@, "Empty Body"@, "EMPTY_BODY"@),
            Error::EmptyArray => ("/errors/empty-array"@, "Empty Array"@, "EMPTY_ARRAY"@),
            Error::EpochFenced { .. } => (
                "/errors/producer-epoch-fenced"@,
                "Producer Epoch Fenced"@,
                "PRODUCER_EPOCH_FENCED"@,
            ),
            Error::ForkOffsetBeyondTail
            | Error::InvalidProducerState(_)
            | Error::InvalidTtl(_)
            | Error::ConflictingExpiration
            | Error::InvalidHeader { .. } => (
                "/errors/bad-request"@,
                "Bad Request"@,
                "BAD_REQUEST"@,
            ),
            Error::MemoryLimitExceeded | Error::StreamSizeLimitExceeded => (
                "/errors/payload-too-large"@,
                "Payload Too Large"@,
                "PAYLOAD_TOO_LARGE"@,
            ),
            Error::Unavailable(_) => (
                "/errors/unavailable"@,
                "Service Unavailable"@,
                "UNAVAILABLE"@,
            ),
            Error::InsufficientStorage(_) => (
                "/errors/insufficient-storage"@,
                "Insufficient Storage"@,
                "INSUFFICIENT_STORAGE"@,
            ),
            Error::Storage(_) => (
                "/errors/internal"@,
                "Internal Server Error"@,
                "INTERNAL_ERROR"@,
            ),
            Error::StreamGone(_) => ("/errors/gone"@, "Stream Gone"@, "GONE"@),
        }
    }

    /// What the response says in place of the error's message, for the errors whose
    /// message holds storage internals.
    pub open spec fn safe_detail(self) -> Option<Seq<char>> {
        match self {
            Error::Unavailable(_) => Some(
                "The server is temporarily unable to complete the request."@,
            ),
            Error::InsufficientStorage(_) => Some(
                "The server does not have enough storage capacity to complete the request."@,
            ),
            Error::Storage(_) => Some("The server encountered an internal error."@),
            _ => None,
        }
    }

    /// The payload of the error's response.
    pub open spec fn problem(self) -> ProblemView {
        ProblemView {
            problem_type: self.problem_kind().0,
            title: self.problem_kind().1,
            status: self.status_spec(),
            code: self.problem_kind().2,
            detail: Some(
                match self.safe_detail() {
                    Some(d) => d,
                    None => self.message(),
                },
            ),
            instance: None,
        }
    }

    /// The telemetry of a storage error: what the payload says and the internals.
    pub open spec fn telemetry_spec(self, problem: ProblemView) -> Option<TelemetryView> {
        match self {
            Error::Unavailable(f) => Some(
                TelemetryView {
                    error_class: Some(f.class.label()),
                    storage_backend: Some(f.backend@),
                    storage_operation: Some(f.operation@),
                    internal_detail: Some(f.detail@),
                    retry_after_secs: f.retry_after_secs,
                    ..telemetry_of(problem)
                },
            ),
            Error::InsufficientStorage(f) => Some(
                TelemetryView {
                    error_class: Some(f.class.label()),
                    storage_backend: Some(f.backend@),
                    storage_operation: Some(f.operation@),
                    internal_detail: Some(f.detail@),
                    ..telemetry_of(problem)
                },
            ),
            Error::Storage(detail) => Some(
                TelemetryView {
                    error_class: Some("internal"@),
                    internal_detail: Some(detail@),
                    ..telemetry_of(problem)
                },
            ),
            _ => None,
        }
    }

    /// The `Retry-After` delay of the error's response.
    pub open spec fn retry_after(self) -> Option<u32> {
        match self {
            Error::Unavailable(f) => f.retry_after_secs,
            _ => None,
        }
    }

    /// Map an error to its HTTP status using the same definition as its body.
    #[must_use]
    pub fn status_code(&self) -> (r: u16)
        ensures
            r == self.status_spec(),
    {
        self.problem_definition().status
    }

    /// One exhaustive mapping defines status, type, title, code and safe detail.
    /// Adding an error variant requires defining its response here.
    fn problem_definition(&self) -> (r: ProblemDefinition)
        ensures
            r.status == self.status_spec(),
            (r.type_uri@, r.title@, r.code@) == self.problem_kind(),
            match r.detail {
                Some(d) => self.safe_detail() == Some(d@),
                None => self.safe_detail() is None,
            },
    {
        match self {
            Error::NotFound(_) | Error::StreamExpired => ProblemDefinition::new(
                404,
                "/errors/not-found",
                "Stream Not Found",
                "NOT_FOUND",
            ),
            Error::ConfigMismatch => ProblemDefinition::new(
                409,
                "/errors/already-exists",
                "Stream Already Exists",
                "ALREADY_EXISTS",
            ),
            Error::ContentTypeMismatch { .. } => ProblemDefinition::new(
                409,
                "/errors/content-type-mismatch",
                "Content Type Mismatch",
                "CONTENT_TYPE_MISMATCH",
            ),
            Error::StreamClosed => ProblemDefinition::new(
                409,
                "/errors/stream-closed",
                "Stream Closed",
                "STREAM_CLOSED",
            ),
            Error::SequenceGap { .. } | Error::SeqOrderingViolation { .. } => ProblemDefinition::new(
                409,
                "/errors/sequence-conflict",
                "Sequence Conflict",
                "SEQUENCE_CONFLICT",
            ),
            Error::ForkFromTombstone(_) => ProblemDefinition::new(
                409,
                "/errors/fork-from-tombstone",
                "Fork From Deleted Stream",
                "FORK_FROM_TOMBSTONE",
            ),
            Error::StreamPathBlocked(_) => ProblemDefinition::new(
                409,
                "/errors/path-blocked",
                "Stream Path Blocked",
                "PATH_BLOCKED",
            ),
            Error::InvalidOffset(_) => ProblemDefinition::new(
                400,
                "/errors/invalid-offset",
                "Invalid Offset",
                "INVALID_OFFSET",
            ),
            Error::InvalidStreamName(_) => ProblemDefinition::new(
                400,
                "/errors/invalid-stream-name",
                "Invalid Stream Name",
                "INVALID_STREAM_NAME",
            ),
            Error::InvalidJson(_) => ProblemDefinition::new(
                400,
                "/errors/invalid-json",
                "Invalid JSON",
                "INVALID_JSON",
            ),
            Error::EmptyBody => ProblemDefinition::new(
                400,
                "/errors/empty-body",
                "Empty Body",
                "EMPTY_BODY",
            ),
            Error::EmptyArray => ProblemDefinition::new(
                400,
                "/errors/empty-array",
                "Empty Array",
                "EMPTY_ARRAY",
            ),
            Error::EpochFenced { .. } => ProblemDefinition::new(
                403,
                "/errors/producer-epoch-fenced",
                "Producer Epoch Fenced",
                "PRODUCER_EPOCH_FENCED",
            ),
            Error::ForkOffsetBeyondTail
            | Error::InvalidProducerState(_)
            | Error::InvalidTtl(_)
            | Error::ConflictingExpiration
            | Error::InvalidHeader { .. } => ProblemDefinition::new(
                400,
                "/errors/bad-request",
                "Bad Request",
                "BAD_REQUEST",
            ),
            Error::MemoryLimitExceeded | Error::StreamSizeLimitExceeded => ProblemDefinition::new(
                413,
                "/errors/payload-too-large",
                "Payload Too Large",
                "PAYLOAD_TOO_LARGE",
            ),
            Error::Unavailable(_) => ProblemDefinition::new(
                503,
                "/errors/unavailable",
                "Service Unavailable",
                "UNAVAILABLE",
            ).with_detail("The server is temporarily unable to complete the request."),
            Error::InsufficientStorage(_) => ProblemDefinition::new(
                507,
                "/errors/insufficient-storage",
                "Insufficient Storage",
                "INSUFFICIENT_STORAGE",
            ).with_detail(
                "The server does not have enough storage capacity to complete the request.",
            ),
            Error::Storage(_) => ProblemDefinition::new(
                500,
                "/errors/internal",
                "Internal Server Error",
                "INTERNAL_ERROR",
            ).with_detail("The server encountered an internal error."),
            Error::StreamGone(_) => ProblemDefinition::new(410, "/errors/gone", "Stream Gone", "GONE"),
        }
    }

    /// The payload of the error's response.
    #[must_use]
    pub fn problem_details(&self) -> (r: ProblemDetails)
        ensures
            r@ == self.problem(),
    {
        let definition = self.problem_definition();
        let detail = match definition.detail {
            Some(d) => d.to_owned(),
            None => self.to_string(),
        };
        ProblemDetails::new(
            definition.type_uri,
            definition.title,
            definition.status,
            definition.code,
        ).with_detail(detail)
    }

    /// Build a temporary failure with the default retry delay and internal diagnostic context.
    #[must_use]
    pub fn storage_unavailable(backend: &'static str, operation: String, detail: String) -> (r: Self)
        ensures
            r == Error::Unavailable(
                StorageFailure {
                    class: StorageFailureClass::Unavailable,
                    backend,
                    operation,
                    detail,
                    retry_after_secs: Some(DEFAULT_STORAGE_RETRY_AFTER_SECS),
                },
            ),
    {
        Error::Unavailable(
            StorageFailure {
                class: StorageFailureClass::Unavailable,
                backend,
                operation,
                detail,
                retry_after_secs: Some(DEFAULT_STORAGE_RETRY_AFTER_SECS),
            },
        )
    }

    /// Build a capacity failure retaining backend and operation details for telemetry.
    #[must_use]
    pub fn storage_insufficient(backend: &'static str, operation: String, detail: String) -> (r: Self)
        ensures
            r == Error::InsufficientStorage(
                StorageFailure {
                    class: StorageFailureClass::InsufficientStorage,
                    backend,
                    operation,
                    detail,
                    retry_after_secs: None,
                },
            ),
    {
        Error::InsufficientStorage(
            StorageFailure {
                class: StorageFailureClass::InsufficientStorage,
                backend,
                operation,
                detail,
                retry_after_secs: None,
            },
        )
    }

    /// Build telemetry metadata for storage-related errors: what the payload says, with
    /// the storage context that is only emitted to logs.
    #[must_use]
    pub fn telemetry(&self, problem: &ProblemDetails) -> (r: Option<ProblemTelemetry>)
        ensures
            match r {
                Some(t) => self.telemetry_spec(problem@) == Some(t@),
                None => self.telemetry_spec(problem@) is None,
            },
    {
        match self {
            Error::Unavailable(failure) => {
                let mut t = ProblemTelemetry::of_problem(problem);
                t.error_class = Some(failure.class.as_str().to_owned());
                t.storage_backend = Some(failure.backend.to_owned());
                t.storage_operation = Some(failure.operation.clone());
                t.internal_detail = Some(failure.detail.clone());
                t.retry_after_secs = failure.retry_after_secs;
                Some(t)
            },
            Error::InsufficientStorage(failure) => {
                let mut t = ProblemTelemetry::of_problem(problem);
                t.error_class = Some(failure.class.as_str().to_owned());
                t.storage_backend = Some(failure.backend.to_owned());
                t.storage_operation = Some(failure.operation.clone());
                t.internal_detail = Some(failure.detail.clone());
                Some(t)
            },
            Error::Storage(detail) => {
                let mut t = ProblemTelemetry::of_problem(problem);
                t.error_class = Some("internal".to_owned());
                t.internal_detail = Some(detail.clone());
                Some(t)
            },
            _ => None,
        }
    }

    /// The whole response of the error.
    pub open spec fn response(self) -> ResponseView {
        ResponseView {
            problem: self.problem(),
            headers: match self.retry_after() {
                Some(secs) => seq![("retry-after"@, decimal(secs as nat))],
                None => Seq::empty(),
            },
            telemetry: self.telemetry_spec(self.problem()),
        }
    }

    /// The whole response of the error: payload, `Retry-After` where the failure suggests
    /// a delay, and telemetry.
    #[must_use]
    pub fn into_problem_response(self) -> (r: ProblemResponse)
        ensures
            r@ == self.response(),
    {
        let problem = self.problem_details();
        let telemetry = self.telemetry(&problem);
        let mut response = ProblemResponse::new(problem);
        let retry_after_secs = match &self {
            Error::Unavailable(failure) => failure.retry_after_secs,
            _ => None,
        };
        if let Some(secs) = retry_after_secs {
            response = response.with_header("retry-after".to_owned(), u64_text(secs as u64));
        }
        if let Some(t) = telemetry {
            response = response.with_telemetry(t);
        }
        response
    }
}

/// An I/O error, `std::io::Error`.
#[verifier::external_type_specification]
#[verifier::external_body]
pub struct ExIoError(std::io::Error);

/// The kinds of I/O errors that are told apart.
#[derive(Debug, Clone, Copy, PartialEq, Eq, Structural)]
pub enum IoFailureKind {
    Interrupted,
    WouldBlock,
    TimedOut,
    StorageFull,
    QuotaExceeded,
    FileTooLarge,
    Other,
}

/// The kind of an I/O error, as `std::io::Error::kind` gives it.
pub uninterp spec fn failure_kind(error: std::io::Error) -> IoFailureKind;

/// `std::io::Error::kind` of an I/O error depends on the error alone. Kinds that are not told
/// apart come to `Other`.
#[verifier::external_body]
fn io_failure_kind(error: &std::io::Error) -> (r: IoFailureKind)
    ensures
        r == failure_kind(*error),
{
    match error.kind() {
        std::io::ErrorKind::Interrupted => IoFailureKind::Interrupted,
        std::io::ErrorKind::WouldBlock => IoFailureKind::WouldBlock,
        std::io::ErrorKind::TimedOut => IoFailureKind::TimedOut,
        std::io::ErrorKind::StorageFull => IoFailureKind::StorageFull,
        std::io::ErrorKind::QuotaExceeded => IoFailureKind::QuotaExceeded,
        std::io::ErrorKind::FileTooLarge => IoFailureKind::FileTooLarge,
        _ => IoFailureKind::Other,
    }
}

/// Whether a kind is a condition that passes.
pub open spec fn is_transient(kind: IoFailureKind) -> bool {
    kind is Interrupted || kind is WouldBlock || kind is TimedOut
}

/// Whether a kind is exhausted capacity.
pub open spec fn is_capacity(kind: IoFailureKind) -> bool {
    kind is StorageFull || kind is QuotaExceeded || kind is FileTooLarge
}

/// The error for an I/O failure of a kind: temporary, capacity, or a plain storage error.
pub open spec fn classified(
    kind: IoFailureKind,
    backend: &'static str,
    operation: String,
    detail: String,
) -> Error {
    if is_transient(kind) {
        Error::Unavailable(
            StorageFailure {
                class: StorageFailureClass::Unavailable,
                backend,
                operation,
                detail,
                retry_after_secs: Some(DEFAULT_STORAGE_RETRY_AFTER_SECS),
            },
        )
    } else if is_capacity(kind) {
        Error::InsufficientStorage(
            StorageFailure {
                class: StorageFailureClass::InsufficientStorage,
                backend,
                operation,
                detail,
                retry_after_secs: None,
            },
        )
    } else {
        Error::Storage(detail)
    }
}

impl Error {
    /// The error for an I/O failure of a kind.
    #[must_use]
    pub fn classify_io_kind(
        backend: &'static str,
        operation: String,
        detail: String,
        kind: IoFailureKind,
    ) -> (r: Self)
        ensures
            r == classified(kind, backend, operation, detail),
    {
        match kind {
            IoFailureKind::Interrupted | IoFailureKind::WouldBlock | IoFailureKind::TimedOut => {
                Error::storage_unavailable(backend, operation, detail)
            },
            IoFailureKind::StorageFull
            | IoFailureKind::QuotaExceeded
            | IoFailureKind::FileTooLarge => Error::storage_insufficient(backend, operation, detail),
            IoFailureKind::Other => Error::Storage(detail),
        }
    }

    /// Classify transient and capacity I/O failures; preserve other failures as storage errors.
    #[must_use]
    pub fn classify_io_failure(
        backend: &'static str,
        operation: String,
        detail: String,
        error: &std::io::Error,
    ) -> (r: Self)
        ensures
            r == classified(failure_kind(*error), backend, operation, detail),
    {
        let kind = io_failure_kind(error);
        Error::classify_io_kind(backend, operation, detail, kind)
    }

    /// Whether a kind indicates interruption, a would-block condition, or timeout.
    #[must_use]
    pub fn is_retryable_io_kind(kind: IoFailureKind) -> (r: bool)
        ensures
            r == is_transient(kind),
    {
        matches!(
            kind,
            IoFailureKind::Interrupted | IoFailureKind::WouldBlock | IoFailureKind::TimedOut
        )
    }

    /// Whether the I/O kind indicates interruption, a would-block condition, or timeout.
    #[must_use]
    pub fn is_retryable_io_error(error: &std::io::Error) -> (r: bool)
        ensures
            r == is_transient(failure_kind(*error)),
    {
        Error::is_retryable_io_kind(io_failure_kind(error))
    }
}

/// The public payload of a storage failure does not depend on what the failure holds.
pub proof fn law_storage_internals_stay_private(a: Error, b: Error)
    requires
        a is Unavailable && b is Unavailable || a is InsufficientStorage && b is InsufficientStorage
            || a is Storage && b is Storage,
    ensures
        a.problem() == b.problem(),
{
}

/// The internal detail of every storage failure is kept in telemetry.
pub proof fn law_storage_internals_reach_telemetry(e: Error)
    ensures
        match e {
            Error::Unavailable(f) => e.response().telemetry matches Some(t) && t.internal_detail
                == Some(f.detail@),
            Error::InsufficientStorage(f) => e.response().telemetry matches Some(t)
                && t.internal_detail == Some(f.detail@),
            Error::Storage(d) => e.response().telemetry matches Some(t) && t.internal_detail
                == Some(d@),
            _ => e.response().telemetry is None,
        },
{
}

/// A response suggests a retry delay only where the service is unavailable.
pub proof fn law_retry_after_only_when_unavailable(e: Error)
    ensures
        e.response().headers.len() > 0 ==> e.status_spec() == 503,
{
}

} // verus!
