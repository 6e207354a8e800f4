//! Error types exposed by the client.
//!
//! [`Error`] is the main application-facing type. [`HttpError`] preserves
//! protocol details from non-success responses when callers need to branch on
//! offsets, stream state, or producer metadata.

use vstd::prelude::*;
use crate::decimal::{decimal, u64_text};
use crate::fields::{fields, has_distinct_names};
use crate::text::joined4;

verus! {

/// A failure of the network or of the HTTP client.
#[derive(Debug)]
pub struct TransportFailure {
    /// What the HTTP client says of it.
    pub message: String,
    /// Whether a time limit was exceeded.
    pub timeout: bool,
    /// Whether the connection could not be made.
    pub connect: bool,
}

/// High-level client error.
#[derive(Debug)]
pub enum Error {
    /// Invalid input before any HTTP call.
    InvalidArgument(String),
    /// Configuration loading or validation failure.
    Config(String),
    /// Network or HTTP client error.
    Transport(TransportFailure),
    /// HTTP response error with protocol context.
    Http(Box<HttpError>),
    /// I/O failure used by configuration and conformance glue.
    Io(String),
    /// JSON serialization or parsing failure.
    Json(String),
    /// TOML parsing failure.
    Toml(String),
    /// URL parsing failure.
    Url(String),
    /// Base64 decoding failure.
    Base64(String),
    /// Protocol-level parse failure.
    Parse(String),
}

/// Normalized error category used across transport and protocol failures.
#[derive(Debug, Clone, Copy, PartialEq, Eq, Structural)]
pub enum ErrorKind {
    InvalidArgument,
    Config,
    Network,
    Timeout,
    NotFound,
    Conflict,
    StreamClosed,
    InvalidOffset,
    Forbidden,
    RateLimited,
    UnexpectedStatus,
    Parse,
    Io,
}

/// Coarse error code used by the conformance adapter and simple callers.
#[derive(Debug, Clone, Copy, PartialEq, Eq, Structural)]
pub enum ErrorCode {
    NetworkError,
    Timeout,
    Conflict,
    NotFound,
    SequenceConflict,
    StreamClosed,
    InvalidOffset,
    UnexpectedStatus,
    ParseError,
    InternalError,
    NotSupported,
    InvalidArgument,
}

/// HTTP error with preserved protocol details.
///
/// This retains parsed response headers and server-reported sequencing metadata
/// so higher-level code can make conflict or recovery decisions.
#[derive(Debug)]
pub struct HttpError {
    pub status: u16,
    pub kind: ErrorKind,
    pub message: String,
    pub headers: Vec<(String, String)>,
    pub next_offset: Option<String>,
    pub stream_closed: bool,
    pub stream_cursor: Option<String>,
    pub producer_epoch: Option<i64>,
    pub producer_seq: Option<i64>,
    pub producer_expected_seq: Option<i64>,
    pub producer_received_seq: Option<i64>,
}

impl HttpError {
    /// Whether no header is named twice.
    pub open spec fn is_valid(self) -> bool {
        has_distinct_names(fields(self.headers@))
    }

    /// Whether the status is one of those that usually pass.
    pub open spec fn retryable(self) -> bool {
        self.status == 429 || self.status == 500 || self.status == 502 || self.status == 503
            || self.status == 504
    }

    /// Return whether this HTTP status is typically safe to retry.
    #[must_use]
    pub fn is_retryable(&self) -> (r: bool)
        ensures
            r == self.retryable(),
    {
        matches!(self.status, 429 | 500 | 502 | 503 | 504)
    }

    /// The message of the error.
    pub open spec fn text(self) -> Seq<char> {
        "http "@ + decimal(self.status as nat) + ": "@ + self.message@
    }

    /// The message of the error.
    pub fn to_string(&self) -> (r: String)
        ensures
            r@ == self.text(),
    {
        joined4("http ", u64_text(self.status as u64).as_str(), ": ", self.message.as_str())
    }
}

impl Error {
    /// Construct an invalid-argument error.
    #[must_use]
    pub fn invalid_argument(message: &str) -> (r: Self)
        ensures
            r matches Error::InvalidArgument(m) && m@ == message@,
    {
        Error::InvalidArgument(message.to_owned())
    }

    /// Construct a configuration error.
    #[must_use]
    pub fn config(message: &str) -> (r: Self)
        ensures
            r matches Error::Config(m) && m@ == message@,
    {
        Error::Config(message.to_owned())
    }

    /// Construct a protocol parse error.
    #[must_use]
    pub fn parse(message: &str) -> (r: Self)
        ensures
            r matches Error::Parse(m) && m@ == message@,
    {
        Error::Parse(message.to_owned())
    }

    /// The normalized category.
    pub open spec fn kind_spec(self) -> ErrorKind {
        match self {
            Error::InvalidArgument(_) | Error::Url(_) => ErrorKind::InvalidArgument,
            Error::Config(_) | Error::Toml(_) => ErrorKind::Config,
            Error::Transport(t) => if t.timeout {
                ErrorKind::Timeout
            } else {
                ErrorKind::Network
            },
            Error::Http(h) => h.kind,
            Error::Io(_) => ErrorKind::Io,
            Error::Json(_) | Error::Parse(_) | Error::Base64(_) => ErrorKind::Parse,
        }
    }

    /// Return the normalized error category.
    #[must_use]
    pub fn kind(&self) -> (r: ErrorKind)
        ensures
            r == self.kind_spec(),
    {
        match self {
            Error::InvalidArgument(_) | Error::Url(_) => ErrorKind::InvalidArgument,
            Error::Config(_) | Error::Toml(_) => ErrorKind::Config,
            Error::Transport(t) => if t.timeout {
                ErrorKind::Timeout
            } else {
                ErrorKind::Network
            },
            Error::Http(h) => h.kind,
            Error::Io(_) => ErrorKind::Io,
            Error::Json(_) | Error::Parse(_) | Error::Base64(_) => ErrorKind::Parse,
        }
    }

    /// Whether another attempt may succeed.
    pub open spec fn retryable(self) -> bool {
        match self {
            Error::Transport(t) => t.timeout || t.connect,
            Error::Http(h) => h.retryable(),
            _ => false,
        }
    }

    /// Return whether the error is a candidate for retry.
    #[must_use]
    pub fn is_retryable(&self) -> (r: bool)
        ensures
            r == self.retryable(),
    {
        match self {
            Error::Transport(t) => t.timeout || t.connect,
            Error::Http(h) => h.is_retryable(),
            _ => false,
        }
    }

    /// The message of the error.
    pub open spec fn text(self) -> Seq<char> {
        match self {
            Error::InvalidArgument(m)
            | Error::Config(m)
            | Error::Io(m)
            | Error::Json(m)
            | Error::Toml(m)
            | Error::Url(m)
            | Error::Base64(m)
            | Error::Parse(m) => m@,
            Error::Transport(t) => t.message@,
            Error::Http(h) => h.text(),
        }
    }

    /// The message of the error.
    pub fn to_string(&self) -> (r: String)
        ensures
            r@ == self.text(),
    {
        match self {
            Error::InvalidArgument(m)
            | Error::Config(m)
            | Error::Io(m)
            | Error::Json(m)
            | Error::Toml(m)
            | Error::Url(m)
            | Error::Base64(m)
            | Error::Parse(m) => m.clone(),
            Error::Transport(t) => t.message.clone(),
            Error::Http(h) => h.to_string(),
        }
    }
}

impl ErrorKind {
    /// The name of the category in diagnostics.
    pub open spec fn name(self) -> Seq<char> {
        match self {
            ErrorKind::InvalidArgument => "invalid_argument"@,
            ErrorKind::Config => "config"@,
            ErrorKind::Network => "network"@,
            ErrorKind::Timeout => "timeout"@,
            ErrorKind::NotFound => "not_found"@,
            ErrorKind::Conflict => "conflict"@,
            ErrorKind::StreamClosed => "stream_closed"@,
            ErrorKind::InvalidOffset => "invalid_offset"@,
            ErrorKind::Forbidden => "forbidden"@,
            ErrorKind::RateLimited => "rate_limited"@,
            ErrorKind::UnexpectedStatus => "unexpected_status"@,
            ErrorKind::Parse => "parse"@,
            ErrorKind::Io => "io"@,
        }
    }
}

/// The name of a category in diagnostics.
pub fn error_kind_name(kind: ErrorKind) -> (r: &'static str)
    ensures
        r@ == kind.name(),
{
    match kind {
        ErrorKind::InvalidArgument => "invalid_argument",
        ErrorKind::Config => "config",
        ErrorKind::Network => "network",
        ErrorKind::Timeout => "timeout",
        ErrorKind::NotFound => "not_found",
        ErrorKind::Conflict => "conflict",
        ErrorKind::StreamClosed => "stream_closed",
        ErrorKind::InvalidOffset => "invalid_offset",
        ErrorKind::Forbidden => "forbidden",
        ErrorKind::RateLimited => "rate_limited",
        ErrorKind::UnexpectedStatus => "unexpected_status",
        ErrorKind::Parse => "parse",
        ErrorKind::Io => "io",
    }
}

} // verus!
