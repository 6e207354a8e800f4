//! What the conformance adapter reports of commands that failed, and how it checks options.

use vstd::prelude::*;
use crate::client::error::{Error, ErrorCode, ErrorKind};
use crate::client::idempotent::IdempotentProducerConfig;
use crate::client::model::LiveMode;
use crate::client::retry::Multiplier;
use crate::text::{
    ascii_lower_spec, contains_text, joined4, lemma_trim_end_at, lemma_trim_start_at, occurs, same,
    str_opt, to_ascii_lowercase, trim_spec,
};

verus! {

impl ErrorCode {
    /// The code in results.
    pub open spec fn label(self) -> Seq<char> {
        match self {
            ErrorCode::NetworkError => "NETWORK_ERROR"@,
            ErrorCode::Timeout => "TIMEOUT"@,
            ErrorCode::Conflict => "CONFLICT"@,
            ErrorCode::NotFound => "NOT_FOUND"@,
            ErrorCode::SequenceConflict => "SEQUENCE_CONFLICT"@,
            ErrorCode::StreamClosed => "STREAM_CLOSED"@,
            ErrorCode::InvalidOffset => "INVALID_OFFSET"@,
            ErrorCode::UnexpectedStatus => "UNEXPECTED_STATUS"@,
            ErrorCode::ParseError => "PARSE_ERROR"@,
            ErrorCode::InternalError => "INTERNAL_ERROR"@,
            ErrorCode::NotSupported => "NOT_SUPPORTED"@,
            ErrorCode::InvalidArgument => "INVALID_ARGUMENT"@,
        }
    }

    /// The code in results.
    pub fn as_str(self) -> (r: &'static str)
        ensures
            r@ == self.label(),
    {
        match self {
            ErrorCode::NetworkError => "NETWORK_ERROR",
            ErrorCode::Timeout => "TIMEOUT",
            ErrorCode::Conflict => "CONFLICT",
            ErrorCode::NotFound => "NOT_FOUND",
            ErrorCode::SequenceConflict => "SEQUENCE_CONFLICT",
            ErrorCode::StreamClosed => "STREAM_CLOSED",
            ErrorCode::InvalidOffset => "INVALID_OFFSET",
            ErrorCode::UnexpectedStatus => "UNEXPECTED_STATUS",
            ErrorCode::ParseError => "PARSE_ERROR",
            ErrorCode::InternalError => "INTERNAL_ERROR",
            ErrorCode::NotSupported => "NOT_SUPPORTED",
            ErrorCode::InvalidArgument => "INVALID_ARGUMENT",
        }
    }
}

/// A failed command.
#[derive(Debug)]
pub struct ErrorResult {
    pub command_type: &'static str,
    pub status: Option<u16>,
    pub error_code: ErrorCode,
    pub message: String,
}

/// What a failed command reports.
#[verifier::ext_equal]
pub struct ErrorReport {
    pub command_type: Seq<char>,
    pub status: Option<u16>,
    pub error_code: ErrorCode,
    pub message: Seq<char>,
}

impl View for ErrorResult {
    type V = ErrorReport;

    open spec fn view(&self) -> ErrorReport {
        ErrorReport {
            command_type: self.command_type@,
            status: self.status,
            error_code: self.error_code,
            message: self.message@,
        }
    }
}

/// Makes the result of a failed command.
pub fn error_output(
    command_type: &'static str,
    status: Option<u16>,
    error_code: ErrorCode,
    message: String,
) -> (r: ErrorResult)
    ensures
        r@ == (ErrorReport { command_type: command_type@, status, error_code, message: message@ }),
{
    ErrorResult { command_type, status, error_code, message }
}

/// A message that names the path it is about.
pub open spec fn contextualized(message: Seq<char>, path: Option<Seq<char>>) -> Seq<char> {
    match path {
        Some(p) => if occurs(message, p) {
            message
        } else {
            message + " ["@ + p + "]"@
        },
        None => message,
    }
}

/// Names the path in a message that does not mention it.
pub fn contextualize_message(message: String, path: Option<&str>) -> (r: String)
    ensures
        r@ == contextualized(message@, str_opt(path)),
{
    match path {
        Some(p) => {
            if contains_text(message.as_str(), p) {
                message
            } else {
                joined4(message.as_str(), " [", p, "]")
            }
        },
        None => message,
    }
}

/// The code of an error response of the server.
pub open spec fn http_code(kind: ErrorKind, has_producer_seq: bool, message: Seq<char>) -> ErrorCode {
    let lower = ascii_lower_spec(message);
    match kind {
        ErrorKind::NotFound => ErrorCode::NotFound,
        ErrorKind::Conflict => if has_producer_seq || occurs(lower, "stream-seq"@) || occurs(
            lower,
            "sequence"@,
        ) {
            ErrorCode::SequenceConflict
        } else if occurs(lower, "closed"@) {
            ErrorCode::StreamClosed
        } else {
            ErrorCode::Conflict
        },
        ErrorKind::StreamClosed => ErrorCode::StreamClosed,
        ErrorKind::InvalidOffset => ErrorCode::InvalidOffset,
        _ => ErrorCode::UnexpectedStatus,
    }
}

/// The code of an error other than a response of the server.
pub open spec fn local_code(kind: ErrorKind) -> ErrorCode {
    match kind {
        ErrorKind::InvalidArgument => ErrorCode::InvalidArgument,
        ErrorKind::Parse => ErrorCode::ParseError,
        ErrorKind::Network => ErrorCode::NetworkError,
        ErrorKind::Timeout => ErrorCode::Timeout,
        _ => ErrorCode::InternalError,
    }
}

/// What an error of a command reports.
pub open spec fn error_report(command_type: Seq<char>, path: Option<Seq<char>>, error: Error) -> ErrorReport {
    match error {
        Error::Http(http) => {
            let message = contextualized(http.message@, path);
            ErrorReport {
                command_type,
                status: Some(http.status),
                error_code: http_code(
                    http.kind,
                    http.producer_expected_seq is Some || http.producer_received_seq is Some,
                    message,
                ),
                message,
            }
        },
        _ => ErrorReport {
            command_type,
            status: None,
            error_code: local_code(error.kind_spec()),
            message: contextualized(error.text(), path),
        },
    }
}

fn code_of_http(kind: ErrorKind, has_producer_seq: bool, message: &str) -> (r: ErrorCode)
    ensures
        r == http_code(kind, has_producer_seq, message@),
{
    let lower = to_ascii_lowercase(message);
    match kind {
        ErrorKind::NotFound => ErrorCode::NotFound,
        ErrorKind::Conflict => {
            if has_producer_seq || contains_text(lower.as_str(), "stream-seq") || contains_text(
                lower.as_str(),
                "sequence",
            ) {
                ErrorCode::SequenceConflict
            } else if contains_text(lower.as_str(), "closed") {
                ErrorCode::StreamClosed
            } else {
                ErrorCode::Conflict
            }
        },
        ErrorKind::StreamClosed => ErrorCode::StreamClosed,
        ErrorKind::InvalidOffset => ErrorCode::InvalidOffset,
        _ => ErrorCode::UnexpectedStatus,
    }
}

/// Turns an error of a command into a result.
pub fn error_to_output(command_type: &'static str, path: Option<&str>, error: &Error) -> (r: ErrorResult)
    ensures
        r@ == error_report(command_type@, str_opt(path), *error),
{
    match error {
        Error::Http(http) => {
            let message = contextualize_message(http.message.clone(), path);
            let error_code = code_of_http(
                http.kind,
                http.producer_expected_seq.is_some() || http.producer_received_seq.is_some(),
                message.as_str(),
            );
            error_output(command_type, Some(http.status), error_code, message)
        },
        other => {
            let error_code = match other.kind() {
                ErrorKind::InvalidArgument => ErrorCode::InvalidArgument,
                ErrorKind::Parse => ErrorCode::ParseError,
                ErrorKind::Network => ErrorCode::NetworkError,
                ErrorKind::Timeout => ErrorCode::Timeout,
                _ => ErrorCode::InternalError,
            };
            error_output(
                command_type,
                None,
                error_code,
                contextualize_message(other.to_string(), path),
            )
        },
    }
}

/// Whether a read failed because the server does not serve events from the tail.
pub open spec fn is_tail_refusal(live: LiveMode, offset: Option<Seq<char>>, error: Error) -> bool {
    live == LiveMode::Sse && (error matches Error::Http(http) && http.kind == ErrorKind::InvalidOffset)
        && (offset is None || offset == Some("now"@))
}

/// What a failed read reports.
pub open spec fn read_report(path: Seq<char>, live: LiveMode, offset: Option<Seq<char>>, error: Error) -> ErrorReport {
    if is_tail_refusal(live, offset, error) {
        ErrorReport {
            command_type: "read"@,
            status: Some(error->Http_0.status),
            error_code: ErrorCode::ParseError,
            message: contextualized(error.text(), Some(path)),
        }
    } else {
        error_report("read"@, Some(path), error)
    }
}

/// Turns the error of a read into a result.
pub fn read_error_output(path: &str, live: LiveMode, offset: Option<&str>, error: &Error) -> (r: ErrorResult)
    ensures
        r@ == read_report(path@, live, str_opt(offset), *error),
{
    let from_tail = match offset {
        None => true,
        Some(value) => same(value, "now"),
    };
    if live == LiveMode::Sse && from_tail {
        if let Error::Http(http) = error {
            if http.kind == ErrorKind::InvalidOffset {
                return error_output(
                    "read",
                    Some(http.status),
                    ErrorCode::ParseError,
                    contextualize_message(error.to_string(), Some(path)),
                );
            }
        }
    }
    error_to_output("read", Some(path), error)
}

/// What a `validate` command asks about.
#[derive(Debug)]
pub enum ValidateTarget {
    RetryOptions {
        max_retries: Option<i64>,
        initial_delay_ms: Option<i64>,
        max_delay_ms: Option<i64>,
        multiplier: Option<Multiplier>,
    },
    IdempotentProducer {
        producer_id: Option<String>,
        epoch: Option<i64>,
        max_batch_bytes: Option<i64>,
        max_batch_items: Option<i64>,
    },
}

/// Why options are rejected, if they are.
pub open spec fn target_rejection(target: ValidateTarget) -> Option<Seq<char>> {
    match target {
        ValidateTarget::RetryOptions { max_retries, initial_delay_ms, max_delay_ms, multiplier } => {
            if max_retries matches Some(n) && n < 0 {
                Some("maxRetries must not be negative"@)
            } else if initial_delay_ms matches Some(n) && n <= 0 {
                Some("initialDelayMs must be greater than zero"@)
            } else if initial_delay_ms is Some && max_delay_ms is Some && max_delay_ms->0
                < initial_delay_ms->0 {
                Some("maxDelayMs must be greater than or equal to initialDelayMs"@)
            } else if multiplier matches Some(m) && m.below_one {
                Some("multiplier must be at least 1.0"@)
            } else {
                None
            }
        },
        ValidateTarget::IdempotentProducer { producer_id, epoch, max_batch_bytes, max_batch_items } => {
            if max_batch_bytes matches Some(n) && n < 0 {
                Some("maxBatchBytes must not be negative"@)
            } else if max_batch_items matches Some(n) && n < 0 {
                Some("maxBatchItems must not be negative"@)
            } else if producer_id matches Some(id) && trim_spec(id@).len() == 0 {
                Some("producerId must not be empty"@)
            } else if epoch matches Some(n) && n < 0 {
                Some("epoch must not be negative"@)
            } else if max_batch_bytes == Some(0i64) {
                Some("maxBatchBytes must be greater than zero"@)
            } else if max_batch_items == Some(0i64) {
                Some("maxBatchItems must be greater than zero"@)
            } else {
                None
            }
        },
    }
}

/// Whether the sizes in options are sizes of this machine.
pub open spec fn sizes_fit(target: ValidateTarget) -> bool {
    target matches ValidateTarget::IdempotentProducer { max_batch_bytes, max_batch_items, .. } ==> (
    max_batch_bytes matches Some(n) ==> n <= usize::MAX) && (max_batch_items matches Some(n) ==> n
        <= usize::MAX)
}

/// Checks options that a `validate` command asks about.
pub fn validate_target(target: ValidateTarget) -> (r: Result<(), String>)
    requires
        sizes_fit(target),
    ensures
        match r {
            Ok(_) => target_rejection(target) is None,
            Err(m) => target_rejection(target) == Some(m@),
        },
{
    match target {
        ValidateTarget::RetryOptions { max_retries, initial_delay_ms, max_delay_ms, multiplier } => {
            if let Some(n) = max_retries {
                if n < 0 {
                    return Err("maxRetries must not be negative".to_owned());
                }
            }
            if let Some(n) = initial_delay_ms {
                if n <= 0 {
                    return Err("initialDelayMs must be greater than zero".to_owned());
                }
            }
            if let (Some(initial), Some(max)) = (initial_delay_ms, max_delay_ms) {
                if max < initial {
                    return Err(
                        "maxDelayMs must be greater than or equal to initialDelayMs".to_owned(),
                    );
                }
            }
            if let Some(m) = multiplier {
                if m.below_one {
                    return Err("multiplier must be at least 1.0".to_owned());
                }
            }
            Ok(())
        },
        ValidateTarget::IdempotentProducer { producer_id, epoch, max_batch_bytes, max_batch_items } => {
            if let Some(n) = max_batch_bytes {
                if n < 0 {
                    return Err("maxBatchBytes must not be negative".to_owned());
                }
            }
            if let Some(n) = max_batch_items {
                if n < 0 {
                    return Err("maxBatchItems must not be negative".to_owned());
                }
            }
            let config = IdempotentProducerConfig {
                producer_id: match producer_id {
                    Some(id) => id,
                    None => "test-producer".to_owned(),
                },
                epoch: match epoch {
                    Some(n) => n,
                    None => 0,
                },
                auto_claim: false,
                max_batch_bytes: match max_batch_bytes {
                    Some(n) => n as usize,
                    None => 1024 * 1024,
                },
                max_batch_items: match max_batch_items {
                    Some(n) => Some(n as usize),
                    None => None,
                },
            };
            proof {
                lemma_test_producer();
            }
            match config.validate() {
                Ok(_) => Ok(()),
                Err(e) => Err(e.to_string()),
            }
        },
    }
}

proof fn lemma_test_producer()
    ensures
        trim_spec("test-producer"@).len() > 0,
{
    reveal_strlit("test-producer");
    let s = "test-producer"@;
    lemma_trim_start_at(s, 0);
    lemma_trim_end_at(s, s.len() as int);
    assert(s.skip(0) =~= s);
    assert(s.take(s.len() as int) =~= s);
}

} // verus!
