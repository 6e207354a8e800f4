//! Producer headers.

use axum::http::HeaderMap;
use vstd::prelude::*;
use crate::decimal::{parse_unsigned, unsigned_value};
use crate::http::{field_text, header_fields, header_text};
use crate::protocol::error::{Error, Result};
use crate::protocol::headers::names;
use crate::text::{chars_of, joined3, text_opt};

verus! {

/// Parsed producer headers from a POST request.
///
/// All three headers (Producer-Id, Producer-Epoch, Producer-Seq) must be
/// present together or absent together. This struct represents the "all present"
/// case after validation.
#[derive(Debug, Clone)]
pub struct ProducerHeaders {
    /// Stable producer identifier (non-empty string)
    pub id: String,
    /// Session epoch (monotonically non-decreasing, reset on restart)
    pub epoch: u64,
    /// Per-epoch sequence number (monotonically increasing, starts at 0)
    pub seq: u64,
}

/// Maximum safe integer value (2^53 - 1), matching JavaScript's
/// `Number.MAX_SAFE_INTEGER` for cross-platform compatibility.
pub const MAX_SAFE_INTEGER: u64 = 9_007_199_254_740_991;

/// Why a header value is no non-negative integer up to the maximum, if it is not.
pub open spec fn int_rejection(value: Seq<char>, header_name: Seq<char>) -> Option<Seq<char>> {
    if value.len() > 1 && value[0] == '0' || unsigned_value(value, u64::MAX as nat) is None {
        Some(header_name + " must be a non-negative integer, got: "@ + value)
    } else if unsigned_value(value, u64::MAX as nat).unwrap() > MAX_SAFE_INTEGER {
        Some(header_name + " must not exceed 2^53-1, got: "@ + value)
    } else {
        None
    }
}

/// Parse a non-negative integer from a header value string.
///
/// Rejects leading zeros (except "0" itself), negative numbers,
/// decimals, scientific notation, and values exceeding 2^53-1.
pub fn parse_non_negative_int(value: &str, header_name: &str) -> (r: Result<u64>)
    ensures
        match r {
            Ok(n) => int_rejection(value@, header_name@) is None && unsigned_value(
                value@,
                u64::MAX as nat,
            ) == Some(n as nat),
            Err(Error::InvalidProducerState(m)) => int_rejection(value@, header_name@) == Some(m@),
            Err(_) => false,
        },
{
    let chars = chars_of(value);
    if chars.len() > 1 && chars[0] == '0' {
        return Err(
            Error::InvalidProducerState(
                joined3(header_name, " must be a non-negative integer, got: ", value),
            ),
        );
    }
    match parse_unsigned(value, u64::MAX) {
        Ok(n) => {
            if n > MAX_SAFE_INTEGER {
                return Err(
                    Error::InvalidProducerState(
                        joined3(header_name, " must not exceed 2^53-1, got: ", value),
                    ),
                );
            }
            Ok(n)
        },
        Err(_) => Err(
            Error::InvalidProducerState(
                joined3(header_name, " must be a non-negative integer, got: ", value),
            ),
        ),
    }
}

/// What the three header values come to: no producer, a producer, or a rejection with its
/// reason.
pub enum ProducerOutcome {
    Absent,
    Present { id: Seq<char>, epoch: nat, seq: nat },
    Rejected(Seq<char>),
}

/// What the three header values come to.
pub open spec fn producer_outcome(
    id: Option<Seq<char>>,
    epoch: Option<Seq<char>>,
    seq: Option<Seq<char>>,
) -> ProducerOutcome {
    match (id, epoch, seq) {
        (None, None, None) => ProducerOutcome::Absent,
        (Some(i), Some(e), Some(s)) => {
            if i.len() == 0 {
                ProducerOutcome::Rejected("Producer-Id must not be empty"@)
            } else if int_rejection(e, "Producer-Epoch"@) is Some {
                ProducerOutcome::Rejected(int_rejection(e, "Producer-Epoch"@).unwrap())
            } else if int_rejection(s, "Producer-Seq"@) is Some {
                ProducerOutcome::Rejected(int_rejection(s, "Producer-Seq"@).unwrap())
            } else {
                ProducerOutcome::Present {
                    id: i,
                    epoch: unsigned_value(e, u64::MAX as nat).unwrap(),
                    seq: unsigned_value(s, u64::MAX as nat).unwrap(),
                }
            }
        },
        _ => ProducerOutcome::Rejected(
            "Producer-Id, Producer-Epoch, and Producer-Seq must all be provided together"@,
        ),
    }
}

/// Whether a result is what an outcome says.
pub open spec fn is_outcome(r: Result<Option<ProducerHeaders>>, outcome: ProducerOutcome) -> bool {
    match outcome {
        ProducerOutcome::Absent => r matches Ok(None),
        ProducerOutcome::Present { id, epoch, seq } => r matches Ok(Some(p)) && p.id@ == id
            && p.epoch as nat == epoch && p.seq as nat == seq,
        ProducerOutcome::Rejected(reason) => r matches Err(Error::InvalidProducerState(m)) && m@
            == reason,
    }
}

/// Checks the three producer header values, each where it is present.
pub fn check_producer_values(id: Option<String>, epoch: Option<String>, seq: Option<String>) -> (r:
    Result<Option<ProducerHeaders>>)
    ensures
        is_outcome(r, producer_outcome(text_opt(id), text_opt(epoch), text_opt(seq))),
{
    match (id, epoch, seq) {
        (None, None, None) => Ok(None),
        (Some(id), Some(epoch_str), Some(seq_str)) => {
            if id.as_str().is_empty() {
                return Err(
                    Error::InvalidProducerState("Producer-Id must not be empty".to_owned()),
                );
            }
            let epoch = match parse_non_negative_int(epoch_str.as_str(), "Producer-Epoch") {
                Ok(n) => n,
                Err(e) => return Err(e),
            };
            let seq = match parse_non_negative_int(seq_str.as_str(), "Producer-Seq") {
                Ok(n) => n,
                Err(e) => return Err(e),
            };
            Ok(Some(ProducerHeaders { id, epoch, seq }))
        },
        _ => Err(
            Error::InvalidProducerState(
                "Producer-Id, Producer-Epoch, and Producer-Seq must all be provided together".to_owned(),
            ),
        ),
    }
}

/// Parse producer headers from an HTTP request.
///
/// Returns `Ok(None)` if no producer headers are present.
/// Returns `Ok(Some(headers))` if all three are present and valid.
pub fn parse_producer_headers(headers: &HeaderMap) -> (r: Result<Option<ProducerHeaders>>)
    ensures
        ({
            let f = header_fields(*headers);
            is_outcome(
                r,
                producer_outcome(
                    field_text(f, "Producer-Id"@),
                    field_text(f, "Producer-Epoch"@),
                    field_text(f, "Producer-Seq"@),
                ),
            )
        }),
{
    let id = header_text(headers, names::PRODUCER_ID);
    let epoch = header_text(headers, names::PRODUCER_EPOCH);
    let seq = header_text(headers, names::PRODUCER_SEQ);
    check_producer_values(id, epoch, seq)
}

/// Accepted producer headers have a non-empty id and numbers that JavaScript represents
/// exactly.
pub proof fn law_producer_headers_in_range(
    id: Option<Seq<char>>,
    epoch: Option<Seq<char>>,
    seq: Option<Seq<char>>,
)
    ensures
        producer_outcome(id, epoch, seq) matches ProducerOutcome::Present { id: i, epoch: e, seq: s }
            ==> i.len() > 0 && e <= MAX_SAFE_INTEGER && s <= MAX_SAFE_INTEGER,
{
}

} // verus!
