//! Metadata of streams.

use vstd::prelude::*;
use crate::decimal::{i64_text, signed_decimal};
use crate::handlers::common::{ReplyView, StreamMetadata, StreamResponse, reply};
use crate::protocol::headers::names;
use crate::text::text_opt;
use crate::time::Timestamp;

verus! {

/// The moment in text, as chrono writes it in RFC 3339, where it can represent the moment.
pub uninterp spec fn utc_text(seconds: i64, nanos: u32) -> Option<Seq<char>>;

/// `DateTime::from_timestamp` and `DateTime::to_rfc3339` depend on the seconds and nanoseconds
/// alone.
#[verifier::external_body]
fn write_utc(seconds: i64, nanos: u32) -> (r: Option<String>)
    ensures
        match r {
            Some(t) => utc_text(seconds, nanos) == Some(t@),
            None => utc_text(seconds, nanos) is None,
        },
{
    chrono::DateTime::from_timestamp(seconds, nanos).map(|t| t.to_rfc3339())
}

/// The second of the day in which a moment lies.
pub open spec fn second_of_day(at: Timestamp) -> int {
    at.seconds as int % 86_400
}

/// The leap seconds to count between two moments besides the nanoseconds that they hold. A
/// moment in a leap second holds a whole second of nanoseconds more than another; whether it
/// lies between the two is told by the time of the day.
pub open spec fn leap_seconds(now: Timestamp, later: Timestamp) -> int {
    if second_of_day(later) > second_of_day(now) && now.nanos >= 1_000_000_000 {
        1
    } else if second_of_day(later) < second_of_day(now) && later.nanos >= 1_000_000_000 {
        -1
    } else {
        0
    }
}

/// Nanoseconds from one moment to another.
pub open spec fn nanos_until(now: Timestamp, later: Timestamp) -> int {
    (later.seconds - now.seconds + leap_seconds(now, later)) * 1_000_000_000 + (later.nanos
        - now.nanos)
}

fn day_second(at: Timestamp) -> (r: i128)
    ensures
        r == second_of_day(at),
{
    // A whole number of days that makes every moment positive.
    let days: i128 = 107_000_000_000_000;
    let shifted: i128 = at.seconds as i128 + 86_400 * days;
    proof {
        vstd::arithmetic::div_mod::lemma_mod_multiples_vanish(
            107_000_000_000_000,
            at.seconds as int,
            86_400,
        );
    }
    shifted % 86_400
}

/// The seconds that a stream has left: whole seconds, rounded up to the millisecond where it was
/// created with a number of seconds, so that the number is not lower at once; down elsewhere.
/// None where it has none left.
pub open spec fn seconds_left(now: Timestamp, expires_at: Timestamp, has_ttl: bool) -> Option<int> {
    let nanos = nanos_until(now, expires_at);
    let left = if nanos <= 0 {
        0
    } else if has_ttl {
        (nanos / 1_000_000 + 999) / 1000
    } else {
        nanos / 1_000_000_000
    };
    if left > 0 {
        Some(left)
    } else {
        None
    }
}

/// The seconds that a stream has left.
pub fn remaining_seconds(now: Timestamp, expires_at: Timestamp, has_ttl: bool) -> (r: Option<i128>)
    ensures
        match r {
            Some(n) => seconds_left(now, expires_at, has_ttl) == Some(n as int),
            None => seconds_left(now, expires_at, has_ttl) is None,
        },
{
    let now_second: i128 = day_second(now);
    let later_second: i128 = day_second(expires_at);
    let leap: i128 = if later_second > now_second && now.nanos >= 1_000_000_000 {
        1
    } else if later_second < now_second && expires_at.nanos >= 1_000_000_000 {
        -1
    } else {
        0
    };
    let seconds: i128 = expires_at.seconds as i128 - now.seconds as i128 + leap;
    let nanos: i128 = seconds * 1_000_000_000 + (expires_at.nanos as i128 - now.nanos as i128);
    if nanos <= 0 {
        return None;
    }
    let left: i128 = if has_ttl {
        (nanos / 1_000_000 + 999) / 1000
    } else {
        nanos / 1_000_000_000
    };
    if left > 0 {
        Some(left)
    } else {
        None
    }
}

/// The answer to a request for metadata, with the expiry in text where it can be written.
pub open spec fn metadata_reply(meta: StreamMetadata, now: Timestamp, expiry: Option<Seq<char>>) -> ReplyView {
    let base = reply(200).with("content-type"@, meta.content_type@).with(
        "Stream-Next-Offset"@,
        meta.next_offset.token@,
    ).with_closed(meta.closed);
    match meta.expires_at {
        None => base,
        Some(at) => match seconds_left(now, at, meta.ttl_seconds is Some) {
            None => base,
            Some(n) => {
                let timed = base.with("Stream-TTL"@, signed_decimal(n));
                match expiry {
                    Some(t) => timed.with("Stream-Expires-At"@, t),
                    None => timed,
                }
            },
        },
    }
}

/// The answer to a request for metadata, given the expiry in text.
pub fn metadata_response(meta: &StreamMetadata, now: Timestamp, expiry: Option<String>) -> (r: StreamResponse)
    requires
        meta.expires_at matches Some(at) ==> nanos_until(now, at) <= i64::MAX * 1_000_000,
    ensures
        r@ == metadata_reply(*meta, now, text_opt(expiry)),
{
    let base = StreamResponse::new(200).content_type(meta.content_type.as_str()).next_offset(
        meta.next_offset.token.as_str(),
    ).closed_if(meta.closed);
    match meta.expires_at {
        None => base,
        Some(at) => match remaining_seconds(now, at, meta.ttl_seconds.is_some()) {
            None => base,
            Some(n) => {
                let timed = base.header(names::STREAM_TTL, i64_text(n as i64).as_str());
                match expiry {
                    Some(t) => timed.header(names::STREAM_EXPIRES_AT, t.as_str()),
                    None => timed,
                }
            },
        },
    }
}

/// HEAD: stream metadata in headers without a body.
pub fn stream_metadata(meta: &StreamMetadata, now: Timestamp) -> (r: StreamResponse)
    requires
        meta.expires_at matches Some(at) ==> nanos_until(now, at) <= i64::MAX * 1_000_000,
    ensures
        r@ == metadata_reply(
            *meta,
            now,
            match meta.expires_at {
                Some(at) => utc_text(at.seconds, at.nanos),
                None => None,
            },
        ),
{
    let expiry = match meta.expires_at {
        Some(at) => write_utc(at.seconds, at.nanos),
        None => None,
    };
    metadata_response(meta, now, expiry)
}

/// A stream that was created with a number of seconds shows that number right after its
/// creation, as long as no more than 999 milliseconds have passed.
pub proof fn law_fresh_ttl_is_not_lowered(created: Timestamp, now: Timestamp, ttl: u64)
    requires
        ttl > 0,
        created.seconds + ttl <= i64::MAX,
        created.nanos < 1_000_000_000,
        now.nanos < 1_000_000_000,
        0 <= nanos_until(created, now) <= 999_000_000,
    ensures
        seconds_left(
            now,
            Timestamp { seconds: (created.seconds + ttl) as i64, nanos: created.nanos },
            true,
        ) == Some(ttl as int),
{
    let at = Timestamp { seconds: (created.seconds + ttl) as i64, nanos: created.nanos };
    let passed = nanos_until(created, now);
    assert(nanos_until(now, at) == ttl * 1_000_000_000 - passed);
}

} // verus!
