//! Cursor generation for long-poll/SSE responses.
//!
//! Cursors are opaque strings that clients echo back in subsequent
//! requests via the `cursor` query parameter. They enable CDN request
//! collapsing by identifying the stream position.
//!
//! Each emitted cursor is strictly greater than the previous one,
//! even when the stream position hasn't changed. The offset-derived value
//! is a floor, so cursors advance with position.

use vstd::prelude::*;
use crate::decimal::{decimal, lemma_decimal_round_trip, unsigned_value, all_digits, u64_text};
use crate::protocol::offset::Offset;

verus! {

/// Bits reserved for the byte-offset component.
///
/// 27 bits gives a range of 128 MB — well above the per-stream limit.
pub const BYTE_OFFSET_BITS: u32 = 27;

/// The number of a position: the read number above the bits of the byte offset.
pub open spec fn position_value(read_seq: u64, byte_offset: u64) -> u64 {
    (read_seq << 27u32) | byte_offset
}

/// The number after `last` for a response at `offset`: at least the number of the position,
/// and above `last`. A sentinel has none.
pub open spec fn next_cursor(last: u64, offset: Offset) -> Option<int> {
    match offset.components() {
        Some((read_seq, byte_offset)) => Some(
            if position_value(read_seq, byte_offset) > last + 1 {
                position_value(read_seq, byte_offset) as int
            } else {
                last + 1
            },
        ),
        None => None,
    }
}

/// A source of strictly increasing cursors.
#[derive(Debug)]
pub struct CursorGenerator {
    pub last_cursor: u64,
}

impl CursorGenerator {
    /// A generator that has emitted nothing.
    pub fn new() -> (r: Self)
        ensures
            r.last_cursor == 0,
    {
        CursorGenerator { last_cursor: 0 }
    }

    /// The cursor for a response at `next_offset`.
    pub fn generate(&mut self, next_offset: &Offset) -> (r: String)
        requires
            old(self).last_cursor < u64::MAX,
        ensures
            match next_cursor(old(self).last_cursor, *next_offset) {
                Some(n) => final(self).last_cursor == n && r@ == decimal(n as nat),
                None => final(self).last_cursor == old(self).last_cursor && r@ == "0"@,
            },
    {
        match next_offset.parse_components() {
            Some((read_seq, byte_offset)) => {
                let offset_value: u64 = (read_seq << BYTE_OFFSET_BITS) | byte_offset;
                let floor: u64 = self.last_cursor + 1;
                let next: u64 = if offset_value > floor {
                    offset_value
                } else {
                    floor
                };
                self.last_cursor = next;
                u64_text(next)
            },
            None => "0".to_owned(),
        }
    }
}

/// Generate a monotonically increasing cursor from stream position.
///
/// The offset-derived value acts as a floor — when the stream advances
/// the cursor jumps to at least the new position. Between advances the
/// cursor still increments so consecutive responses at the same offset
/// are distinguishable (required for jitter detection).
#[must_use]
pub fn generate(generator: &mut CursorGenerator, next_offset: &Offset) -> (r: String)
    requires
        old(generator).last_cursor < u64::MAX,
    ensures
        match next_cursor(old(generator).last_cursor, *next_offset) {
            Some(n) => final(generator).last_cursor == n && r@ == decimal(n as nat),
            None => final(generator).last_cursor == old(generator).last_cursor && r@ == "0"@,
        },
{
    generator.generate(next_offset)
}

/// Each cursor is above the one before it and not below the number of its position, and its
/// text is digits that read back as the number.
pub proof fn law_cursor_strictly_increases(last: u64, offset: Offset)
    requires
        last < u64::MAX,
    ensures
        next_cursor(last, offset) matches Some(n) ==> {
            &&& n > last
            &&& n <= u64::MAX
            &&& offset matches Offset::Position { read_seq, byte_offset } && n >= position_value(
                read_seq,
                byte_offset,
            )
            &&& all_digits(decimal(n as nat))
            &&& unsigned_value(decimal(n as nat), u64::MAX as nat) == Some(n as nat)
        },
{
    if let Some(n) = next_cursor(last, offset) {
        lemma_decimal_round_trip(n as nat, u64::MAX as nat);
    }
}

/// Positions within the bits they have keep their order, and those of up to 2^26 reads stay
/// below 2^53.
pub proof fn law_position_value_is_ordered(r1: u64, b1: u64, r2: u64, b2: u64)
    requires
        b1 < 0x800_0000,
        b2 < 0x800_0000,
        r1 < 0x20_0000_0000,
        r2 < 0x20_0000_0000,
        r1 < r2 || (r1 == r2 && b1 < b2),
    ensures
        position_value(r1, b1) < position_value(r2, b2),
        r2 < 0x400_0000 ==> position_value(r2, b2) < 0x20_0000_0000_0000,
{
    assert((r1 << 27u32) | b1 < (r2 << 27u32) | b2) by (bit_vector)
        requires
            b1 < 0x800_0000u64,
            b2 < 0x800_0000u64,
            r1 < 0x20_0000_0000u64,
            r2 < 0x20_0000_0000u64,
            r1 < r2 || (r1 == r2 && b1 < b2),
    ;
    assert(r2 < 0x400_0000u64 ==> ((r2 << 27u32) | b2) < 0x20_0000_0000_0000u64) by (bit_vector)
        requires
            b2 < 0x800_0000u64,
    ;
}

} // verus!
