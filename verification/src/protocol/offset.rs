//! Stream offsets, as far as the rest of the protocol looks into them.

use vstd::prelude::*;

verus! {

/// A place in a stream: one of the two sentinels, or a position.
#[derive(Debug, Clone, Copy, PartialEq, Eq, Structural)]
pub enum Offset {
    /// The beginning of the stream.
    Start,
    /// The current tail of the stream.
    Now,
    /// A position: the number of the read and the byte offset in it.
    Position { read_seq: u64, byte_offset: u64 },
}

impl Offset {
    /// The offset at a position.
    #[must_use]
    pub fn new(read_seq: u64, byte_offset: u64) -> (r: Offset)
        ensures
            r == (Offset::Position { read_seq, byte_offset }),
    {
        Offset::Position { read_seq, byte_offset }
    }

    /// The parts of a position.
    pub open spec fn components(self) -> Option<(u64, u64)> {
        match self {
            Offset::Position { read_seq, byte_offset } => Some((read_seq, byte_offset)),
            _ => None,
        }
    }

    /// The parts of a position; none for a sentinel.
    #[must_use]
    pub fn parse_components(&self) -> (r: Option<(u64, u64)>)
        ensures
            r == self.components(),
    {
        match self {
            Offset::Position { read_seq, byte_offset } => Some((*read_seq, *byte_offset)),
            _ => None,
        }
    }
}

} // verus!
