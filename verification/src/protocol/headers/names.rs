//! Protocol header names.

use vstd::prelude::*;

verus! {

pub const STREAM_TTL: &'static str = "Stream-TTL";

pub const STREAM_EXPIRES_AT: &'static str = "Stream-Expires-At";

pub const STREAM_CLOSED: &'static str = "Stream-Closed";

pub const STREAM_NEXT_OFFSET: &'static str = "Stream-Next-Offset";

pub const STREAM_UP_TO_DATE: &'static str = "Stream-Up-To-Date";

pub const STREAM_CURSOR: &'static str = "Stream-Cursor";

pub const STREAM_SEQ: &'static str = "Stream-Seq";

pub const STREAM_FORKED_FROM: &'static str = "Stream-Forked-From";

pub const STREAM_FORK_OFFSET: &'static str = "Stream-Fork-Offset";

pub const STREAM_FORK_SUB_OFFSET: &'static str = "Stream-Fork-Sub-Offset";

pub const PRODUCER_ID: &'static str = "Producer-Id";

pub const PRODUCER_EPOCH: &'static str = "Producer-Epoch";

pub const PRODUCER_SEQ: &'static str = "Producer-Seq";

pub const PRODUCER_EXPECTED_SEQ: &'static str = "Producer-Expected-Seq";

pub const PRODUCER_RECEIVED_SEQ: &'static str = "Producer-Received-Seq";

} // verus!
