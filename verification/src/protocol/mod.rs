//! Durable Streams protocol parsing, validation, and wire-format helpers.

pub mod cursor;
pub mod error;
pub mod headers;
pub mod json_mode;
pub mod offset;
pub mod problem;
pub mod producer;
pub mod sse;
pub mod stream_name;
