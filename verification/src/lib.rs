//! Durable Streams: the protocol, configuration and client logic.

pub mod bytes;
pub mod cli;
pub mod client;
pub mod config;
pub mod decimal;
pub mod encoding;
pub mod execution;
pub mod fields;
pub mod handlers;
pub mod http;
pub mod json;
pub mod middleware;
pub mod net;
pub mod protocol;
pub mod router;
pub mod startup;
pub mod text;
pub mod time;
pub mod tls;
pub mod urls;
