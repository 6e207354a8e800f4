//! The client: requests, responses, configuration and local state.

pub mod adapter;
pub mod auth;
pub mod builders;
pub mod collect;
pub mod commands;
pub mod config;
pub mod dynamic;
pub mod error;
pub mod exchange;
pub mod idempotent;
pub mod ingest;
pub mod journal;
pub mod live;
pub mod model;
pub mod outcomes;
pub mod polling;
pub mod producing;
pub mod protocol;
pub mod read;
pub mod reading;
pub mod refusals;
pub mod replica;
pub mod reports;
pub mod requests;
pub mod retry;
pub mod settings;
pub mod sse;
pub mod types;
