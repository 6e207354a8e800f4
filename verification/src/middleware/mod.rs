//! What happens to every request and response around the handlers.

pub mod forwarding;
pub mod proxy_trust;
pub mod records;
pub mod security;
pub mod telemetry;
