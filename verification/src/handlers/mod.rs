//! What the server answers to each kind of request.

pub mod answers;
pub mod common;
pub mod get;
pub mod head;
pub mod health;
pub mod plans;
pub mod post;
pub mod put;
