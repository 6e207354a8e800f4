//! Configuration loading and runtime settings for the server.
//!
//! [`model::Config`] is the resolved runtime view. The built-in profile, the configuration
//! files and the `DS_*` environment variables are laid over the defaults, later layers
//! winning.

pub mod env;
pub mod error;
pub mod layers;
pub mod load;
pub mod model;
pub mod modes;
pub mod patch;
pub mod profile;
pub mod usable;
pub mod validate;
