//! What the process is configured with.

pub mod oauth_client;
pub mod parameter;
