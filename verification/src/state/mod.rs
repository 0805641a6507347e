//! What the process keeps between requests.

pub mod app_state;
