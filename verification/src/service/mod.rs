//! The identity provider's client and the resolution of users.

pub mod google_token_service;
pub mod user_service;
