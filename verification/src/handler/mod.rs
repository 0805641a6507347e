//! The three requests of the login flow: start a login, take the provider's
//! callback, log out.

pub mod auth_handler;
pub mod callback_flow;
pub mod cookie;
pub mod pages;
pub mod session_id;
