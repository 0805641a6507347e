//! The error types of the login flow and their HTTP form.

pub mod app_error;
pub mod token_error;
