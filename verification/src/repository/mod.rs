//! The two tables that the login flow keeps: sessions and users.

pub mod session_repository;
pub mod user_repository;
