//! Browser login through a third-party identity provider, using the
//! OAuth2 authorization-code flow.
//!
//! Every login attempt is bound to a server-held session that carries a CSRF
//! token and lives for one hour. The provider's callback is accepted only
//! when it names a live session and returns that session's token, and a
//! session can be used for one such comparison only.
//!
//! The crate decides; it does not talk to anyone. [`handler::callback_flow`]
//! is the callback as a state machine that says, step by step, which row to
//! fetch or change and which round trip to make, and takes what came of it.
//! [`repository`] holds the two tables in memory, and [`handler::auth_handler`]
//! runs the three requests of the flow on them. A server with a durable
//! store and a real provider runs the same flow and does the work itself.
//! Times are seconds since the Unix epoch throughout.

pub mod clock;
pub mod config;
pub mod error;
pub mod handler;
pub mod pairs;
pub mod repository;
pub mod service;
pub mod state;

use vstd::prelude::*;

verus! {

/// What the provider says of the person who logged in.
#[derive(Debug, PartialEq, Eq)]
pub struct User {
    /// The provider's id of the person: stable, and unique among users.
    pub sub: String,
    pub given_name: String,
    pub family_name: String,
    pub email: String,
}

/// A `User` as a mathematical value.
pub struct UserView {
    pub sub: Seq<char>,
    pub given_name: Seq<char>,
    pub family_name: Seq<char>,
    pub email: Seq<char>,
}

impl View for User {
    type V = UserView;

    open spec fn view(&self) -> UserView {
        UserView {
            sub: self.sub@,
            given_name: self.given_name@,
            family_name: self.family_name@,
            email: self.email@,
        }
    }
}

} // verus!
