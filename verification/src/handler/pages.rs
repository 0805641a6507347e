//! The two pages that say who is logged in.

use crate::error::app_error::{is_failure, is_text, AppError, ErrorKind};
use crate::state::app_state::{AppState, UserContextView};
use vstd::prelude::*;

verus! {

/// The text of the start page for the given user context.
pub open spec fn index_text(context: Option<UserContextView>) -> Seq<char> {
    match context {
        Some(user) => "Hey "@ + user.name
            + "! You're logged in!\nYou may now access `/protected`.\nLog out with `/logout`."@,
        None => "You're not logged in.\nVisit `/auth/google` to do so."@,
    }
}

/// The text of the protected page for a user who is logged in.
pub open spec fn protected_text(user: UserContextView) -> Seq<char> {
    "Welcome to the protected area, "@ + user.name + "!"@
}

/// The start page: a greeting for the user who is logged in, or the way to
/// the login for a visitor.
pub fn index(app_state: &AppState) -> (page: String)
    ensures
        page@ == index_text(app_state.context()),
{
    match &app_state.user_context {
        Some(user) => String::from_str("Hey ").concat(user.name.as_str()).concat(
            "! You're logged in!\nYou may now access `/protected`.\nLog out with `/logout`.",
        ),
        None => String::from_str("You're not logged in.\nVisit `/auth/google` to do so."),
    }
}

/// The protected page: a welcome for the user who is logged in; for a
/// visitor, the error that they are not.
pub fn protected(app_state: &AppState) -> (result: Result<String, AppError>)
    ensures
        match app_state.context() {
            Some(user) => is_text(result, protected_text(user)),
            None => is_failure(result, ErrorKind::InternalServerError, "You're not logged in."@),
        },
{
    match &app_state.user_context {
        Some(user) => Ok(
            String::from_str("Welcome to the protected area, ").concat(user.name.as_str()).concat("!"),
        ),
        None => Err(AppError::InternalServerError(String::from_str("You're not logged in."))),
    }
}

} // verus!
