//! The state of the process: who is logged in, the two tables, and the
//! identity provider's client.

use crate::config::oauth_client::{OAuthClient, OAuthClientView};
use crate::config::parameter::Parameters;
use crate::error::app_error::AppError;
use crate::repository::session_repository::{SessionRepository, SessionRepositoryTrait, SessionView};
use crate::repository::user_repository::UserRecordView;
use crate::service::google_token_service::{GoogleTokenService, TokenServiceTrait};
use crate::service::user_service::UserService;
use vstd::prelude::*;

verus! {

/// Who is logged in: the user's internal id, email and display name.
#[derive(Debug, PartialEq, Eq)]
pub struct UserContext {
    pub user_id: u64,
    pub email: String,
    pub name: String,
}

/// A `UserContext` as a mathematical value.
pub struct UserContextView {
    pub user_id: u64,
    pub email: Seq<char>,
    pub name: Seq<char>,
}

impl View for UserContext {
    type V = UserContextView;

    open spec fn view(&self) -> UserContextView {
        UserContextView { user_id: self.user_id, email: self.email@, name: self.name@ }
    }
}

impl Clone for UserContext {
    fn clone(&self) -> (copy: UserContext)
        ensures
            copy@ == self@,
    {
        UserContext { user_id: self.user_id, email: self.email.clone(), name: self.name.clone() }
    }
}

/// The view of an optional user context.
pub open spec fn context_view(context: Option<UserContext>) -> Option<UserContextView> {
    match context {
        Some(user) => Some(user@),
        None => None,
    }
}

/// The state of the process. Every operation on it takes it whole, for
/// reading or for writing, so that no reader ever sees a half-written user
/// context.
pub struct AppState {
    pub user_context: Option<UserContext>,
    pub parameters: Parameters,
    pub google_token_service: GoogleTokenService,
    pub user_service: UserService,
    pub session_repository: SessionRepository,
}

impl AppState {
    /// The user who is logged in, if any.
    pub open spec fn context(&self) -> Option<UserContextView> {
        context_view(self.user_context)
    }

    /// The rows of the session table, by session id.
    pub open spec fn sessions(&self) -> Map<Seq<char>, SessionView> {
        self.session_repository.table()
    }

    /// The rows of the user table, by the provider's subject id.
    pub open spec fn users(&self) -> Map<Seq<char>, UserRecordView> {
        self.user_service.users()
    }

    /// The state of a process that has just started: nobody is logged in and
    /// both tables are empty.
    pub fn new(oauth_client: OAuthClient, parameters: Parameters) -> (result: Result<Self, AppError>)
        ensures
            result matches Ok(state) && {
                &&& state.context() is None
                &&& state.sessions() == Map::<Seq<char>, SessionView>::empty()
                &&& state.users() == Map::<Seq<char>, UserRecordView>::empty()
                &&& state.user_service.last_insert_id() == 0
                &&& state.parameters@ == parameters@
                &&& state.google_token_service.client() == oauth_client@
            },
    {
        Ok(
            AppState {
                user_context: None,
                parameters,
                google_token_service: GoogleTokenService::new(oauth_client),
                user_service: UserService::new(),
                session_repository: SessionRepository::new(),
            },
        )
    }

    /// The id of the user who is logged in, if any.
    pub fn get_user_id(&self) -> (user_id: Option<u64>)
        ensures
            match self.context() {
                Some(user) => user_id == Some(user.user_id),
                None => user_id is None,
            },
    {
        match &self.user_context {
            Some(user) => Some(user.user_id),
            None => None,
        }
    }

    /// Logs the user in: from now on `user_context` is who is logged in.
    /// Nothing else changes.
    pub fn set_user_context(&mut self, user_context: UserContext)
        ensures
            final(self).context() == context_after(
                old(self).context(),
                ContextWrite::Login(user_context@),
            ),
            final(self).sessions() == old(self).sessions(),
            final(self).users() == old(self).users(),
            final(self).parameters == old(self).parameters,
            final(self).google_token_service == old(self).google_token_service,
            final(self).user_service == old(self).user_service,
            final(self).session_repository == old(self).session_repository,
    {
        self.user_context = Some(user_context);
    }

    /// Logs the user out: from now on nobody is logged in. Nothing else
    /// changes.
    pub fn clear_user_context(&mut self)
        ensures
            final(self).context() == context_after(old(self).context(), ContextWrite::Logout),
            final(self).sessions() == old(self).sessions(),
            final(self).users() == old(self).users(),
            final(self).parameters == old(self).parameters,
            final(self).google_token_service == old(self).google_token_service,
            final(self).user_service == old(self).user_service,
            final(self).session_repository == old(self).session_repository,
    {
        self.user_context = None;
    }
}

/// One write to the user context: a login of some user, or a logout.
pub enum ContextWrite {
    Login(UserContextView),
    Logout,
}

/// The user context after a write took effect. A write replaces the context
/// whole: what it was before plays no part.
pub open spec fn context_after(before: Option<UserContextView>, write: ContextWrite) -> Option<
    UserContextView,
> {
    match write {
        ContextWrite::Login(user) => Some(user),
        ContextWrite::Logout => None,
    }
}

/// Whatever the order in which a login of `user` and a logout take effect,
/// the context is whole afterwards: either `user`, with every field as it
/// was written, or nobody. No third outcome mixes the two.
pub proof fn law_context_is_never_half_written(before: Option<UserContextView>, user: UserContextView)
    ensures
        context_after(context_after(before, ContextWrite::Login(user)), ContextWrite::Logout) is None,
        context_after(context_after(before, ContextWrite::Logout), ContextWrite::Login(user))
            == Some(user),
{
}

} // verus!
