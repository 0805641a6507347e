//! Resolution of users: from what the provider says of a person to the
//! user record of this system, which is created at the first login.
//!
//! A record that exists is returned as it is and never refreshed from the
//! provider: once created, the local record is the authority.
//!
//! Two first logins of one person at the same time may both find no record
//! and both try to add one. The table then refuses the second with a
//! `DatabaseError`, which is passed on as it is: the login that lost fails,
//! and is not answered by a second lookup. The person logs in again.

use crate::error::app_error::{AppError, ErrorKind};
use crate::repository::user_repository::{
    context_of, UserRecordView, UserRepository, UserRepositoryTrait,
};
use crate::state::app_state::{UserContext, UserContextView};
use crate::{User, UserView};
use vstd::prelude::*;

verus! {

/// The row that a first login of `user` adds to the table, under the id
/// `user_id`.
pub open spec fn record_for(user: UserView, user_id: u64) -> UserRecordView {
    UserRecordView {
        user_id,
        email: user.email,
        first_name: user.given_name,
        last_name: user.family_name,
    }
}

/// The context of a user who was added under the id `user_id`: that id, with
/// the email and the given name that the provider sent.
pub open spec fn new_user_context(user: UserView, user_id: u64) -> UserContextView {
    UserContextView { user_id, email: user.email, name: user.given_name }
}

/// Builds the context of a user who was just added under the id `user_id`.
pub fn context_of_new_user(user_data: &User, user_id: u64) -> (context: UserContext)
    ensures
        context@ == new_user_context(user_data@, user_id),
        context@ == context_of(record_for(user_data@, user_id)),
{
    UserContext {
        user_id,
        email: user_data.email.clone(),
        name: user_data.given_name.clone(),
    }
}

/// Resolves users against the user table.
pub struct UserService {
    pub user_repository: UserRepository,
}

impl UserService {
    /// The rows of the user table, by the provider's subject id.
    pub open spec fn users(&self) -> Map<Seq<char>, UserRecordView> {
        self.user_repository.users()
    }

    /// The id that the table gave out last; 0 before the first.
    pub open spec fn last_insert_id(&self) -> u64 {
        self.user_repository.last_insert_id()
    }

    /// A service over an empty user table.
    pub fn new() -> (service: Self)
        ensures
            service.users() == Map::<Seq<char>, UserRecordView>::empty(),
            service.last_insert_id() == 0,
    {
        UserService { user_repository: UserRepository::new() }
    }

    /// The context of the user that the provider describes. A user whose
    /// subject id is in the table is returned as the table has them, and
    /// nothing is added. Any other user is added as one new row, under the
    /// next id, and the context is made of that id and the provider's data.
    /// Only a table that has no id left refuses, with `DatabaseError`.
    pub fn find_or_insert_user(&mut self, user_data: &User) -> (result: Result<UserContext, AppError>)
        ensures
            old(self).users().contains_key(user_data@.sub) ==> {
                &&& result matches Ok(context)
                &&& context@ == context_of(old(self).users()[user_data@.sub])
                &&& final(self).users() == old(self).users()
                &&& final(self).last_insert_id() == old(self).last_insert_id()
            },
            !old(self).users().contains_key(user_data@.sub) && old(self).last_insert_id() < u64::MAX
                ==> {
                &&& result matches Ok(context)
                &&& context@ == new_user_context(
                    user_data@,
                    (old(self).last_insert_id() + 1) as u64,
                )
                &&& final(self).users() == old(self).users().insert(
                    user_data@.sub,
                    record_for(user_data@, context.user_id),
                )
                &&& final(self).last_insert_id() == context.user_id
            },
            !old(self).users().contains_key(user_data@.sub) && old(self).last_insert_id()
                == u64::MAX ==> {
                &&& result matches Err(error)
                &&& error.spec_kind() == ErrorKind::DatabaseError
                &&& final(self).users() == old(self).users()
                &&& final(self).last_insert_id() == old(self).last_insert_id()
            },
    {
        let existing_user = self.user_repository.find_user_by_google_id(user_data.sub.as_str())?;
        if let Some(user_context) = existing_user {
            return Ok(user_context);
        }
        let user_id = self.user_repository.add_user(
            user_data.sub.as_str(),
            user_data.email.as_str(),
            user_data.given_name.as_str(),
            user_data.family_name.as_str(),
        )?;
        Ok(context_of_new_user(user_data, user_id))
    }
}

/// A second login finds what the first one made: once a user was added
/// under the id `user_id`, the row that the table holds for their subject id
/// stands for the very context that the first login returned.
pub proof fn law_second_login_finds_the_first(
    users: Map<Seq<char>, UserRecordView>,
    user: UserView,
    user_id: u64,
)
    ensures
        users.insert(user.sub, record_for(user, user_id)).contains_key(user.sub),
        context_of(users.insert(user.sub, record_for(user, user_id))[user.sub]) == new_user_context(
            user,
            user_id,
        ),
{
}

} // verus!
