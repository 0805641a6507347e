//! The user table: one row for each person who has logged in, found by the
//! provider's subject id and numbered in the order of arrival.

use crate::error::app_error::{AppError, ErrorKind};
use crate::state::app_state::{UserContext, UserContextView};
use vstd::hash_map::StringHashMap;
use vstd::prelude::*;

verus! {

/// A row of the user table. The provider's subject id is the row's key.
#[derive(Debug, PartialEq, Eq)]
pub struct UserRecord {
    pub user_id: u64,
    pub email: String,
    pub first_name: String,
    pub last_name: String,
}

/// A `UserRecord` as a mathematical value.
pub struct UserRecordView {
    pub user_id: u64,
    pub email: Seq<char>,
    pub first_name: Seq<char>,
    pub last_name: Seq<char>,
}

impl View for UserRecord {
    type V = UserRecordView;

    open spec fn view(&self) -> UserRecordView {
        UserRecordView {
            user_id: self.user_id,
            email: self.email@,
            first_name: self.first_name@,
            last_name: self.last_name@,
        }
    }
}

/// The user context that a row stands for: its id, its email, and the first
/// name as display name.
pub open spec fn context_of(record: UserRecordView) -> UserContextView {
    UserContextView { user_id: record.user_id, email: record.email, name: record.first_name }
}

/// The description of the error for a subject id that is already stored.
pub open spec fn duplicate_user_text() -> Seq<char> {
    "a user with this subject id already exists"@
}

/// The description of the error for a table that has no id left to give.
pub open spec fn no_user_id_left_text() -> Seq<char> {
    "the user table has no id left"@
}

/// Whether some row of the table carries the id `user_id`.
pub open spec fn id_in_use(users: Map<Seq<char>, UserRecordView>, user_id: u64) -> bool {
    exists|google_id: Seq<char>| #[trigger]
        users.contains_key(google_id) && users[google_id].user_id == user_id
}

/// The contract of a user store.
pub trait UserRepositoryTrait: Sized {
    /// The rows of the store, by the provider's subject id.
    spec fn users(&self) -> Map<Seq<char>, UserRecordView>;

    /// The id that the store gave out last; 0 before the first.
    spec fn last_insert_id(&self) -> u64;

    /// An empty store.
    fn new() -> (repository: Self)
        ensures
            repository.users() == Map::<Seq<char>, UserRecordView>::empty(),
            repository.last_insert_id() == 0,
    ;

    /// Adds a user and returns the id of the new row, which is one more than
    /// the id given out last and belongs to no other row. A subject id that
    /// is already stored is refused with `DatabaseError`, as is any user once
    /// the ids have run out; the store then stays as it was.
    fn add_user(&mut self, google_id: &str, email: &str, first_name: &str, last_name: &str) -> (result:
        Result<u64, AppError>)
        ensures
            old(self).users().contains_key(google_id@) ==> {
                &&& result matches Err(error)
                &&& error.spec_kind() == ErrorKind::DatabaseError
                &&& error.detail() == duplicate_user_text()
            },
            !old(self).users().contains_key(google_id@) && old(self).last_insert_id() == u64::MAX
                ==> {
                &&& result matches Err(error)
                &&& error.spec_kind() == ErrorKind::DatabaseError
                &&& error.detail() == no_user_id_left_text()
            },
            result is Err ==> {
                &&& final(self).users() == old(self).users()
                &&& final(self).last_insert_id() == old(self).last_insert_id()
            },
            !old(self).users().contains_key(google_id@) && old(self).last_insert_id() < u64::MAX
                ==> {
                &&& result matches Ok(user_id)
                &&& user_id == old(self).last_insert_id() + 1
                &&& !id_in_use(old(self).users(), user_id)
                &&& final(self).last_insert_id() == user_id
                &&& final(self).users() == old(self).users().insert(
                    google_id@,
                    UserRecordView {
                        user_id,
                        email: email@,
                        first_name: first_name@,
                        last_name: last_name@,
                    },
                )
            },
    ;

    /// The context of the user with this subject id, or `None` where the
    /// table has no such row. The lookup itself never fails.
    fn find_user_by_google_id(&self, google_id: &str) -> (result: Result<
        Option<UserContext>,
        AppError,
    >)
        ensures
            result is Ok,
            self.users().contains_key(google_id@) ==> {
                &&& result matches Ok(Some(user))
                &&& user@ == context_of(self.users()[google_id@])
            },
            !self.users().contains_key(google_id@) ==> result matches Ok(None),
    ;
}

/// The user table, held in memory.
pub struct UserRepository {
    users: StringHashMap<UserRecord>,
    last_insert_id: u64,
}

impl View for UserRepository {
    type V = Map<Seq<char>, UserRecordView>;

    closed spec fn view(&self) -> Map<Seq<char>, UserRecordView> {
        self.users@.map_values(|record: UserRecord| record@)
    }
}

impl UserRepository {
    /// Every id in the table was given out by this table.
    #[verifier::type_invariant]
    closed spec fn ids_were_given_out(self) -> bool {
        forall|google_id: Seq<char>| #[trigger]
            self.users@.contains_key(google_id) ==> self.users@[google_id].user_id
                <= self.last_insert_id
    }
}

impl UserRepositoryTrait for UserRepository {
    open spec fn users(&self) -> Map<Seq<char>, UserRecordView> {
        self@
    }

    closed spec fn last_insert_id(&self) -> u64 {
        self.last_insert_id
    }

    fn new() -> (repository: Self) {
        UserRepository { users: StringHashMap::new(), last_insert_id: 0 }
    }

    fn add_user(&mut self, google_id: &str, email: &str, first_name: &str, last_name: &str) -> (result:
        Result<u64, AppError>) {
        proof {
            use_type_invariant(&*self);
        }
        if self.users.contains_key(google_id) {
            return Err(
                AppError::DatabaseError(
                    String::from_str("a user with this subject id already exists"),
                ),
            );
        }
        if self.last_insert_id == u64::MAX {
            return Err(AppError::DatabaseError(String::from_str("the user table has no id left")));
        }
        let user_id = self.last_insert_id + 1;
        let record = UserRecord {
            user_id,
            email: String::from_str(email),
            first_name: String::from_str(first_name),
            last_name: String::from_str(last_name),
        };
        let mut users = StringHashMap::new();
        std::mem::swap(&mut self.users, &mut users);
        users.insert(String::from_str(google_id), record);
        self.last_insert_id = user_id;
        std::mem::swap(&mut self.users, &mut users);
        Ok(user_id)
    }

    fn find_user_by_google_id(&self, google_id: &str) -> (result: Result<
        Option<UserContext>,
        AppError,
    >) {
        match self.users.get(google_id) {
            Some(record) => Ok(
                Some(
                    UserContext {
                        user_id: record.user_id,
                        email: record.email.clone(),
                        name: record.first_name.clone(),
                    },
                ),
            ),
            None => Ok(None),
        }
    }
}

} // verus!
