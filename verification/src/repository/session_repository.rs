//! The session store: CSRF tokens keyed by session id, each valid for one
//! hour from the moment it was stored.
//!
//! Times are seconds since the Unix epoch. A session is live at a moment
//! `now` while `now` is before its expiry; at the expiry and after it the
//! session is as good as absent.

use crate::error::app_error::{AppError, ErrorKind};
use vstd::hash_map::StringHashMap;
use vstd::prelude::*;

verus! {

/// How long a session lives, in seconds: one hour.
pub const SESSION_TTL_SECONDS: i64 = 3600;

/// A row of the session table: the CSRF token of one login attempt and the
/// moment from which the session no longer counts.
#[derive(Debug, PartialEq, Eq)]
pub struct Session {
    pub csrf_token: String,
    pub expires_at: i64,
}

/// A `Session` as a mathematical value.
pub struct SessionView {
    pub csrf_token: Seq<char>,
    pub expires_at: int,
}

impl View for Session {
    type V = SessionView;

    open spec fn view(&self) -> SessionView {
        SessionView { csrf_token: self.csrf_token@, expires_at: self.expires_at as int }
    }
}

/// Whether a session still counts at the moment `now`.
pub open spec fn is_live(session: SessionView, now: int) -> bool {
    session.expires_at > now
}

/// The CSRF token that the table yields for `session_id` at the moment `now`:
/// that of the row with this id, if there is one and it is live.
pub open spec fn live_token(
    table: Map<Seq<char>, SessionView>,
    session_id: Seq<char>,
    now: int,
) -> Option<Seq<char>> {
    if table.contains_key(session_id) && is_live(table[session_id], now) {
        Some(table[session_id].csrf_token)
    } else {
        None
    }
}

/// The table after a session was stored at the moment `now`.
pub open spec fn with_session(
    table: Map<Seq<char>, SessionView>,
    session_id: Seq<char>,
    csrf_token: Seq<char>,
    now: int,
) -> Map<Seq<char>, SessionView> {
    table.insert(session_id, SessionView { csrf_token, expires_at: now + SESSION_TTL_SECONDS })
}

/// The table after `session_id` was expired at the moment `now`: its row, if
/// there is one, expires at `now`; nothing else changes.
pub open spec fn with_expired(
    table: Map<Seq<char>, SessionView>,
    session_id: Seq<char>,
    now: int,
) -> Map<Seq<char>, SessionView> {
    if table.contains_key(session_id) {
        table.insert(
            session_id,
            SessionView { csrf_token: table[session_id].csrf_token, expires_at: now },
        )
    } else {
        table
    }
}

/// The description of the error for a session that is absent or expired.
pub open spec fn session_not_found_text() -> Seq<char> {
    "no live session with this id"@
}

/// The description of the error for a session id that is already stored.
pub open spec fn duplicate_session_text() -> Seq<char> {
    "a session with this id already exists"@
}

/// What a lookup answers, given the row that was found for the id, if any.
pub open spec fn lookup_result(row: Option<SessionView>, now: int) -> Option<Seq<char>> {
    match row {
        Some(session) => if is_live(session, now) {
            Some(session.csrf_token)
        } else {
            None
        },
        None => None,
    }
}

/// Whether `result` is the answer that a lookup owes when the live token is
/// `expected`: the token itself, or `NotFound` where there is none.
pub open spec fn answers_lookup(result: Result<String, AppError>, expected: Option<Seq<char>>) -> bool {
    match expected {
        Some(token) => result matches Ok(found) && found@ == token,
        None => result matches Err(error) && error.spec_kind() == ErrorKind::NotFound
            && error.detail() == session_not_found_text(),
    }
}

impl Session {
    /// The row for a login attempt that starts at the moment `now`: it
    /// expires one hour later.
    pub fn new(csrf_token: String, now: i64) -> (session: Session)
        requires
            now + SESSION_TTL_SECONDS <= i64::MAX,
        ensures
            session@ == (SessionView {
                csrf_token: csrf_token@,
                expires_at: now + SESSION_TTL_SECONDS,
            }),
    {
        Session { csrf_token, expires_at: now + SESSION_TTL_SECONDS }
    }

    /// The row as a durable table holds it, where the expiry may be missing:
    /// a session without an expiry is live at no moment.
    pub fn from_stored(csrf_token: String, expires_at: Option<i64>) -> (session: Session)
        ensures
            session.csrf_token@ == csrf_token@,
            match expires_at {
                Some(expiry) => session.expires_at == expiry,
                None => forall|now: i64| !is_live(session@, now as int),
            },
    {
        match expires_at {
            Some(expiry) => Session { csrf_token, expires_at: expiry },
            None => Session { csrf_token, expires_at: i64::MIN },
        }
    }

    /// Whether the session still counts at the moment `now`.
    pub fn is_live(&self, now: i64) -> (live: bool)
        ensures
            live == is_live(self@, now as int),
    {
        self.expires_at > now
    }
}

/// Decides a lookup from the row that the table holds for the id: the token
/// of a live row, `NotFound` for a missing or an expired one.
pub fn csrf_token_of(row: Option<&Session>, now: i64) -> (result: Result<String, AppError>)
    ensures
        answers_lookup(
            result,
            lookup_result(
                match row {
                    Some(session) => Some(session@),
                    None => None,
                },
                now as int,
            ),
        ),
{
    match row {
        Some(session) => {
            if session.is_live(now) {
                Ok(session.csrf_token.clone())
            } else {
                Err(AppError::NotFound(String::from_str("no live session with this id")))
            }
        },
        None => Err(AppError::NotFound(String::from_str("no live session with this id"))),
    }
}

/// The contract of a session store.
pub trait SessionRepositoryTrait: Sized {
    /// The rows of the store, by session id.
    spec fn table(&self) -> Map<Seq<char>, SessionView>;

    /// An empty store.
    fn new() -> (repository: Self)
        ensures
            repository.table() == Map::<Seq<char>, SessionView>::empty(),
    ;

    /// Stores the CSRF token of a login attempt under a fresh session id, to
    /// expire one hour after `now`. An id that is already stored is refused
    /// with `DatabaseError`, and the store stays as it was.
    fn add_csrf_token(&mut self, session_id: &str, csrf_token: &str, now: i64) -> (result: Result<
        (),
        AppError,
    >)
        requires
            now + SESSION_TTL_SECONDS <= i64::MAX,
        ensures
            old(self).table().contains_key(session_id@) ==> {
                &&& result matches Err(error)
                &&& error.spec_kind() == ErrorKind::DatabaseError
                &&& error.detail() == duplicate_session_text()
                &&& final(self).table() == old(self).table()
            },
            !old(self).table().contains_key(session_id@) ==> {
                &&& result is Ok
                &&& final(self).table() == with_session(
                    old(self).table(),
                    session_id@,
                    csrf_token@,
                    now as int,
                )
            },
    ;

    /// Makes the session expire at `now`. A missing id is no error: the store
    /// then stays as it was.
    fn expire_session(&mut self, session_id: &str, now: i64) -> (result: Result<(), AppError>)
        ensures
            result is Ok,
            final(self).table() == with_expired(old(self).table(), session_id@, now as int),
    ;

    /// The CSRF token of the session, if it is live at `now`; `NotFound` for
    /// an id that was never stored and for one that has expired.
    fn get_csrf_token_by_session_id(&self, session_id: &str, now: i64) -> (result: Result<
        String,
        AppError,
    >)
        ensures
            answers_lookup(result, live_token(self.table(), session_id@, now as int)),
    ;
}

/// The session table, held in memory.
pub struct SessionRepository {
    sessions: StringHashMap<Session>,
}

impl View for SessionRepository {
    type V = Map<Seq<char>, SessionView>;

    closed spec fn view(&self) -> Map<Seq<char>, SessionView> {
        self.sessions@.map_values(|session: Session| session@)
    }
}

impl SessionRepository {
    /// The row of the session, live or not, if the table has one.
    pub fn find_session(&self, session_id: &str) -> (row: Option<Session>)
        ensures
            match row {
                Some(session) => self.table().contains_key(session_id@) && session@
                    == self.table()[session_id@],
                None => !self.table().contains_key(session_id@),
            },
    {
        match self.sessions.get(session_id) {
            Some(session) => Some(
                Session { csrf_token: session.csrf_token.clone(), expires_at: session.expires_at },
            ),
            None => None,
        }
    }
}

impl SessionRepositoryTrait for SessionRepository {
    open spec fn table(&self) -> Map<Seq<char>, SessionView> {
        self@
    }

    fn new() -> (repository: Self) {
        SessionRepository { sessions: StringHashMap::new() }
    }

    fn add_csrf_token(&mut self, session_id: &str, csrf_token: &str, now: i64) -> (result: Result<
        (),
        AppError,
    >) {
        if self.sessions.contains_key(session_id) {
            return Err(
                AppError::DatabaseError(String::from_str("a session with this id already exists")),
            );
        }
        let session = Session::new(String::from_str(csrf_token), now);
        self.sessions.insert(String::from_str(session_id), session);
        Ok(())
    }

    fn expire_session(&mut self, session_id: &str, now: i64) -> (result: Result<(), AppError>) {
        let expired = match self.sessions.get(session_id) {
            Some(session) => Some(Session { csrf_token: session.csrf_token.clone(), expires_at: now }),
            None => None,
        };
        if let Some(session) = expired {
            self.sessions.insert(String::from_str(session_id), session);
        }
        Ok(())
    }

    fn get_csrf_token_by_session_id(&self, session_id: &str, now: i64) -> (result: Result<
        String,
        AppError,
    >) {
        csrf_token_of(self.sessions.get(session_id), now)
    }
}

/// A session stored at the moment `created` yields its token at every moment
/// before `created` plus one hour, and yields nothing from that moment on.
pub proof fn law_session_lives_for_its_ttl(
    table: Map<Seq<char>, SessionView>,
    session_id: Seq<char>,
    csrf_token: Seq<char>,
    created: int,
    now: int,
)
    ensures
        now < created + SESSION_TTL_SECONDS ==> live_token(
            with_session(table, session_id, csrf_token, created),
            session_id,
            now,
        ) == Some(csrf_token),
        now >= created + SESSION_TTL_SECONDS ==> live_token(
            with_session(table, session_id, csrf_token, created),
            session_id,
            now,
        ) is None,
{
}

/// A session is single-use: once it was expired at the moment `now`, as
/// happens right after its token was read, no lookup at `now` or later finds
/// it, whatever the table held before.
pub proof fn law_expired_session_is_gone(
    table: Map<Seq<char>, SessionView>,
    session_id: Seq<char>,
    now: int,
    later: int,
)
    requires
        now <= later,
    ensures
        live_token(with_expired(table, session_id, now), session_id, later) is None,
{
}

/// Expiring a session twice at one moment leaves the table as expiring it
/// once does.
pub proof fn law_expiry_is_idempotent(
    table: Map<Seq<char>, SessionView>,
    session_id: Seq<char>,
    now: int,
)
    ensures
        with_expired(with_expired(table, session_id, now), session_id, now) == with_expired(
            table,
            session_id,
            now,
        ),
{
    assert(with_expired(with_expired(table, session_id, now), session_id, now) =~= with_expired(
        table,
        session_id,
        now,
    ));
}

/// Storing or expiring one session leaves every other session as it was.
pub proof fn law_other_sessions_are_untouched(
    table: Map<Seq<char>, SessionView>,
    session_id: Seq<char>,
    csrf_token: Seq<char>,
    other: Seq<char>,
    at: int,
    now: int,
)
    requires
        other != session_id,
    ensures
        live_token(with_session(table, session_id, csrf_token, at), other, now) == live_token(
            table,
            other,
            now,
        ),
        live_token(with_expired(table, session_id, at), other, now) == live_token(table, other, now),
{
}

} // verus!
