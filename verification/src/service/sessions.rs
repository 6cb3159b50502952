//! The session engine: login, and the verification of a session token.

use vstd::prelude::*;
use crate::auth::{generate_session_id, is_session_token, session_token};
use crate::clock::{has_lapsed, lapsed, now_seconds};
use crate::constants::SESSION_LENGTH_SECONDS;
use crate::domain::sessions::{Session, SessionView};
use crate::domain::users::{Credentials, CredentialsView, User, UserView};
use crate::repository::sessions::{SessionGetError, SessionInsertError, SessionRepository};
use crate::repository::users::{UserGetError, UserRepository};
use crate::service::hash::HashService;

verus! {

/// Why a login failed.
#[derive(Debug, Clone, Copy, PartialEq, Eq)]
pub enum LoginError {
    /// No identity has that email, or the password does not match. The two
    /// are one kind on purpose: a caller cannot tell them apart.
    NoUser,
    /// A store or the hashing primitive failed.
    Unknown,
}

/// Why a token did not resolve to an identity.
#[derive(Debug, Clone, Copy, PartialEq, Eq)]
pub enum SessionVerifyError {
    /// Not authenticated: no such session, or it was over and is now deleted.
    Missing,
    /// The session store failed.
    Unknown,
}

/// The expiry of a session issued at `now`, where an `i64` can hold it.
pub open spec fn expiry(now: i64) -> Option<i64> {
    if now + SESSION_LENGTH_SECONDS <= i64::MAX {
        Some((now + SESSION_LENGTH_SECONDS) as i64)
    } else {
        None
    }
}

/// The identity that `credentials` prove against `users`: the one with their
/// email, if their password verifies against its digest.
pub open spec fn authenticated<H: HashService>(
    hasher: H,
    users: Map<Seq<char>, UserView>,
    credentials: CredentialsView,
) -> Result<UserView, LoginError> {
    if !users.contains_key(credentials.email) {
        Err(LoginError::NoUser)
    } else {
        let user = users[credentials.email];
        match hasher.verdict(credentials.password, user.password_hash) {
            Some(true) => Ok(user),
            Some(false) => Err(LoginError::NoUser),
            None => Err(LoginError::Unknown),
        }
    }
}

/// Opening a session for `user` at `now` under `token`: the session and the
/// store with it. The stores are not touched where the expiry cannot be
/// held or the token is in use.
pub open spec fn opened(
    sessions: Map<Seq<char>, SessionView>,
    user: UserView,
    token: Seq<char>,
    now: i64,
) -> (Result<SessionView, LoginError>, Map<Seq<char>, SessionView>) {
    match expiry(now) {
        Some(expires) => {
            if sessions.contains_key(token) {
                (Err(LoginError::Unknown), sessions)
            } else {
                let session = SessionView { id: token, user, expires };
                (Ok(session), sessions.insert(token, session))
            }
        },
        None => (Err(LoginError::Unknown), sessions),
    }
}

/// A login at `now` under `token`, while no store fails: its result and the
/// session store after it.
pub open spec fn login_model<H: HashService>(
    hasher: H,
    users: Map<Seq<char>, UserView>,
    sessions: Map<Seq<char>, SessionView>,
    credentials: CredentialsView,
    token: Seq<char>,
    now: i64,
) -> (Result<SessionView, LoginError>, Map<Seq<char>, SessionView>) {
    match authenticated(hasher, users, credentials) {
        Ok(user) => opened(sessions, user, token, now),
        Err(error) => (Err(error), sessions),
    }
}

/// The verification of the token `id` at `now`, while the store does not
/// fail: its result and the session store after it. A session that is over
/// leaves the store.
pub open spec fn verify_model(sessions: Map<Seq<char>, SessionView>, id: Seq<char>, now: i64) -> (
    Result<UserView, SessionVerifyError>,
    Map<Seq<char>, SessionView>,
) {
    if !sessions.contains_key(id) {
        (Err(SessionVerifyError::Missing), sessions)
    } else if lapsed(sessions[id].expires, now) {
        (Err(SessionVerifyError::Missing), sessions.remove(id))
    } else {
        (Ok(sessions[id].user), sessions)
    }
}

/// A login result with the session taken by its view.
pub open spec fn session_outcome(outcome: Result<Session, LoginError>) -> Result<
    SessionView,
    LoginError,
> {
    match outcome {
        Ok(session) => Ok(session@),
        Err(error) => Err(error),
    }
}

/// A verification result with the identity taken by its view.
pub open spec fn identity_outcome(outcome: Result<User, SessionVerifyError>) -> Result<
    UserView,
    SessionVerifyError,
> {
    match outcome {
        Ok(user) => Ok(user@),
        Err(error) => Err(error),
    }
}

/// Login and session verification.
pub trait SessionService: Sized {
    /// What a call of `login` with `credentials` may do: it returns `outcome`
    /// and leaves the service as `after`. Anything, unless an implementation
    /// states less.
    open spec fn login_post(
        &self,
        credentials: CredentialsView,
        outcome: Result<Session, LoginError>,
        after: Self,
    ) -> bool {
        true
    }

    /// What a call of `verify` with `id` may do: it returns `outcome` and
    /// leaves the service as `after`. Anything, unless an implementation
    /// states less.
    open spec fn verify_post(
        &self,
        id: Seq<char>,
        outcome: Result<User, SessionVerifyError>,
        after: Self,
    ) -> bool {
        true
    }

    /// Checks `credentials` and opens a session for their identity.
    fn login(&mut self, credentials: Credentials) -> (outcome: Result<Session, LoginError>)
        ensures
            old(self).login_post(credentials@, outcome, *final(self)),
    ;

    /// Resolves the token `id` to the identity of its session.
    fn verify(&mut self, id: &str) -> (outcome: Result<User, SessionVerifyError>)
        ensures
            old(self).verify_post(id@, outcome, *final(self)),
    ;
}

/// The session engine over a session store, a credential store and a hashing
/// primitive. It holds no state of its own.
#[derive(Debug, Clone)]
pub struct HashSessionService<S: SessionRepository, U: UserRepository, H: HashService> {
    session_repository: S,
    user_repository: U,
    hash_service: H,
}

impl<S: SessionRepository, U: UserRepository, H: HashService> HashSessionService<S, U, H> {
    /// The sessions in the session store, by token.
    pub closed spec fn sessions(&self) -> Map<Seq<char>, SessionView> {
        self.session_repository.sessions()
    }

    /// The identities in the credential store, by email.
    pub closed spec fn users(&self) -> Map<Seq<char>, UserView> {
        self.user_repository.users()
    }

    /// The hashing primitive.
    pub closed spec fn hasher(&self) -> H {
        self.hash_service
    }

    /// Neither store can fail on its own account.
    pub closed spec fn reliable(&self) -> bool {
        self.session_repository.reliable() && self.user_repository.reliable()
    }

    /// What `login_at` may do with `credentials`, `token` and `now`: what
    /// `login_model` says, or, while a store is not reliable, `Unknown` with
    /// nothing changed.
    pub open spec fn issued(
        &self,
        credentials: CredentialsView,
        token: Seq<char>,
        now: i64,
        outcome: Result<Session, LoginError>,
        after: Self,
    ) -> bool {
        let modelled = login_model(
            self.hasher(),
            self.users(),
            self.sessions(),
            credentials,
            token,
            now,
        );
        &&& after.users() == self.users()
        &&& after.hasher() == self.hasher()
        &&& after.reliable() == self.reliable()
        &&& {
            ||| session_outcome(outcome) == modelled.0 && after.sessions() == modelled.1
            ||| outcome == Err::<Session, LoginError>(LoginError::Unknown) && after.sessions()
                == self.sessions() && !self.reliable()
        }
    }

    /// What `verify_at` may do with `id` and `now`: what `verify_model` says,
    /// or, while a store is not reliable, `Unknown` with nothing changed.
    pub open spec fn checked(
        &self,
        id: Seq<char>,
        now: i64,
        outcome: Result<User, SessionVerifyError>,
        after: Self,
    ) -> bool {
        let modelled = verify_model(self.sessions(), id, now);
        &&& after.users() == self.users()
        &&& after.hasher() == self.hasher()
        &&& after.reliable() == self.reliable()
        &&& {
            ||| identity_outcome(outcome) == modelled.0 && after.sessions() == modelled.1
            ||| outcome == Err::<User, SessionVerifyError>(SessionVerifyError::Unknown)
                && after.sessions() == self.sessions() && !self.reliable()
        }
    }

    /// An engine over the three collaborators.
    pub fn new(session_repository: S, user_repository: U, hash_service: H) -> (service: Self)
        ensures
            service.sessions() == session_repository.sessions(),
            service.users() == user_repository.users(),
            service.hasher() == hash_service,
            service.reliable() == (session_repository.reliable() && user_repository.reliable()),
    {
        Self { session_repository, user_repository, hash_service }
    }

    /// The identity that `credentials` prove.
    fn authenticate(&self, credentials: &Credentials) -> (outcome: Result<User, LoginError>)
        ensures
            ({
                let modelled = authenticated(self.hasher(), self.users(), credentials@);
                ||| match outcome {
                    Ok(user) => modelled == Ok::<UserView, LoginError>(user@),
                    Err(error) => modelled == Err::<UserView, LoginError>(error),
                }
                ||| outcome == Err::<User, LoginError>(LoginError::Unknown) && !self.reliable()
            }),
    {
        let user = match self.user_repository.get_by_email(credentials.email.as_str()) {
            Ok(user) => user,
            Err(UserGetError::Missing) => {
                return Err(LoginError::NoUser);
            },
            Err(UserGetError::Unknown) => {
                return Err(LoginError::Unknown);
            },
        };
        match self.hash_service.verify(credentials.password.as_str(), user.password_hash.as_str()) {
            Err(_) => Err(LoginError::Unknown),
            Ok(false) => Err(LoginError::NoUser),
            Ok(true) => Ok(user),
        }
    }

    /// Opens a session for `user` at `now` under `token`.
    fn open_session(&mut self, user: User, token: String, now: i64) -> (outcome: Result<
        Session,
        LoginError,
    >)
        ensures
            final(self).users() == old(self).users(),
            final(self).hasher() == old(self).hasher(),
            final(self).reliable() == old(self).reliable(),
            ({
                let modelled = opened(old(self).sessions(), user@, token@, now);
                ||| session_outcome(outcome) == modelled.0 && final(self).sessions() == modelled.1
                ||| {
                    &&& outcome == Err::<Session, LoginError>(LoginError::Unknown)
                    &&& final(self).sessions() == old(self).sessions()
                    &&& !old(self).reliable()
                }
            }),
    {
        let expires = match now.checked_add(SESSION_LENGTH_SECONDS) {
            Some(expires) => expires,
            None => {
                return Err(LoginError::Unknown);
            },
        };
        let session = Session { id: token, user, expires };
        match self.session_repository.insert(&session) {
            Ok(()) => Ok(session),
            Err(SessionInsertError::Unknown) => Err(LoginError::Unknown),
        }
    }

    /// Login with the token and the time given: checks `credentials` against
    /// the stored identity and, where they hold, stores and returns a session
    /// under `token` that expires a session length after `now`.
    pub fn login_at(&mut self, credentials: Credentials, token: String, now: i64) -> (outcome:
        Result<Session, LoginError>)
        ensures
            old(self).issued(credentials@, token@, now, outcome, *final(self)),
    {
        let user = match self.authenticate(&credentials) {
            Ok(user) => user,
            Err(error) => {
                return Err(error);
            },
        };
        self.open_session(user, token, now)
    }

    /// Verification at the time given: the identity of the session `id`,
    /// unless there is none or it is over at `now`. A session that is over
    /// is deleted on the spot.
    pub fn verify_at(&mut self, id: &str, now: i64) -> (outcome: Result<User, SessionVerifyError>)
        ensures
            old(self).checked(id@, now, outcome, *final(self)),
    {
        let session = match self.session_repository.get(id) {
            Ok(session) => session,
            Err(SessionGetError::Missing) => {
                return Err(SessionVerifyError::Missing);
            },
            Err(SessionGetError::Unknown) => {
                return Err(SessionVerifyError::Unknown);
            },
        };
        if has_lapsed(session.expires, now) {
            return Err(
                match self.session_repository.delete(id) {
                    Ok(()) => SessionVerifyError::Missing,
                    Err(_) => SessionVerifyError::Unknown,
                },
            );
        }
        Ok(session.user)
    }
}

impl<S: SessionRepository, U: UserRepository, H: HashService> SessionService for HashSessionService<
    S,
    U,
    H,
> {
    /// Some token of four numbers and some reading of the clock make
    /// `login_at` do this.
    open spec fn login_post(
        &self,
        credentials: CredentialsView,
        outcome: Result<Session, LoginError>,
        after: Self,
    ) -> bool {
        exists|token: Seq<char>, now: i64|
            is_session_token(token) && #[trigger] self.issued(
                credentials,
                token,
                now,
                outcome,
                after,
            )
    }

    /// Some reading of the clock makes `verify_at` do this.
    open spec fn verify_post(
        &self,
        id: Seq<char>,
        outcome: Result<User, SessionVerifyError>,
        after: Self,
    ) -> bool {
        exists|now: i64| #[trigger] self.checked(id, now, outcome, after)
    }

    /// Login with a fresh random token at the time the clock shows. Token
    /// and clock are read only once the credentials hold.
    fn login(&mut self, credentials: Credentials) -> (outcome: Result<Session, LoginError>) {
        let user = match self.authenticate(&credentials) {
            Ok(user) => user,
            Err(error) => {
                proof {
                    let token = session_token(0, 0, 0, 0);
                    assert(is_session_token(token));
                    assert(self.issued(credentials@, token, 0, Err(error), *self));
                }
                return Err(error);
            },
        };
        let token = generate_session_id();
        let now = now_seconds();
        let ghost before = *self;
        let outcome = self.open_session(user, token, now);
        proof {
            assert(before.issued(credentials@, token@, now, outcome, *self));
        }
        outcome
    }

    /// Verification at the time the clock shows.
    fn verify(&mut self, id: &str) -> (outcome: Result<User, SessionVerifyError>) {
        let now = now_seconds();
        let ghost before = *self;
        let outcome = self.verify_at(id, now);
        proof {
            assert(before.checked(id@, now, outcome, *self));
        }
        outcome
    }
}

} // verus!
