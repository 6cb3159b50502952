//! What holds of the engines across calls, proved from their contracts.

use vstd::prelude::*;
use crate::clock::{lapsed, timestamp_representable};
use crate::constants::SESSION_LENGTH_SECONDS;
use crate::domain::sessions::{Session, SessionView};
use crate::domain::users::{CredentialsView, User};
use crate::repository::sessions::SessionRepository;
use crate::repository::users::UserRepository;
use crate::service::hash::{HashService, HashingFailure};
use crate::service::sessions::{HashSessionService, LoginError, SessionVerifyError};
use crate::service::users::{HashUserService, UserCreationError, UserService};

verus! {

/// A login with the email of a stored identity and a password that verifies
/// against its digest succeeds while the stores are reliable, the token is
/// free and the expiry fits: the session is bound to the stored identity,
/// expires one session length after the login, and is in the store under
/// its token.
pub proof fn law_login_succeeds<S: SessionRepository, U: UserRepository, H: HashService>(
    before: HashSessionService<S, U, H>,
    credentials: CredentialsView,
    token: Seq<char>,
    now: i64,
    outcome: Result<Session, LoginError>,
    after: HashSessionService<S, U, H>,
)
    requires
        before.issued(credentials, token, now, outcome, after),
        before.reliable(),
        before.users().contains_key(credentials.email),
        before.hasher().verdict(
            credentials.password,
            before.users()[credentials.email].password_hash,
        ) == Some(true),
        !before.sessions().contains_key(token),
        now + SESSION_LENGTH_SECONDS <= i64::MAX,
    ensures
        outcome matches Ok(session) && {
            &&& session.id@ == token
            &&& session.user@ == before.users()[credentials.email]
            &&& session.expires == now + SESSION_LENGTH_SECONDS
            &&& after.sessions() == before.sessions().insert(token, session@)
        },
{
}

/// A login hands out a session only for a stored identity whose digest the
/// password verified against: the session is bound to that identity, expires
/// one session length after the login, and is stored under a token that was
/// free.
pub proof fn law_login_is_sound<S: SessionRepository, U: UserRepository, H: HashService>(
    before: HashSessionService<S, U, H>,
    credentials: CredentialsView,
    token: Seq<char>,
    now: i64,
    outcome: Result<Session, LoginError>,
    after: HashSessionService<S, U, H>,
)
    requires
        before.issued(credentials, token, now, outcome, after),
        outcome is Ok,
    ensures
        before.users().contains_key(credentials.email),
        before.hasher().verdict(
            credentials.password,
            before.users()[credentials.email].password_hash,
        ) == Some(true),
        !before.sessions().contains_key(token),
        outcome->Ok_0@ == (SessionView {
            id: token,
            user: before.users()[credentials.email],
            expires: (now + SESSION_LENGTH_SECONDS) as i64,
        }),
        now + SESSION_LENGTH_SECONDS <= i64::MAX,
        after.sessions() == before.sessions().insert(token, outcome->Ok_0@),
{
}

/// A login never replaces a session: under a token that is in use it fails
/// and leaves the session store as it was.
pub proof fn law_login_keeps_sessions<S: SessionRepository, U: UserRepository, H: HashService>(
    before: HashSessionService<S, U, H>,
    credentials: CredentialsView,
    token: Seq<char>,
    now: i64,
    outcome: Result<Session, LoginError>,
    after: HashSessionService<S, U, H>,
)
    requires
        before.issued(credentials, token, now, outcome, after),
        before.sessions().contains_key(token),
    ensures
        outcome is Err,
        after.sessions() == before.sessions(),
{
}

/// A token resolves to an identity only while its session is in the store
/// and not over: the identity is the one the session is bound to, and the
/// store stays as it was. Every other verification fails, and none adds a
/// session or changes one.
pub proof fn law_verify_is_sound<S: SessionRepository, U: UserRepository, H: HashService>(
    before: HashSessionService<S, U, H>,
    id: Seq<char>,
    now: i64,
    outcome: Result<User, SessionVerifyError>,
    after: HashSessionService<S, U, H>,
)
    requires
        before.checked(id, now, outcome, after),
    ensures
        outcome matches Ok(user) ==> {
            &&& before.sessions().contains_key(id)
            &&& !lapsed(before.sessions()[id].expires, now)
            &&& user@ == before.sessions()[id].user
            &&& after.sessions() == before.sessions()
        },
        after.sessions() == before.sessions() || after.sessions() == before.sessions().remove(id),
{
}

/// A login with an email that no identity has, and a login with a password
/// that does not match, fail alike: with `NoUser` while the stores are
/// reliable, and never with a session. The session store stays as it was.
pub proof fn law_login_refuses_alike<S: SessionRepository, U: UserRepository, H: HashService>(
    before: HashSessionService<S, U, H>,
    credentials: CredentialsView,
    token: Seq<char>,
    now: i64,
    outcome: Result<Session, LoginError>,
    after: HashSessionService<S, U, H>,
)
    requires
        before.issued(credentials, token, now, outcome, after),
        !before.users().contains_key(credentials.email) || before.hasher().verdict(
            credentials.password,
            before.users()[credentials.email].password_hash,
        ) == Some(false),
    ensures
        outcome is Err,
        before.reliable() ==> outcome == Err::<Session, LoginError>(LoginError::NoUser),
        after.sessions() == before.sessions(),
{
}

/// The token of a session just issued resolves to the identity the session
/// was issued for, as long as the session has not lapsed and the store is
/// reliable; verifying it changes nothing.
pub proof fn law_fresh_token_verifies<S: SessionRepository, U: UserRepository, H: HashService>(
    before: HashSessionService<S, U, H>,
    credentials: CredentialsView,
    token: Seq<char>,
    now: i64,
    issued: Result<Session, LoginError>,
    between: HashSessionService<S, U, H>,
    later: i64,
    verified: Result<User, SessionVerifyError>,
    after: HashSessionService<S, U, H>,
)
    requires
        before.issued(credentials, token, now, issued, between),
        issued is Ok,
        between.checked(token, later, verified, after),
        before.reliable(),
        timestamp_representable(issued->Ok_0.expires),
        later <= issued->Ok_0.expires,
    ensures
        verified matches Ok(user) && user@ == issued->Ok_0.user@,
        after.sessions() == between.sessions(),
{
}

/// Verifying the token of a session whose expiry lies in the past deletes
/// the session and answers `Missing`, and so does every later verification
/// of that token, while the store is reliable.
pub proof fn law_expired_session_is_evicted<
    S: SessionRepository,
    U: UserRepository,
    H: HashService,
>(
    before: HashSessionService<S, U, H>,
    id: Seq<char>,
    now: i64,
    first: Result<User, SessionVerifyError>,
    between: HashSessionService<S, U, H>,
    later: i64,
    second: Result<User, SessionVerifyError>,
    after: HashSessionService<S, U, H>,
)
    requires
        before.sessions().contains_key(id),
        before.sessions()[id].expires < now,
        before.checked(id, now, first, between),
        between.checked(id, later, second, after),
        before.reliable(),
    ensures
        first == Err::<User, SessionVerifyError>(SessionVerifyError::Missing),
        between.sessions() == before.sessions().remove(id),
        second == Err::<User, SessionVerifyError>(SessionVerifyError::Missing),
        after.sessions() == between.sessions(),
{
}

/// Verifying a token that names no session leaves the session store as it
/// was and resolves to no identity: the answer is `Missing` while the store
/// is reliable.
pub proof fn law_unknown_token_is_missing<S: SessionRepository, U: UserRepository, H: HashService>(
    before: HashSessionService<S, U, H>,
    id: Seq<char>,
    now: i64,
    outcome: Result<User, SessionVerifyError>,
    after: HashSessionService<S, U, H>,
)
    requires
        !before.sessions().contains_key(id),
        before.checked(id, now, outcome, after),
    ensures
        outcome is Err,
        before.reliable() ==> outcome == Err::<User, SessionVerifyError>(
            SessionVerifyError::Missing,
        ),
        after.sessions() == before.sessions(),
        after.users() == before.users(),
{
}

/// Registering an email that an identity already has fails and leaves the
/// credential store as it was: with `DuplicateEmail` once the password is
/// hashed and while the store is reliable.
pub proof fn law_duplicate_email_is_refused<U: UserRepository, H: HashService>(
    before: HashUserService<U, H>,
    email: Seq<char>,
    hashed: Result<Seq<char>, HashingFailure>,
    outcome: Result<(), UserCreationError>,
    after: HashUserService<U, H>,
)
    requires
        before.users().contains_key(email),
        before.stored(email, hashed, outcome, after),
    ensures
        outcome is Err,
        hashed is Ok && before.reliable() ==> outcome == Err::<(), UserCreationError>(
            UserCreationError::DuplicateEmail,
        ),
        after.users() == before.users(),
{
}

/// After a successful registration, a login with the same email and password
/// against the same identities and the same hashing primitive succeeds, while
/// the stores are reliable, the token is free and the expiry fits; its
/// session is bound to the identity of that email.
pub proof fn law_register_then_login<
    R: UserRepository,
    S: SessionRepository,
    U: UserRepository,
    H: HashService,
>(
    registry: HashUserService<R, H>,
    credentials: CredentialsView,
    created: Result<(), UserCreationError>,
    registry_after: HashUserService<R, H>,
    before: HashSessionService<S, U, H>,
    token: Seq<char>,
    now: i64,
    outcome: Result<Session, LoginError>,
    after: HashSessionService<S, U, H>,
)
    requires
        registry.register_post(credentials, created, registry_after),
        created is Ok,
        before.users() == registry_after.users(),
        before.hasher() == registry.hasher(),
        before.issued(credentials, token, now, outcome, after),
        before.reliable(),
        !before.sessions().contains_key(token),
        now + SESSION_LENGTH_SECONDS <= i64::MAX,
    ensures
        outcome matches Ok(session) && {
            &&& session.user.email@ == credentials.email
            &&& session.user@ == before.users()[credentials.email]
            &&& session.expires == now + SESSION_LENGTH_SECONDS
            &&& after.sessions() == before.sessions().insert(token, session@)
        },
{
}

} // verus!
