//! The login endpoint.

use vstd::prelude::*;
use crate::constants::SESSION_COOKIE_NAME;
use crate::domain::sessions::Session;
use crate::domain::users::Credentials;
use crate::service::sessions::{LoginError, SessionService};
use crate::status::Status;

verus! {

/// The cookie that hands a session token to the client.
#[derive(Debug, PartialEq)]
pub struct SessionCookie {
    pub name: String,
    pub value: String,
    /// When the cookie expires, in seconds since the epoch.
    pub expires: i64,
    pub http_only: bool,
}

/// `cookie` is the cookie for `session`: it has the configured name, carries
/// the token as its value, expires with the session and is hidden from
/// scripts.
pub open spec fn cookie_of(cookie: SessionCookie, session: Session) -> bool {
    &&& cookie.name@ == SESSION_COOKIE_NAME@
    &&& cookie.value@ == session.id@
    &&& cookie.expires == session.expires
    &&& cookie.http_only
}

/// `response` answers the login result `outcome`: a session is answered with
/// its cookie and 201, a failed credential check with 401, a fault with 500.
pub open spec fn answers_login(
    response: Result<(SessionCookie, Status), Status>,
    outcome: Result<Session, LoginError>,
) -> bool {
    match outcome {
        Ok(session) => response matches Ok((cookie, status)) && status == Status::Created
            && cookie_of(cookie, session),
        Err(LoginError::NoUser) => response == Err::<(SessionCookie, Status), Status>(
            Status::Unauthorized,
        ),
        Err(LoginError::Unknown) => response == Err::<(SessionCookie, Status), Status>(
            Status::InternalServerError,
        ),
    }
}

/// The answer to a login that ended in `outcome`.
pub fn login_response(outcome: Result<Session, LoginError>) -> (response: Result<
    (SessionCookie, Status),
    Status,
>)
    ensures
        answers_login(response, outcome),
{
    let session = match outcome {
        Err(LoginError::NoUser) => {
            return Err(Status::Unauthorized);
        },
        Err(LoginError::Unknown) => {
            return Err(Status::InternalServerError);
        },
        Ok(session) => session,
    };
    let cookie = SessionCookie {
        name: SESSION_COOKIE_NAME.to_owned(),
        value: session.id,
        expires: session.expires,
        http_only: true,
    };
    Ok((cookie, Status::Created))
}

/// Handles a login attempt: logs in with `credentials` and answers what came
/// of it.
pub fn post_sessions<T: SessionService>(service: &mut T, credentials: Credentials) -> (response:
    Result<(SessionCookie, Status), Status>)
    ensures
        exists|outcome: Result<Session, LoginError>|
            {
                &&& #[trigger] old(service).login_post(credentials@, outcome, *final(service))
                &&& answers_login(response, outcome)
            },
{
    let ghost given = credentials@;
    let ghost before = *service;
    let outcome = service.login(credentials);
    proof {
        assert(before.login_post(given, outcome, *service));
    }
    login_response(outcome)
}

} // verus!
