//! Session tokens, and the middleware in front of protected routes.

use vstd::prelude::*;
use crate::constants::SESSION_COOKIE_NAME;
use crate::decimal::{decimal, lemma_decimal_shape, push_decimal};
use crate::domain::users::User;
use crate::service::sessions::{SessionService, SessionVerifyError};
use crate::status::Status;

verus! {

/// What the middleware does with a request.
#[derive(Debug, PartialEq)]
pub enum Admission {
    /// The request goes on to the next handler, with this identity attached.
    Forward(User),
    /// The request is answered at once with this status and never reaches
    /// the next handler.
    Reject(Status),
}

/// The admission that follows from the verification result `outcome`: an
/// identity is forwarded, a missing session is unauthenticated, a fault is a
/// server error and not taken for an unauthenticated caller.
pub open spec fn admission(outcome: Result<User, SessionVerifyError>) -> Admission {
    match outcome {
        Ok(user) => Admission::Forward(user),
        Err(SessionVerifyError::Missing) => Admission::Reject(Status::Unauthorized),
        Err(SessionVerifyError::Unknown) => Admission::Reject(Status::InternalServerError),
    }
}

/// The admission for a request whose session token verified as `outcome`.
pub fn admission_for(outcome: Result<User, SessionVerifyError>) -> (decision: Admission)
    ensures
        decision == admission(outcome),
{
    match outcome {
        Ok(user) => Admission::Forward(user),
        Err(SessionVerifyError::Missing) => Admission::Reject(Status::Unauthorized),
        Err(SessionVerifyError::Unknown) => Admission::Reject(Status::InternalServerError),
    }
}

/// The header map of the `http` crate, carried through unopened.
#[verifier::external_type_specification]
#[verifier::external_body]
#[verifier::reject_recursive_types(T)]
pub struct ExHeaderMap<T>(http::HeaderMap<T>);

/// A header value of the `http` crate, carried through unopened.
#[verifier::external_type_specification]
#[verifier::external_body]
pub struct ExHeaderValue(http::HeaderValue);

/// The values of the `Cookie` headers in `headers`, in the order in which
/// the map holds them, each as its bytes.
pub uninterp spec fn cookie_headers(headers: http::HeaderMap) -> Seq<Seq<u8>>;

/// The value of the cookie named `name` that `CookieJar::from_headers` of
/// `axum_extra` finds in the `Cookie` headers with the values `values`, as
/// `get` and `value` return it; `None` where it finds no such cookie.
pub uninterp spec fn cookie_named(values: Seq<Seq<u8>>, name: Seq<char>) -> Option<Seq<char>>;

/// `CookieJar::from_headers`, then `get` and `value`: the jar reads the
/// `Cookie` headers and nothing else of the map, skips what is no text or no
/// cookie, and decodes the cookies it finds; `get` finds a cookie by its
/// name.
#[verifier::external_body]
fn cookie_from_headers(headers: &http::HeaderMap, name: &str) -> (value: Option<String>)
    ensures
        value matches Some(text) ==> cookie_named(cookie_headers(*headers), name@) == Some(text@),
        value is None ==> cookie_named(cookie_headers(*headers), name@) is None,
{
    match axum_extra::extract::CookieJar::from_headers(headers).get(name) {
        Some(cookie) => Some(cookie.value().to_owned()),
        None => None,
    }
}

/// What a handler is told when no identity is attached to its request.
pub const MISSING_IDENTITY: &'static str = "Can't extract User. Is `AuthLayer` enabled?";

/// The identity for a handler behind the middleware: the one attached to the
/// request. Where none is attached the middleware is not in front of the
/// route, which is a server error and never an anonymous caller.
pub fn current_identity(attached: Option<&User>) -> (identity: Result<User, (Status, &'static str)>)
    ensures
        match attached {
            Some(user) => identity matches Ok(found) && found@ == user@,
            None => identity == Err::<User, (Status, &'static str)>(
                (Status::InternalServerError, MISSING_IDENTITY),
            ),
        },
{
    match attached {
        Some(user) => Ok(user.clone()),
        None => Err((Status::InternalServerError, MISSING_IDENTITY)),
    }
}

/// Makes the middleware for a handler: it holds the session service that
/// every middleware made from it gets a copy of.
#[derive(Debug, Clone)]
pub struct AuthLayer<T: SessionService + Clone> {
    service: T,
}

impl<T: SessionService + Clone> AuthLayer<T> {
    /// The session service of the layer.
    pub closed spec fn service(&self) -> T {
        self.service
    }

    /// A layer over `session_service`.
    pub fn new(session_service: T) -> (layer: Self)
        ensures
            layer.service() == session_service,
    {
        Self { service: session_service }
    }

    /// The middleware in front of `inner`, with a copy of the session service.
    pub fn layer<S>(&self, inner: S) -> (middleware: AuthMiddleware<S, T>)
        ensures
            middleware.inner() == inner,
            cloned(self.service(), middleware.service()),
    {
        AuthMiddleware { inner, session_service: self.service.clone() }
    }
}

/// The middleware in front of the handler `inner`: it lets a request through
/// only with the identity that its session token resolves to.
#[derive(Debug, Clone)]
pub struct AuthMiddleware<S, T: SessionService> {
    inner: S,
    session_service: T,
}

impl<S, T: SessionService> AuthMiddleware<S, T> {
    /// The handler behind the middleware.
    pub closed spec fn inner(&self) -> S {
        self.inner
    }

    /// The session service that resolves tokens.
    pub closed spec fn service(&self) -> T {
        self.session_service
    }

    /// The handler behind the middleware.
    pub fn next(&self) -> (handler: &S)
        ensures
            *handler == self.inner(),
    {
        &self.inner
    }

    /// The handler behind the middleware, to call it.
    pub fn next_mut(&mut self) -> (handler: &mut S)
        ensures
            *handler == old(self).inner(),
            final(self).inner() == *final(handler),
            final(self).service() == old(self).service(),
    {
        &mut self.inner
    }

    /// What the middleware may do with a request whose session cookie has the
    /// value `token`: the session service verifies the token, and the
    /// admission follows from what it returns.
    pub open spec fn resolved(&self, token: Seq<char>, decision: Admission, after: Self) -> bool {
        exists|outcome: Result<User, SessionVerifyError>|
            {
                &&& #[trigger] self.service().verify_post(token, outcome, after.service())
                &&& decision == admission(outcome)
            }
    }

    /// What the middleware may do with a request whose session cookie has the
    /// value `cookie`, `None` where it has no such cookie. Without a cookie
    /// the request is unauthenticated and the session service is left alone.
    /// With one, the token it carries is resolved.
    pub open spec fn authorized(
        &self,
        cookie: Option<Seq<char>>,
        decision: Admission,
        after: Self,
    ) -> bool {
        &&& after.inner() == self.inner()
        &&& match cookie {
            None => {
                &&& decision == Admission::Reject(Status::Unauthorized)
                &&& after.service() == self.service()
            },
            Some(token) => self.resolved(token, decision, after),
        }
    }

    /// Decides on a request with the headers `headers`: reads the session
    /// cookie from them and decides as `authorize` does.
    pub fn call(&mut self, headers: &http::HeaderMap) -> (decision: Admission)
        ensures
            old(self).authorized(
                cookie_named(cookie_headers(*headers), SESSION_COOKIE_NAME@),
                decision,
                *final(self),
            ),
    {
        match cookie_from_headers(headers, SESSION_COOKIE_NAME) {
            Some(token) => self.authorize(Some(token.as_str())),
            None => self.authorize(None),
        }
    }

    /// Decides on a request that carries `cookie` as the value of its session
    /// cookie, `None` where it has no such cookie.
    pub fn authorize(&mut self, cookie: Option<&str>) -> (decision: Admission)
        ensures
            old(self).authorized(
                match cookie {
                    Some(token) => Some(token@),
                    None => None,
                },
                decision,
                *final(self),
            ),
    {
        let token = match cookie {
            Some(token) => token,
            None => {
                return Admission::Reject(Status::Unauthorized);
            },
        };
        let outcome = self.session_service.verify(token);
        let ghost verified = outcome;
        let decision = admission_for(outcome);
        proof {
            assert(old(self).service().verify_post(token@, verified, self.service()));
            assert(old(self).resolved(token@, decision, *self));
        }
        decision
    }
}

/// `rand::thread_rng` and `next_u64` on it: 64 random bits from the thread's
/// generator. Every value can come back.
#[verifier::external_body]
fn random_u64() -> u64 {
    rand::RngCore::next_u64(&mut rand::thread_rng())
}

/// The token made of four numbers: their decimal digits, one number after
/// the other.
pub open spec fn session_token(a: u64, b: u64, c: u64, d: u64) -> Seq<char> {
    decimal(a as nat) + decimal(b as nat) + decimal(c as nat) + decimal(d as nat)
}

/// Some four numbers make the token `token`.
pub open spec fn is_session_token(token: Seq<char>) -> bool {
    exists|a: u64, b: u64, c: u64, d: u64| token == #[trigger] session_token(a, b, c, d)
}

/// A session token has at least four characters, and all of them are digits.
pub proof fn lemma_session_token_is_digits(token: Seq<char>)
    requires
        is_session_token(token),
    ensures
        token.len() >= 4,
        forall|i: int| 0 <= i < token.len() ==> '0' <= #[trigger] token[i] <= '9',
{
    let (a, b, c, d) = choose|a: u64, b: u64, c: u64, d: u64|
        token == #[trigger] session_token(a, b, c, d);
    lemma_decimal_shape(a as nat);
    lemma_decimal_shape(b as nat);
    lemma_decimal_shape(c as nat);
    lemma_decimal_shape(d as nat);
}

/// The token made of the four numbers `parts`.
pub fn session_id_from(parts: [u64; 4]) -> (id: String)
    ensures
        id@ == session_token(parts[0], parts[1], parts[2], parts[3]),
{
    let mut id = String::new();
    push_decimal(&mut id, parts[0]);
    push_decimal(&mut id, parts[1]);
    push_decimal(&mut id, parts[2]);
    push_decimal(&mut id, parts[3]);
    id
}

/// A fresh session token: 256 random bits as four 64-bit numbers in decimal.
pub fn generate_session_id() -> (id: String)
    ensures
        is_session_token(id@),
{
    let mut nums: [u64; 4] = [0, 0, 0, 0];
    nums[0] = random_u64();
    nums[1] = random_u64();
    nums[2] = random_u64();
    nums[3] = random_u64();
    session_id_from(nums)
}

} // verus!
