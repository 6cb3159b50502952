//! Registration, login and verification end to end, over stores in memory
//! and the real hashing primitive.

use std::cell::RefCell;
use std::rc::Rc;

use agartex_service::auth::{Admission, AuthLayer};
use agartex_service::constants::SESSION_LENGTH_SECONDS;
use agartex_service::control::sessions::post_sessions;
use agartex_service::control::users::post_users;
use agartex_service::domain::sessions::Session;
use agartex_service::domain::users::{Credentials, User};
use agartex_service::repository::sessions::MemorySessionRepository;
use agartex_service::repository::users::{
    MemoryUserRepository, UserGetError, UserInsertError, UserRepository,
};
use agartex_service::service::hash::BcryptHashService;
use agartex_service::service::sessions::{
    HashSessionService, LoginError, SessionService, SessionVerifyError,
};
use agartex_service::service::users::{HashUserService, UserCreationError, UserService};
use agartex_service::status::Status;

/// A handle on a credential store that both engines share.
#[derive(Clone)]
struct SharedUsers(Rc<RefCell<MemoryUserRepository>>);

impl SharedUsers {
    fn new() -> Self {
        SharedUsers(Rc::new(RefCell::new(MemoryUserRepository::new())))
    }
}

impl UserRepository for SharedUsers {
    fn get_by_email(&self, email: &str) -> Result<User, UserGetError> {
        self.0.borrow().get_by_email(email)
    }

    fn insert(&mut self, credentials: Credentials) -> Result<(), UserInsertError> {
        self.0.borrow_mut().insert(credentials)
    }
}

type Sessions = HashSessionService<MemorySessionRepository, SharedUsers, BcryptHashService>;

/// A handle on a session service that every middleware shares.
#[derive(Clone)]
struct SharedSessions(Rc<RefCell<Sessions>>);

impl SessionService for SharedSessions {
    fn login(&mut self, credentials: Credentials) -> Result<Session, LoginError> {
        self.0.borrow_mut().login(credentials)
    }

    fn verify(&mut self, id: &str) -> Result<User, SessionVerifyError> {
        self.0.borrow_mut().verify(id)
    }
}

fn credentials(email: &str, password: &str) -> Credentials {
    Credentials { email: String::from(email), password: String::from(password) }
}

/// Both engines over one credential store.
fn engines() -> (HashUserService<SharedUsers, BcryptHashService>, Sessions) {
    let users = SharedUsers::new();
    (
        HashUserService::new(users.clone(), BcryptHashService::new()),
        HashSessionService::new(MemorySessionRepository::new(), users, BcryptHashService::new()),
    )
}

/// Both engines, with `a@x.com` registered under the password `Abc12345!`.
fn engines_with_identity() -> (HashUserService<SharedUsers, BcryptHashService>, Sessions) {
    let (mut registration, sessions) = engines();
    assert_eq!(registration.register(credentials("a@x.com", "Abc12345!")), Ok(()));
    (registration, sessions)
}

#[test]
fn register_login_verify_and_refusals() {
    let (mut registration, mut sessions) = engines();

    assert_eq!(
        post_users(&mut registration, credentials("a@x.com", "Abc12345!")),
        Ok(Status::Created)
    );

    let before = chrono::Utc::now().timestamp();
    let (cookie, status) =
        post_sessions(&mut sessions, credentials("a@x.com", "Abc12345!")).unwrap();
    let after = chrono::Utc::now().timestamp();
    assert_eq!(status.code(), 201);
    assert_eq!(cookie.name, "RSESSID");
    assert!(cookie.http_only);
    assert!(before + SESSION_LENGTH_SECONDS <= cookie.expires);
    assert!(cookie.expires <= after + SESSION_LENGTH_SECONDS);

    let identity = sessions.verify(&cookie.value).unwrap();
    assert_eq!(identity.email, "a@x.com");
    assert_eq!(identity.id, 1);

    assert_eq!(
        post_sessions(&mut sessions, credentials("a@x.com", "wrong")).err(),
        Some(Status::Unauthorized)
    );
    assert_eq!(
        post_users(&mut registration, credentials("a@x.com", "Abc12345!")),
        Err(Status::Conflict)
    );
    // The session stands after the refused attempts.
    assert_eq!(sessions.verify(&cookie.value).unwrap().email, "a@x.com");
}

#[test]
fn unknown_email_and_wrong_password_fail_alike() {
    let (_, mut sessions) = engines_with_identity();
    let wrong_password = sessions.login(credentials("a@x.com", "Abc12345?"));
    let unknown_email = sessions.login(credentials("b@x.com", "Abc12345!"));
    assert_eq!(wrong_password, Err(LoginError::NoUser));
    assert_eq!(unknown_email, wrong_password);
}

#[test]
fn a_second_registration_of_an_email_changes_nothing() {
    let (mut registration, mut sessions) = engines_with_identity();
    assert_eq!(
        registration.register(credentials("a@x.com", "Other1234!")),
        Err(UserCreationError::DuplicateEmail)
    );
    assert_eq!(sessions.login(credentials("a@x.com", "Other1234!")), Err(LoginError::NoUser));
    assert!(sessions.login(credentials("a@x.com", "Abc12345!")).is_ok());
    // A second identity gets the next id.
    assert_eq!(registration.register(credentials("b@x.com", "Abc12345!")), Ok(()));
    assert_eq!(sessions.login(credentials("b@x.com", "Abc12345!")).unwrap().user.id, 2);
}

#[test]
fn login_at_fixes_token_and_expiry() {
    let (_, mut sessions) = engines_with_identity();
    let session = sessions
        .login_at(credentials("a@x.com", "Abc12345!"), String::from("token"), 1_000)
        .unwrap();
    assert_eq!(session.id, "token");
    assert_eq!(session.expires, 2_593_000);
    assert_eq!(session.user.email, "a@x.com");

    // Good up to and including the second of its expiry, gone after it.
    assert_eq!(sessions.verify_at("token", 2_593_000).unwrap(), session.user);
    assert_eq!(sessions.verify_at("token", 2_593_001), Err(SessionVerifyError::Missing));
    // Evicted: missing from then on, whatever the clock shows.
    assert_eq!(sessions.verify_at("token", 1_000), Err(SessionVerifyError::Missing));
}

#[test]
fn a_token_in_use_is_not_issued_twice() {
    let (_, mut sessions) = engines_with_identity();
    assert!(sessions
        .login_at(credentials("a@x.com", "Abc12345!"), String::from("token"), 1_000)
        .is_ok());
    assert_eq!(
        sessions.login_at(credentials("a@x.com", "Abc12345!"), String::from("token"), 2_000),
        Err(LoginError::Unknown)
    );
    // The first session stands as it was.
    assert_eq!(sessions.verify_at("token", 2_593_000).unwrap().email, "a@x.com");
    assert_eq!(sessions.verify_at("token", 2_593_001), Err(SessionVerifyError::Missing));
}

#[test]
fn an_expiry_out_of_range_is_a_fault_or_an_eviction() {
    let (_, mut sessions) = engines_with_identity();
    // No expiry fits here.
    assert_eq!(
        sessions.login_at(credentials("a@x.com", "Abc12345!"), String::from("a"), i64::MAX),
        Err(LoginError::Unknown)
    );
    assert_eq!(sessions.verify_at("a", 0), Err(SessionVerifyError::Missing));
    // The expiry fits, but is no instant: the session is evicted when read.
    let session = sessions
        .login_at(
            credentials("a@x.com", "Abc12345!"),
            String::from("b"),
            i64::MAX - SESSION_LENGTH_SECONDS,
        )
        .unwrap();
    assert_eq!(session.expires, i64::MAX);
    assert_eq!(sessions.verify_at("b", 0), Err(SessionVerifyError::Missing));
    assert!(sessions
        .login_at(credentials("a@x.com", "Abc12345!"), String::from("b"), 0)
        .is_ok());
}

#[test]
fn unknown_token_is_missing_and_changes_nothing() {
    let (_, mut sessions) = engines_with_identity();
    sessions.login_at(credentials("a@x.com", "Abc12345!"), String::from("token"), 1_000).unwrap();
    assert_eq!(sessions.verify("other"), Err(SessionVerifyError::Missing));
    assert_eq!(sessions.verify_at("", 1_000), Err(SessionVerifyError::Missing));
    assert_eq!(sessions.verify_at("token", 1_000).unwrap().email, "a@x.com");
}

#[test]
fn the_middleware_admits_only_a_live_session() {
    let (_, mut sessions) = engines_with_identity();
    let session = sessions.login(credentials("a@x.com", "Abc12345!")).unwrap();
    sessions.login_at(credentials("a@x.com", "Abc12345!"), String::from("old"), 0).unwrap();

    let layer = AuthLayer::new(SharedSessions(Rc::new(RefCell::new(sessions))));
    let mut middleware = layer.layer("handler");
    assert_eq!(*middleware.next(), "handler");
    assert_eq!(middleware.authorize(None), Admission::Reject(Status::Unauthorized));
    assert_eq!(middleware.authorize(Some("123")), Admission::Reject(Status::Unauthorized));
    assert_eq!(middleware.authorize(Some("old")), Admission::Reject(Status::Unauthorized));
    assert_eq!(middleware.authorize(Some(&session.id)), Admission::Forward(session.user));
}

fn headers(cookies: &[&str]) -> http::HeaderMap {
    let mut headers = http::HeaderMap::new();
    headers.insert(http::header::ACCEPT, http::HeaderValue::from_static("*/*"));
    for cookie in cookies {
        headers.append(http::header::COOKIE, http::HeaderValue::from_str(cookie).unwrap());
    }
    headers
}

#[test]
fn the_middleware_reads_the_session_cookie_from_the_headers() {
    let (_, mut sessions) = engines_with_identity();
    let session = sessions.login(credentials("a@x.com", "Abc12345!")).unwrap();
    let token = session.id.clone();

    let layer = AuthLayer::new(SharedSessions(Rc::new(RefCell::new(sessions))));
    let mut middleware = layer.layer(());
    let admitted = Admission::Forward(session.user);
    let unauthenticated = Admission::Reject(Status::Unauthorized);

    assert_eq!(middleware.call(&headers(&[])), unauthenticated);
    assert_eq!(middleware.call(&headers(&["theme=dark"])), unauthenticated);
    assert_eq!(middleware.call(&headers(&["RSESSID=123"])), unauthenticated);
    // The name of the cookie decides, not the place of the token.
    assert_eq!(middleware.call(&headers(&[&format!("SESSION={}", token)])), unauthenticated);
    assert_eq!(middleware.call(&headers(&[&format!("theme={}", token)])), unauthenticated);
    assert_eq!(middleware.call(&headers(&[&token])), unauthenticated);

    assert_eq!(middleware.call(&headers(&[&format!("RSESSID={}", token)])), admitted);
    assert_eq!(
        middleware.call(&headers(&[&format!("theme=dark; RSESSID={}; lang=en", token)])),
        admitted
    );
    assert_eq!(
        middleware.call(&headers(&["theme=dark", &format!("RSESSID={}", token)])),
        admitted
    );
}

#[test]
fn the_middleware_tells_a_fault_from_a_missing_session() {
    struct Failing;
    impl SessionService for Failing {
        fn login(&mut self, _credentials: Credentials) -> Result<Session, LoginError> {
            Err(LoginError::Unknown)
        }

        fn verify(&mut self, _id: &str) -> Result<User, SessionVerifyError> {
            Err(SessionVerifyError::Unknown)
        }
    }
    impl Clone for Failing {
        fn clone(&self) -> Self {
            Failing
        }
    }

    let mut middleware = AuthLayer::new(Failing).layer(());
    assert_eq!(
        middleware.call(&headers(&["RSESSID=123"])),
        Admission::Reject(Status::InternalServerError)
    );
    assert_eq!(
        middleware.authorize(Some("123")),
        Admission::Reject(Status::InternalServerError)
    );
    // Without a cookie the service is not asked, so its fault does not show.
    assert_eq!(middleware.call(&headers(&[])), Admission::Reject(Status::Unauthorized));
}
