//! The login and registration endpoints against services that answer as
//! told.

use agartex_service::constants::SESSION_COOKIE_NAME;
use agartex_service::control::sessions::{login_response, post_sessions};
use agartex_service::control::users::{post_users, registration_response};
use agartex_service::domain::sessions::Session;
use agartex_service::domain::users::{Credentials, User};
use agartex_service::service::sessions::{LoginError, SessionService, SessionVerifyError};
use agartex_service::service::users::{UserCreationError, UserService};
use agartex_service::status::Status;

/// A session service whose login answers as it was told to, once.
struct MockSessionService {
    login: Option<(Credentials, Result<Session, LoginError>)>,
    logins: usize,
}

impl SessionService for MockSessionService {
    fn login(&mut self, credentials: Credentials) -> Result<Session, LoginError> {
        self.logins += 1;
        let (expected, answer) = self.login.take().expect("login was not expected");
        assert_eq!(expected, credentials);
        answer
    }

    fn verify(&mut self, _id: &str) -> Result<User, SessionVerifyError> {
        panic!("verify was not expected")
    }
}

/// A registration service that answers as it was told to, once.
struct MockUserService {
    register: Option<(Credentials, Result<(), UserCreationError>)>,
    registers: usize,
}

impl UserService for MockUserService {
    fn register(&mut self, credentials: Credentials) -> Result<(), UserCreationError> {
        self.registers += 1;
        let (expected, answer) = self.register.as_ref().expect("register was not expected");
        assert_eq!(expected, &credentials);
        *answer
    }
}

fn mock_email() -> String {
    String::from("email")
}

fn mock_password() -> String {
    String::from("password")
}

fn mock_credentials() -> Credentials {
    Credentials { email: mock_email(), password: mock_password() }
}

fn mock_session_id() -> String {
    String::from("session_id")
}

fn mock_user() -> User {
    User { id: 1, email: mock_email(), password_hash: mock_password() }
}

fn mock_session() -> Session {
    Session { id: mock_session_id(), user: mock_user(), expires: chrono::Utc::now().timestamp() }
}

#[test]
fn post_sessions_normal() {
    let session = mock_session();
    let mut session_service = MockSessionService {
        login: Some((mock_credentials(), Ok(session.clone()))),
        logins: 0,
    };

    let (cookie, status) = post_sessions(&mut session_service, mock_credentials()).unwrap();
    assert_eq!(Status::Created, status);
    assert_eq!(201, status.code());

    assert_eq!(SESSION_COOKIE_NAME, cookie.name);
    assert_eq!(session.id, cookie.value);
    assert_eq!(session.expires, cookie.expires);
    assert!(cookie.http_only);
    assert_eq!(session_service.logins, 1);
}

#[test]
fn post_sessions_no_user_error() {
    let mut session_service = MockSessionService {
        login: Some((mock_credentials(), Err(LoginError::NoUser))),
        logins: 0,
    };

    assert_eq!(
        Status::Unauthorized,
        post_sessions(&mut session_service, mock_credentials()).err().unwrap()
    );
    assert_eq!(session_service.logins, 1);
}

#[test]
fn post_sessions_unknown_error() {
    let mut session_service = MockSessionService {
        login: Some((mock_credentials(), Err(LoginError::Unknown))),
        logins: 0,
    };

    assert_eq!(
        Status::InternalServerError,
        post_sessions(&mut session_service, mock_credentials()).err().unwrap()
    );
    assert_eq!(session_service.logins, 1);
}

#[test]
fn post_users_normal() {
    let mut user_service =
        MockUserService { register: Some((mock_credentials(), Ok(()))), registers: 0 };

    assert_eq!(Ok(Status::Created), post_users(&mut user_service, mock_credentials()));
    assert_eq!(user_service.registers, 1);
}

#[test]
fn post_users_duplicate_error() {
    let mut user_service = MockUserService {
        register: Some((mock_credentials(), Err(UserCreationError::DuplicateEmail))),
        registers: 0,
    };

    assert_eq!(Err(Status::Conflict), post_users(&mut user_service, mock_credentials()));
    assert_eq!(user_service.registers, 1);
}

#[test]
fn post_users_service_unknown_error() {
    let mut user_service = MockUserService {
        register: Some((mock_credentials(), Err(UserCreationError::Unknown))),
        registers: 0,
    };

    assert_eq!(Err(Status::InternalServerError), post_users(&mut user_service, mock_credentials()));
    assert_eq!(user_service.registers, 1);
}

#[test]
fn statuses_have_their_numbers() {
    assert_eq!(Status::Created.code(), 201);
    assert_eq!(Status::Unauthorized.code(), 401);
    assert_eq!(Status::Conflict.code(), 409);
    assert_eq!(Status::UnprocessableEntity.code(), 422);
    assert_eq!(Status::InternalServerError.code(), 500);
}

#[test]
fn responses_follow_the_results() {
    assert_eq!(login_response(Err(LoginError::NoUser)), Err(Status::Unauthorized));
    assert_eq!(login_response(Err(LoginError::Unknown)), Err(Status::InternalServerError));
    let session = Session { id: mock_session_id(), user: mock_user(), expires: 1_700_000_000 };
    let (cookie, status) = login_response(Ok(session)).unwrap();
    assert_eq!((cookie.name.as_str(), cookie.value.as_str()), ("RSESSID", "session_id"));
    assert_eq!((cookie.expires, cookie.http_only, status), (1_700_000_000, true, Status::Created));
    assert_eq!(registration_response(Ok(())), Ok(Status::Created));
    assert_eq!(
        registration_response(Err(UserCreationError::DuplicateEmail)),
        Err(Status::Conflict)
    );
    assert_eq!(
        registration_response(Err(UserCreationError::Unknown)),
        Err(Status::InternalServerError)
    );
}
