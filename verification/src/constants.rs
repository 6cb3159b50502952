//! Process-wide configuration, fixed at start-up.

use vstd::prelude::*;

verus! {

/// Where the database is looked for when the environment names none.
pub const DB_URL: &'static str = "postgres://localhost:5432/agartex-db";

/// Cost factor handed to the password hash.
pub const HASH_COST: u32 = 12;

/// Lifetime of a session in seconds: thirty days.
pub const SESSION_LENGTH_SECONDS: i64 = 2_592_000;

/// Name of the cookie that carries the session token.
pub const SESSION_COOKIE_NAME: &'static str = "RSESSID";

/// The characters that count as special in a password.
pub const PASSWORD_SPECIAL_CHARS: &'static str = "!@#$%^&*";

/// The environment variable that names the client's origin.
pub const CLIENT_URL_ENV_VAR: &'static str = "CLIENT_URL";

/// The program that compiles documents.
pub const LATEXMK_PATH: &'static str = "latexmk";

/// The directory in which documents are compiled.
pub const COMPILE_DIR: &'static str = "/tmp/agar_service/";

/// The address that the server listens on.
pub const SERVER_URL: &'static str = "0.0.0.0:3000";

} // verus!
