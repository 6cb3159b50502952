//! What the login and registration endpoints answer.

pub mod sessions;
pub mod users;
