//! The records that the engines work on.

pub mod sessions;
pub mod users;
