//! The credential store and the session store.

pub mod sessions;
pub mod users;
