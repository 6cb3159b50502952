//! Authentication and session management for a web application.
//!
//! The session engine ([`service::sessions`]) checks credentials, issues
//! sessions and resolves session tokens, evicting a session the moment it is
//! found to be over. The registration engine ([`service::users`]) creates
//! identities. Both work over a credential store and a session store
//! ([`repository`]) and a hashing primitive ([`service::hash`]), each behind a
//! trait, and hold no state of their own. The middleware ([`auth`]) lets a
//! request through to a protected route only with the identity that its
//! session cookie resolves to.
//!
//! Contracts are stated over the contents of the stores as maps, and
//! [`service::laws`] proves what follows from them across calls. All calls
//! block; a server runs them where blocking holds up no other request.

pub mod auth;
pub mod clock;
pub mod constants;
pub mod control;
pub mod decimal;
pub mod domain;
pub mod repository;
pub mod service;
pub mod status;
pub mod validation;
