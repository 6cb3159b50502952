//! The engines and the hashing primitive they rest on, and the compilation
//! of documents.

pub mod compilation;
pub mod execution;
pub mod hash;
pub mod laws;
pub mod sessions;
pub mod users;
