//! The HTTP statuses that the library answers with.

use vstd::prelude::*;

verus! {

/// A status of an HTTP response.
#[derive(Debug, Clone, Copy, PartialEq, Eq, Structural)]
pub enum Status {
    /// 201: a session or an identity was created.
    Created,
    /// 401: the caller is not authenticated.
    Unauthorized,
    /// 409: the email belongs to an identity already.
    Conflict,
    /// 422: the request was understood and its content refused.
    UnprocessableEntity,
    /// 500: a fault on the server's side.
    InternalServerError,
}

impl Status {
    /// The number of the status.
    pub open spec fn number(self) -> u16 {
        match self {
            Status::Created => 201,
            Status::Unauthorized => 401,
            Status::Conflict => 409,
            Status::UnprocessableEntity => 422,
            Status::InternalServerError => 500,
        }
    }

    /// The number of the status.
    pub fn code(&self) -> (code: u16)
        ensures
            code == self.number(),
    {
        match self {
            Status::Created => 201,
            Status::Unauthorized => 401,
            Status::Conflict => 409,
            Status::UnprocessableEntity => 422,
            Status::InternalServerError => 500,
        }
    }
}

} // verus!
