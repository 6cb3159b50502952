//! The registration endpoint.

use vstd::prelude::*;
use crate::domain::users::Credentials;
use crate::service::users::{UserCreationError, UserService};
use crate::status::Status;

verus! {

/// The answer to the registration result `outcome`: 201 for a new identity,
/// 409 for a taken email, 500 for a fault.
pub open spec fn registration_answer(outcome: Result<(), UserCreationError>) -> Result<
    Status,
    Status,
> {
    match outcome {
        Ok(()) => Ok(Status::Created),
        Err(UserCreationError::DuplicateEmail) => Err(Status::Conflict),
        Err(UserCreationError::Unknown) => Err(Status::InternalServerError),
    }
}

/// The answer to a registration that ended in `outcome`.
pub fn registration_response(outcome: Result<(), UserCreationError>) -> (response: Result<
    Status,
    Status,
>)
    ensures
        response == registration_answer(outcome),
{
    match outcome {
        Ok(()) => Ok(Status::Created),
        Err(UserCreationError::DuplicateEmail) => Err(Status::Conflict),
        Err(UserCreationError::Unknown) => Err(Status::InternalServerError),
    }
}

/// Handles a registration attempt: registers `credentials` and answers what
/// came of it.
pub fn post_users<T: UserService>(service: &mut T, credentials: Credentials) -> (response:
    Result<Status, Status>)
    ensures
        exists|outcome: Result<(), UserCreationError>|
            {
                &&& #[trigger] old(service).register_post(credentials@, outcome, *final(service))
                &&& response == registration_answer(outcome)
            },
{
    let ghost given = credentials@;
    let ghost before = *service;
    let outcome = service.register(credentials);
    proof {
        assert(before.register_post(given, outcome, *service));
    }
    registration_response(outcome)
}

} // verus!
