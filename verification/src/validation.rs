//! Credentials that have passed validation.

use vstd::prelude::*;
use crate::domain::users::{violations, Credentials, Violation};
use crate::status::Status;

verus! {

/// Why a submission was refused before it reached an engine. A body that
/// does not parse is refused by the parser and never gets as far as this.
#[derive(Debug, PartialEq)]
pub enum ValidatedJsonRejection {
    /// The submission breaks these rules; there is at least one.
    ValidationRejection(Vec<Violation>),
}

impl ValidatedJsonRejection {
    /// The status that answers the refusal.
    pub fn status(&self) -> (status: Status)
        ensures
            status == Status::UnprocessableEntity,
    {
        match self {
            ValidatedJsonRejection::ValidationRejection(_) => Status::UnprocessableEntity,
        }
    }
}

/// A submission that breaks no rule.
#[derive(Debug, PartialEq)]
pub struct ValidatedJson<T>(pub T);

impl ValidatedJson<Credentials> {
    /// Validates `data`: it is accepted, unchanged, exactly where it breaks
    /// no rule, and refused with all the rules it breaks otherwise.
    pub fn accept(data: Credentials) -> (accepted: Result<Self, ValidatedJsonRejection>)
        ensures
            match accepted {
                Ok(valid) => valid.0 == data && violations(data@).len() == 0,
                Err(ValidatedJsonRejection::ValidationRejection(found)) => {
                    &&& found@ == violations(data@)
                    &&& found@.len() > 0
                },
            },
    {
        let found = data.validate();
        if found.len() > 0 {
            return Err(ValidatedJsonRejection::ValidationRejection(found));
        }
        Ok(ValidatedJson(data))
    }
}

} // verus!
