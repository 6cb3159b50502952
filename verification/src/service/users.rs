//! The registration engine.

use vstd::prelude::*;
use crate::domain::users::{Credentials, CredentialsView, UserView};
use crate::repository::users::{registered, UserInsertError, UserRepository};
use crate::service::hash::{HashService, HashingFailure};

verus! {

/// Why a registration failed.
#[derive(Debug, Clone, Copy, PartialEq, Eq)]
pub enum UserCreationError {
    /// The email belongs to an identity already.
    DuplicateEmail,
    /// The credential store or the hashing primitive failed.
    Unknown,
}

/// Storing an identity for `email` whose password hashed to `hashed`, while
/// the store does not fail: the result, and whether the identity with that
/// digest joins `users`. Nothing is looked up first: the store itself reports
/// a taken email.
pub open spec fn register_model(
    users: Map<Seq<char>, UserView>,
    email: Seq<char>,
    hashed: Result<Seq<char>, HashingFailure>,
) -> Result<(), UserCreationError> {
    match hashed {
        Err(_) => Err(UserCreationError::Unknown),
        Ok(_) => if users.contains_key(email) {
            Err(UserCreationError::DuplicateEmail)
        } else {
            Ok(())
        },
    }
}

/// A hashing result with the digest taken by its view.
pub open spec fn digest_outcome(hashed: Result<String, HashingFailure>) -> Result<
    Seq<char>,
    HashingFailure,
> {
    match hashed {
        Ok(digest) => Ok(digest@),
        Err(failure) => Err(failure),
    }
}

/// Registration of new identities.
pub trait UserService: Sized {
    /// What a call of `register` with `credentials` may do: it returns
    /// `outcome` and leaves the service as `after`. Anything, unless an
    /// implementation states less.
    open spec fn register_post(
        &self,
        credentials: CredentialsView,
        outcome: Result<(), UserCreationError>,
        after: Self,
    ) -> bool {
        true
    }

    /// Creates an identity for `credentials`.
    fn register(&mut self, credentials: Credentials) -> (outcome: Result<(), UserCreationError>)
        ensures
            old(self).register_post(credentials@, outcome, *final(self)),
    ;
}

/// The registration engine over a credential store and a hashing primitive.
#[derive(Debug, Clone)]
pub struct HashUserService<U: UserRepository, H: HashService> {
    repository: U,
    hash_service: H,
}

impl<U: UserRepository, H: HashService> HashUserService<U, H> {
    /// The identities in the credential store, by email.
    pub closed spec fn users(&self) -> Map<Seq<char>, UserView> {
        self.repository.users()
    }

    /// The hashing primitive.
    pub closed spec fn hasher(&self) -> H {
        self.hash_service
    }

    /// The credential store cannot fail on its own account.
    pub closed spec fn reliable(&self) -> bool {
        self.repository.reliable()
    }

    /// What `store_identity` may do with `email` and `hashed`: on success the
    /// identity with the digest has joined the store, else the store is as it
    /// was; the result is what `register_model` says, or, while the store is
    /// not reliable, `Unknown`.
    pub open spec fn stored(
        &self,
        email: Seq<char>,
        hashed: Result<Seq<char>, HashingFailure>,
        outcome: Result<(), UserCreationError>,
        after: Self,
    ) -> bool {
        &&& after.hasher() == self.hasher()
        &&& match outcome {
            Ok(()) => hashed is Ok && registered(self.users(), after.users(), email, hashed->Ok_0),
            Err(_) => after.users() == self.users(),
        }
        &&& {
            ||| outcome == register_model(self.users(), email, hashed)
            ||| outcome == Err::<(), UserCreationError>(UserCreationError::Unknown)
                && !self.reliable()
        }
    }

    /// An engine over the two collaborators.
    pub fn new(repository: U, hash_service: H) -> (service: Self)
        ensures
            service.users() == repository.users(),
            service.hasher() == hash_service,
            service.reliable() == repository.reliable(),
    {
        Self { repository, hash_service }
    }

    /// Registration once the password has been through the hashing
    /// primitive: stores the identity `email` with the digest in `hashed`.
    /// Makes one insertion and no lookup.
    pub fn store_identity(&mut self, email: String, hashed: Result<String, HashingFailure>) -> (outcome:
        Result<(), UserCreationError>)
        ensures
            old(self).stored(email@, digest_outcome(hashed), outcome, *final(self)),
    {
        let password_hash = match hashed {
            Ok(digest) => digest,
            Err(_) => {
                return Err(UserCreationError::Unknown);
            },
        };
        match self.repository.insert(Credentials { email, password: password_hash }) {
            Ok(()) => Ok(()),
            Err(UserInsertError::Duplicate) => Err(UserCreationError::DuplicateEmail),
            Err(UserInsertError::Unknown) => Err(UserCreationError::Unknown),
        }
    }
}

impl<U: UserRepository, H: HashService> UserService for HashUserService<U, H> {
    /// Some result of hashing the password makes `store_identity` do this,
    /// and a digest among them verifies against the password.
    open spec fn register_post(
        &self,
        credentials: CredentialsView,
        outcome: Result<(), UserCreationError>,
        after: Self,
    ) -> bool {
        exists|hashed: Result<Seq<char>, HashingFailure>|
            {
                &&& hashed matches Ok(digest) ==> self.hasher().verdict(
                    credentials.password,
                    digest,
                ) == Some(true)
                &&& #[trigger] self.stored(credentials.email, hashed, outcome, after)
            }
    }

    /// Hashes the password, then stores the identity with the digest.
    fn register(&mut self, credentials: Credentials) -> (outcome: Result<(), UserCreationError>) {
        let hashed = self.hash_service.hash(credentials.password.as_str());
        let ghost before = *self;
        let ghost seen = digest_outcome(hashed);
        let ghost given = credentials@;
        let outcome = self.store_identity(credentials.email, hashed);
        proof {
            assert(before.stored(given.email, seen, outcome, *self));
        }
        outcome
    }
}

} // verus!
