//! One-way password hashing.

use vstd::prelude::*;
use crate::constants::HASH_COST;
use crate::decimal::digit;

verus! {

/// The hashing primitive failed: a refused cost, no randomness for the salt,
/// or a digest that is not in the primitive's format. Distinct from a password
/// that does not match, which is no error.
#[derive(Debug, Clone, Copy, PartialEq, Eq)]
pub struct HashingFailure;

/// A salted one-way password hash.
pub trait HashService {
    /// What verifying `plaintext` against `digest` answers: `Some(b)` for the
    /// answer `b`, `None` where verification fails. Left open unless an
    /// implementation states it.
    open spec fn verdict(&self, plaintext: Seq<char>, digest: Seq<char>) -> Option<bool> {
        arbitrary()
    }

    /// Hashes `input`. A digest that comes back verifies against `input`.
    fn hash(&self, input: &str) -> (digest: Result<String, HashingFailure>)
        ensures
            digest matches Ok(d) ==> self.verdict(input@, d@) == Some(true),
    ;

    /// Verifies `raw` against the digest `hash`. A mismatch is `Ok(false)`;
    /// an error is returned exactly where verification itself fails.
    fn verify(&self, raw: &str, hash: &str) -> (outcome: Result<bool, HashingFailure>)
        ensures
            outcome matches Ok(b) ==> self.verdict(raw@, hash@) == Some(b),
            outcome is Err ==> self.verdict(raw@, hash@) is None,
    ;
}

/// The error type of the `bcrypt` crate, carried through unopened.
#[verifier::external_type_specification]
#[verifier::external_body]
pub struct ExBcryptError(bcrypt::BcryptError);

/// What `bcrypt::verify` returns for a password and a digest: `Some(b)` for
/// `Ok(b)`, `None` for an error. It reads nothing but its two arguments.
pub uninterp spec fn bcrypt_verdict(password: Seq<char>, digest: Seq<char>) -> Option<bool>;

/// `digest` is a digest made at the cost `cost`: sixty characters that
/// start with the version `2b` and the cost in two digits, each behind a
/// dollar sign and a dollar sign behind them.
pub open spec fn made_at_cost(digest: Seq<char>, cost: u32) -> bool {
    &&& 4 <= cost <= 31
    &&& digest.len() == 60
    &&& digest.subrange(0, 7) == seq![
        '$',
        '2',
        'b',
        '$',
        digit((cost / 10) as nat),
        digit((cost % 10) as nat),
        '$',
    ]
}

/// `bcrypt::hash`: hashes under a fresh random salt, so two calls differ. It
/// fails for a cost outside 4 to 31 and when the system gives no randomness.
/// The digest it returns is the version, the cost in two digits, and 53
/// characters of salt and hash; `bcrypt::verify` recomputes the hash from
/// cost and salt, so the password verifies against its own digest.
#[verifier::external_body]
fn bcrypt_hash(password: &str, cost: u32) -> (digest: Result<String, bcrypt::BcryptError>)
    ensures
        digest matches Ok(d) ==> bcrypt_verdict(password@, d@) == Some(true),
        digest matches Ok(d) ==> made_at_cost(d@, cost),
{
    bcrypt::hash(password, cost)
}

/// `bcrypt::verify`: splits the digest into version, cost, salt and hash,
/// hashes the password again and compares. It fails where the digest does not
/// have that format.
#[verifier::external_body]
fn bcrypt_verify(password: &str, digest: &str) -> (outcome: Result<bool, bcrypt::BcryptError>)
    ensures
        outcome matches Ok(b) ==> bcrypt_verdict(password@, digest@) == Some(b),
        outcome is Err ==> bcrypt_verdict(password@, digest@) is None,
{
    bcrypt::verify(password, digest)
}

/// The hashing primitive backed by bcrypt at a fixed cost.
#[derive(Debug, Clone, Copy)]
pub struct BcryptHashService {
    hash_cost: u32,
}

impl BcryptHashService {
    /// The cost factor that `hash` works at.
    pub closed spec fn cost(&self) -> u32 {
        self.hash_cost
    }

    /// A service at the configured cost.
    pub fn new() -> (service: Self)
        ensures
            service.cost() == HASH_COST,
    {
        Self { hash_cost: HASH_COST }
    }
}

impl HashService for BcryptHashService {
    open spec fn verdict(&self, plaintext: Seq<char>, digest: Seq<char>) -> Option<bool> {
        bcrypt_verdict(plaintext, digest)
    }

    /// A digest that comes back is made at the cost of the service.
    fn hash(&self, input: &str) -> (digest: Result<String, HashingFailure>)
        ensures
            digest matches Ok(d) ==> made_at_cost(d@, self.cost()),
    {
        answer_for(bcrypt_hash(input, self.hash_cost))
    }

    fn verify(&self, raw: &str, hash: &str) -> (outcome: Result<bool, HashingFailure>) {
        answer_for(bcrypt_verify(raw, hash))
    }
}

/// What the service answers for an answer of `bcrypt`: a value goes through
/// as it is, and every error of the crate becomes the one failure, so that a
/// caller learns that the primitive failed and not why.
pub fn answer_for<T>(answered: Result<T, bcrypt::BcryptError>) -> (answer: Result<
    T,
    HashingFailure,
>)
    ensures
        match answered {
            Ok(value) => answer == Ok::<T, HashingFailure>(value),
            Err(_) => answer == Err::<T, HashingFailure>(HashingFailure),
        },
{
    match answered {
        Ok(value) => Ok(value),
        Err(_) => Err(HashingFailure),
    }
}

} // verus!
