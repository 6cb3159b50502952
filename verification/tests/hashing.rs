//! The hashing primitive and the clock.

use agartex_service::clock::has_lapsed;
use agartex_service::service::hash::{answer_for, BcryptHashService, HashService, HashingFailure};

#[test]
fn a_password_verifies_against_its_own_digest_only() {
    let service = BcryptHashService::new();
    let digest = service.hash("Abc12345!").unwrap();
    assert_ne!(digest, "Abc12345!");
    assert!(digest.starts_with("$2b$12$"));
    assert_eq!(digest.len(), 60);
    assert_eq!(service.verify("Abc12345!", &digest), Ok(true));
    assert_eq!(service.verify("Abc12345?", &digest), Ok(false));
    assert_eq!(service.verify("", &digest), Ok(false));
}

#[test]
fn every_digest_has_its_own_salt() {
    let service = BcryptHashService::new();
    let first = service.hash("Abc12345!").unwrap();
    let second = service.hash("Abc12345!").unwrap();
    assert_ne!(first, second);
    assert_eq!(service.verify("Abc12345!", &second), Ok(true));
}

#[test]
fn digests_made_elsewhere_verify() {
    let service = BcryptHashService::new();
    let digest = "$2b$04$EGdrhbKUv8Oc9vGiXX0HQOxSg445d458Muh7DAHskb6QbtCvdxcie";
    assert_eq!(service.verify("correctbatteryhorsestapler", digest), Ok(true));
    assert_eq!(service.verify("wrong", digest), Ok(false));
}

#[test]
fn a_text_that_is_no_digest_is_a_failure_and_no_mismatch() {
    let service = BcryptHashService::new();
    assert_eq!(service.verify("password", "hashed_password"), Err(HashingFailure));
    assert_eq!(service.verify("password", ""), Err(HashingFailure));
    assert_eq!(service.verify("password", "$2a$04$tjARW6ZON3PhrAIRW2LG/u9a."), Err(HashingFailure));
    assert_eq!(
        service.verify(
            "password",
            "$2a$99$n4Uy0eSnMfvnESYL.bLwuuj0U/ETSsoTpRT9GVk5bektyVVa5xnIi"
        ),
        Err(HashingFailure)
    );
}

#[test]
fn every_error_of_the_primitive_is_the_one_failure() {
    assert_eq!(
        answer_for::<String>(Err(bcrypt::BcryptError::CostNotAllowed(3))),
        Err(HashingFailure)
    );
    assert_eq!(
        answer_for::<bool>(Err(bcrypt::BcryptError::InvalidHash(String::from("digest")))),
        Err(HashingFailure)
    );
    assert_eq!(answer_for(Ok(String::from("digest"))), Ok(String::from("digest")));
    assert_eq!(answer_for(Ok(false)), Ok(false));
    assert_eq!(answer_for(Ok(true)), Ok(true));
}

#[test]
fn a_session_is_over_after_its_expiry_or_without_one() {
    // Not over in the second of its expiry, over in the next.
    assert!(!has_lapsed(1_700_000_000, 1_700_000_000));
    assert!(!has_lapsed(1_700_000_000, 1_699_999_999));
    assert!(has_lapsed(1_700_000_000, 1_700_000_001));
    assert!(!has_lapsed(0, -5));
    assert!(has_lapsed(-10, -5));
    // No instant at all, whatever the clock shows.
    assert!(has_lapsed(1000 * 1000 * 1000 * 1000 * 1000, 0));
    assert!(has_lapsed(i64::MAX, i64::MIN));
    assert!(has_lapsed(i64::MIN, i64::MIN));
    // The last and the first second that are instants.
    assert!(!has_lapsed(8_210_266_876_799, 0));
    assert!(has_lapsed(8_210_266_876_800, 0));
    assert!(!has_lapsed(-8_334_601_228_800, -8_334_601_228_800));
    assert!(has_lapsed(-8_334_601_228_801, i64::MIN));
}
