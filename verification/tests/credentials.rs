//! The rules for submitted credentials.

use agartex_service::domain::users::{
    allowed_length, contains_digit, contains_lowercase, contains_special, contains_uppercase,
    email_address, only_allowed_characters, Credentials, Violation,
};
use agartex_service::status::Status;
use agartex_service::validation::{ValidatedJson, ValidatedJsonRejection};

fn credentials(email: &str, password: &str) -> Credentials {
    Credentials { email: String::from(email), password: String::from(password) }
}

#[test]
fn fit_credentials_break_no_rule() {
    assert_eq!(credentials("a@x.com", "Abc12345!").validate(), vec![]);
    assert_eq!(
        ValidatedJson::accept(credentials("a@x.com", "Abc12345!")),
        Ok(ValidatedJson(credentials("a@x.com", "Abc12345!")))
    );
}

#[test]
fn every_broken_rule_is_reported_in_order() {
    assert_eq!(
        credentials("not an email", "").validate(),
        vec![
            Violation::Email,
            Violation::Length,
            Violation::Uppercase,
            Violation::Lowercase,
            Violation::Digit,
            Violation::Special,
        ]
    );
    assert_eq!(
        credentials("a@x.com", "abc 12345é").validate(),
        vec![Violation::Alphabet, Violation::Uppercase, Violation::Special]
    );
    let rejection = ValidatedJson::accept(credentials("a@x.com", "Abc12345")).unwrap_err();
    assert_eq!(rejection, ValidatedJsonRejection::ValidationRejection(vec![Violation::Special]));
    assert_eq!(rejection.status(), Status::UnprocessableEntity);
    assert_eq!(rejection.status().code(), 422);
}

#[test]
fn the_length_counts_characters_between_8_and_32() {
    assert_eq!(allowed_length("1234567"), Err(Violation::Length));
    assert_eq!(allowed_length("12345678"), Ok(()));
    assert_eq!(allowed_length(&"a".repeat(32)), Ok(()));
    assert_eq!(allowed_length(&"a".repeat(33)), Err(Violation::Length));
    assert_eq!(allowed_length(&"a".repeat(1000)), Err(Violation::Length));
    // Eight characters in sixteen bytes.
    assert_eq!(allowed_length("éééééééé"), Ok(()));
    // Four characters in eight bytes.
    assert_eq!(allowed_length("éééé"), Err(Violation::Length));
}

#[test]
fn each_kind_of_character_is_looked_for() {
    assert_eq!(contains_uppercase("abcZ"), Ok(()));
    assert_eq!(contains_uppercase("abc1!É"), Err(Violation::Uppercase));
    assert_eq!(contains_uppercase(""), Err(Violation::Uppercase));
    assert_eq!(contains_lowercase("ABCa"), Ok(()));
    assert_eq!(contains_lowercase("ABC1!é"), Err(Violation::Lowercase));
    assert_eq!(contains_digit("abc0"), Ok(()));
    assert_eq!(contains_digit("abc9"), Ok(()));
    assert_eq!(contains_digit("abcA!٣"), Err(Violation::Digit));
    for special in ["!", "@", "#", "$", "%", "^", "&", "*"] {
        assert_eq!(contains_special(special), Ok(()));
    }
    assert_eq!(contains_special("abcA1()-_+=?"), Err(Violation::Special));
}

#[test]
fn the_alphabet_is_letters_digits_and_special_characters() {
    assert_eq!(only_allowed_characters(""), Ok(()));
    assert_eq!(only_allowed_characters("AZaz09!@#$%^&*"), Ok(()));
    assert_eq!(only_allowed_characters("Abc12345! "), Err(Violation::Alphabet));
    assert_eq!(only_allowed_characters("Abc12345!\n"), Err(Violation::Alphabet));
    assert_eq!(only_allowed_characters("Abc-12345"), Err(Violation::Alphabet));
    assert_eq!(only_allowed_characters("[`{/:"), Err(Violation::Alphabet));
}

#[test]
fn an_email_is_an_email_address() {
    assert_eq!(email_address("a@x.com"), Ok(()));
    assert_eq!(email_address("someone@example.org"), Ok(()));
    assert_eq!(email_address("a"), Err(Violation::Email));
    assert_eq!(email_address(""), Err(Violation::Email));
    assert_eq!(email_address("a@"), Err(Violation::Email));
    assert_eq!(email_address("@x.com"), Err(Violation::Email));
    assert_eq!(email_address("a b@x.com"), Err(Violation::Email));
}
