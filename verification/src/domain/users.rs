//! Identities and the credentials that claim them.

use vstd::prelude::*;
use crate::constants::PASSWORD_SPECIAL_CHARS;

verus! {

/// A registered identity: numeric id, email, and the digest of its password.
#[derive(Debug, PartialEq)]
pub struct User {
    pub id: i32,
    pub email: String,
    pub password_hash: String,
}

/// What a `User` stands for in contracts.
pub struct UserView {
    pub id: i32,
    pub email: Seq<char>,
    pub password_hash: Seq<char>,
}

impl View for User {
    type V = UserView;

    open spec fn view(&self) -> UserView {
        UserView { id: self.id, email: self.email@, password_hash: self.password_hash@ }
    }
}

impl Clone for User {
    fn clone(&self) -> (copy: Self)
        ensures
            copy@ == self@,
    {
        User {
            id: self.id,
            email: self.email.clone(),
            password_hash: self.password_hash.clone(),
        }
    }
}

/// An email with a cleartext password, as submitted at login or registration.
/// The credential store receives the same shape with the digest in place of
/// the password.
#[derive(Debug, PartialEq)]
pub struct Credentials {
    pub email: String,
    pub password: String,
}

/// What `Credentials` stand for in contracts.
pub struct CredentialsView {
    pub email: Seq<char>,
    pub password: Seq<char>,
}

impl View for Credentials {
    type V = CredentialsView;

    open spec fn view(&self) -> CredentialsView {
        CredentialsView { email: self.email@, password: self.password@ }
    }
}

impl Clone for Credentials {
    fn clone(&self) -> (copy: Self)
        ensures
            copy@ == self@,
    {
        Credentials { email: self.email.clone(), password: self.password.clone() }
    }
}

/// A rule for credentials that a submission breaks.
#[derive(Debug, Clone, Copy, PartialEq, Eq, Structural)]
pub enum Violation {
    /// The email is not an email address.
    Email,
    /// The password has fewer than 8 or more than 32 characters.
    Length,
    /// The password holds a character that is neither a letter or digit of
    /// ASCII nor a special character.
    Alphabet,
    /// The password has no upper-case letter.
    Uppercase,
    /// The password has no lower-case letter.
    Lowercase,
    /// The password has no digit.
    Digit,
    /// The password has no special character.
    Special,
}

/// Whether `validator::validate_email` accepts `email` as an email address
/// in the form that HTML5 describes.
pub uninterp spec fn well_formed_email(email: Seq<char>) -> bool;

/// `validator::validate_email`: whether the text is an email address by the
/// rules of HTML5, with the length limits of its two parts. It reads nothing
/// but the text.
#[verifier::external_body]
fn validator_accepts_email(email: &str) -> (accepted: bool)
    ensures
        accepted == well_formed_email(email@),
{
    validator::validate_email(email)
}

/// Whether `c` is an upper-case letter of ASCII.
pub open spec fn is_uppercase(c: char) -> bool {
    'A' <= c <= 'Z'
}

/// Whether `c` is a lower-case letter of ASCII.
pub open spec fn is_lowercase(c: char) -> bool {
    'a' <= c <= 'z'
}

/// Whether `c` is a digit of ASCII.
pub open spec fn is_digit(c: char) -> bool {
    '0' <= c <= '9'
}

/// Whether `c` is one of the special characters.
pub open spec fn is_special(c: char) -> bool {
    PASSWORD_SPECIAL_CHARS@.contains(c)
}

/// Some character of `password` is an upper-case letter.
pub open spec fn has_uppercase(password: Seq<char>) -> bool {
    exists|i: int| 0 <= i < password.len() && is_uppercase(#[trigger] password[i])
}

/// Some character of `password` is a lower-case letter.
pub open spec fn has_lowercase(password: Seq<char>) -> bool {
    exists|i: int| 0 <= i < password.len() && is_lowercase(#[trigger] password[i])
}

/// Some character of `password` is a digit.
pub open spec fn has_digit(password: Seq<char>) -> bool {
    exists|i: int| 0 <= i < password.len() && is_digit(#[trigger] password[i])
}

/// Some character of `password` is a special character.
pub open spec fn has_special(password: Seq<char>) -> bool {
    exists|i: int| 0 <= i < password.len() && is_special(#[trigger] password[i])
}

/// Every character of `password` is a letter, a digit or a special
/// character.
pub open spec fn within_alphabet(password: Seq<char>) -> bool {
    forall|i: int|
        0 <= i < password.len() ==> {
            let c = #[trigger] password[i];
            is_uppercase(c) || is_lowercase(c) || is_digit(c) || is_special(c)
        }
}

/// `password` has between 8 and 32 characters.
pub open spec fn length_allowed(password: Seq<char>) -> bool {
    8 <= password.len() <= 32
}

/// `Ok` where `holds`, else the violation `otherwise`.
pub open spec fn rule(holds: bool, otherwise: Violation) -> Result<(), Violation> {
    if holds {
        Ok(())
    } else {
        Err(otherwise)
    }
}

/// `found`, and after it the violation that `checked` reports, if any.
pub open spec fn noted(found: Seq<Violation>, checked: Result<(), Violation>) -> Seq<Violation> {
    match checked {
        Ok(()) => found,
        Err(violation) => found.push(violation),
    }
}

/// The rules that `credentials` break, in the order in which they are
/// checked: the email first, then the password's length, its alphabet and
/// the four kinds of character it must hold.
pub open spec fn violations(credentials: CredentialsView) -> Seq<Violation> {
    let password = credentials.password;
    let email = noted(seq![], rule(well_formed_email(credentials.email), Violation::Email));
    let length = noted(email, rule(length_allowed(password), Violation::Length));
    let alphabet = noted(length, rule(within_alphabet(password), Violation::Alphabet));
    let uppercase = noted(alphabet, rule(has_uppercase(password), Violation::Uppercase));
    let lowercase = noted(uppercase, rule(has_lowercase(password), Violation::Lowercase));
    let digit = noted(lowercase, rule(has_digit(password), Violation::Digit));
    noted(digit, rule(has_special(password), Violation::Special))
}

fn special(c: char) -> (found: bool)
    ensures
        found == is_special(c),
{
    proof {
        reveal_strlit("!@#$%^&*");
    }
    let found = c == '!' || c == '@' || c == '#' || c == '$' || c == '%' || c == '^' || c == '&'
        || c == '*';
    proof {
        let all = PASSWORD_SPECIAL_CHARS@;
        if found {
            let at = if c == '!' {
                0int
            } else if c == '@' {
                1
            } else if c == '#' {
                2
            } else if c == '$' {
                3
            } else if c == '%' {
                4
            } else if c == '^' {
                5
            } else if c == '&' {
                6
            } else {
                7
            };
            assert(all[at] == c);
        }
    }
    found
}

/// Checks that `password` holds an upper-case letter.
pub fn contains_uppercase(password: &str) -> (checked: Result<(), Violation>)
    ensures
        checked == rule(has_uppercase(password@), Violation::Uppercase),
{
    let mut found = false;
    for c in iter: password.chars()
        invariant
            iter.seq() == password@,
            found == exists|i: int|
                0 <= i < iter.index() && is_uppercase(#[trigger] password@[i]),
    {
        if 'A' <= c && c <= 'Z' {
            found = true;
        }
    }
    if !found {
        return Err(Violation::Uppercase);
    }
    Ok(())
}

/// Checks that `password` holds a lower-case letter.
pub fn contains_lowercase(password: &str) -> (checked: Result<(), Violation>)
    ensures
        checked == rule(has_lowercase(password@), Violation::Lowercase),
{
    let mut found = false;
    for c in iter: password.chars()
        invariant
            iter.seq() == password@,
            found == exists|i: int|
                0 <= i < iter.index() && is_lowercase(#[trigger] password@[i]),
    {
        if 'a' <= c && c <= 'z' {
            found = true;
        }
    }
    if !found {
        return Err(Violation::Lowercase);
    }
    Ok(())
}

/// Checks that `password` holds a digit.
pub fn contains_digit(password: &str) -> (checked: Result<(), Violation>)
    ensures
        checked == rule(has_digit(password@), Violation::Digit),
{
    let mut found = false;
    for c in iter: password.chars()
        invariant
            iter.seq() == password@,
            found == exists|i: int| 0 <= i < iter.index() && is_digit(#[trigger] password@[i]),
    {
        if '0' <= c && c <= '9' {
            found = true;
        }
    }
    if !found {
        return Err(Violation::Digit);
    }
    Ok(())
}

/// Checks that `password` holds a special character.
pub fn contains_special(password: &str) -> (checked: Result<(), Violation>)
    ensures
        checked == rule(has_special(password@), Violation::Special),
{
    let mut found = false;
    for c in iter: password.chars()
        invariant
            iter.seq() == password@,
            found == exists|i: int| 0 <= i < iter.index() && is_special(#[trigger] password@[i]),
    {
        if special(c) {
            found = true;
        }
    }
    if !found {
        return Err(Violation::Special);
    }
    Ok(())
}

/// Checks that `password` is made of letters, digits and special characters
/// only.
pub fn only_allowed_characters(password: &str) -> (checked: Result<(), Violation>)
    ensures
        checked == rule(within_alphabet(password@), Violation::Alphabet),
{
    let mut clean = true;
    for c in iter: password.chars()
        invariant
            iter.seq() == password@,
            clean == forall|i: int|
                0 <= i < iter.index() ==> {
                    let c = #[trigger] password@[i];
                    is_uppercase(c) || is_lowercase(c) || is_digit(c) || is_special(c)
                },
    {
        let allowed = ('A' <= c && c <= 'Z') || ('a' <= c && c <= 'z') || ('0' <= c && c <= '9')
            || special(c);
        if !allowed {
            clean = false;
        }
    }
    if !clean {
        return Err(Violation::Alphabet);
    }
    Ok(())
}

/// Checks that `password` has between 8 and 32 characters.
pub fn allowed_length(password: &str) -> (checked: Result<(), Violation>)
    ensures
        checked == rule(length_allowed(password@), Violation::Length),
{
    let mut count: usize = 0;
    for c in iter: password.chars()
        invariant
            iter.seq() == password@,
            count == (if iter.index() <= 32 {
                iter.index()
            } else {
                33
            }),
    {
        if count <= 32 {
            count += 1;
        }
    }
    if count < 8 || count > 32 {
        return Err(Violation::Length);
    }
    Ok(())
}

/// Checks that `email` is an email address.
pub fn email_address(email: &str) -> (checked: Result<(), Violation>)
    ensures
        checked == rule(well_formed_email(email@), Violation::Email),
{
    if !validator_accepts_email(email) {
        return Err(Violation::Email);
    }
    Ok(())
}

fn note(found: &mut Vec<Violation>, checked: Result<(), Violation>)
    ensures
        final(found)@ == noted(old(found)@, checked),
{
    if let Err(violation) = checked {
        found.push(violation);
    }
}

impl Credentials {
    /// The rules that these credentials break, in the order in which they
    /// are checked. Credentials are fit for registration where there are
    /// none.
    pub fn validate(&self) -> (found: Vec<Violation>)
        ensures
            found@ == violations(self@),
    {
        let password = self.password.as_str();
        let mut found: Vec<Violation> = Vec::new();
        note(&mut found, email_address(self.email.as_str()));
        note(&mut found, allowed_length(password));
        note(&mut found, only_allowed_characters(password));
        note(&mut found, contains_uppercase(password));
        note(&mut found, contains_lowercase(password));
        note(&mut found, contains_digit(password));
        note(&mut found, contains_special(password));
        found
    }
}

} // verus!
