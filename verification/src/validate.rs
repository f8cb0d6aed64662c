//! Validation of a candidate user record: three rules checked in a fixed
//! order, the first failure winning.

use vstd::prelude::*;
use crate::text::{contains_char, lemma_trimmed_keeps_char, trim, trimmed};

verus! {

/// The cause of a rejected user record, one variant per validation rule.
#[derive(Clone, Copy, Debug, PartialEq, Eq, Structural)]
pub enum ValidationError {
    EmptyName,
    InvalidEmail,
    ZeroAge,
}

/// The fixed human-readable message for each validation failure.
pub open spec fn error_message(e: ValidationError) -> Seq<char> {
    match e {
        ValidationError::EmptyName => "Name cannot be empty"@,
        ValidationError::InvalidEmail => "Please provide a valid email address"@,
        ValidationError::ZeroAge => "Age must be greater than 0"@,
    }
}

impl ValidationError {
    /// The message that the error response carries for this failure.
    pub fn message(&self) -> (r: String)
        ensures
            r@ == error_message(*self),
    {
        match self {
            ValidationError::EmptyName => String::from_str("Name cannot be empty"),
            ValidationError::InvalidEmail => String::from_str("Please provide a valid email address"),
            ValidationError::ZeroAge => String::from_str("Age must be greater than 0"),
        }
    }
}

/// Rule 1: the name must not be empty once trimmed.
pub open spec fn name_accepted(name: Seq<char>) -> bool {
    trimmed(name).len() > 0
}

/// Rule 2: the email must not be empty once trimmed, and must contain '@'.
pub open spec fn email_accepted(email: Seq<char>) -> bool {
    trimmed(email).len() > 0 && email.contains('@')
}

/// The email rule may equally be read over the trimmed email: '@' is not
/// whitespace, so the trimmed email contains it exactly when the raw
/// email does.
pub proof fn lemma_email_rule_on_trimmed(email: Seq<char>)
    ensures
        email_accepted(email) == (trimmed(email).len() > 0 && trimmed(email).contains('@')),
{
    lemma_trimmed_keeps_char(email, '@');
}

/// Rule 3: the age must be nonzero.
pub open spec fn age_accepted(age: u8) -> bool {
    age != 0
}

/// The outcome of checking the three rules in order: the first failure,
/// or `Ok` when every rule passes.
pub open spec fn validation_of(name: Seq<char>, email: Seq<char>, age: u8) -> Result<
    (),
    ValidationError,
> {
    if !name_accepted(name) {
        Err(ValidationError::EmptyName)
    } else if !email_accepted(email) {
        Err(ValidationError::InvalidEmail)
    } else if !age_accepted(age) {
        Err(ValidationError::ZeroAge)
    } else {
        Ok(())
    }
}

/// Checks a candidate record against the three rules, returning the first
/// failure in rule order, or `Ok` when the record is valid.
pub fn validate_user(name: &str, email: &str, age: u8) -> (r: Result<(), ValidationError>)
    ensures
        r == validation_of(name@, email@, age),
{
    let trimmed_name = trim(name);
    if trimmed_name.as_str().unicode_len() == 0 {
        return Err(ValidationError::EmptyName);
    }
    let trimmed_email = trim(email);
    if trimmed_email.as_str().unicode_len() == 0 || !contains_char(email, '@') {
        return Err(ValidationError::InvalidEmail);
    }
    if age == 0 {
        return Err(ValidationError::ZeroAge);
    }
    Ok(())
}

} // verus!
