use user_api::validate::{validate_user, ValidationError};

#[test]
fn empty_name_rejected() {
    assert_eq!(validate_user("", "a@b.com", 25), Err(ValidationError::EmptyName));
}

#[test]
fn whitespace_name_rejected() {
    assert_eq!(validate_user("   \t\n", "a@b.com", 25), Err(ValidationError::EmptyName));
}

#[test]
fn empty_email_rejected() {
    assert_eq!(validate_user("John", "", 25), Err(ValidationError::InvalidEmail));
}

#[test]
fn whitespace_email_rejected() {
    assert_eq!(validate_user("John", "   ", 25), Err(ValidationError::InvalidEmail));
}

#[test]
fn email_without_at_rejected() {
    assert_eq!(validate_user("John", "john.example.com", 25), Err(ValidationError::InvalidEmail));
}

#[test]
fn zero_age_rejected() {
    assert_eq!(validate_user("John", "john@example.com", 0), Err(ValidationError::ZeroAge));
}

#[test]
fn valid_record_accepted() {
    assert_eq!(validate_user("John", "john@example.com", 25), Ok(()));
}

#[test]
fn name_rule_checked_first() {
    assert_eq!(validate_user("", "", 0), Err(ValidationError::EmptyName));
}

#[test]
fn email_rule_checked_before_age() {
    assert_eq!(validate_user("John", "", 0), Err(ValidationError::InvalidEmail));
}

#[test]
fn largest_age_accepted() {
    assert_eq!(validate_user("John", "john@example.com", 255), Ok(()));
}
