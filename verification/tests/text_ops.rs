use user_api::text::{contains_char, str_eq, trim};

#[test]
fn trim_removes_surrounding_whitespace() {
    assert_eq!(trim(" John "), "John");
}

#[test]
fn trim_of_all_whitespace_is_empty() {
    assert_eq!(trim(" \t\r\n "), "");
}

#[test]
fn trim_of_empty_is_empty() {
    assert_eq!(trim(""), "");
}

#[test]
fn trim_keeps_inner_whitespace() {
    assert_eq!(trim("  Ada Lovelace  "), "Ada Lovelace");
}

#[test]
fn trim_removes_unicode_whitespace() {
    assert_eq!(trim("\u{3000}\u{a0}x\u{2028}"), "x");
}

#[test]
fn trim_leaves_trimmed_input_unchanged() {
    assert_eq!(trim("john@example.com"), "john@example.com");
}

#[test]
fn contains_char_finds_at_sign() {
    assert!(contains_char("john@example.com", '@'));
}

#[test]
fn contains_char_misses_absent_char() {
    assert!(!contains_char("john.example.com", '@'));
}

#[test]
fn contains_char_on_empty_is_false() {
    assert!(!contains_char("", '@'));
}

#[test]
fn str_eq_on_equal_strings() {
    assert!(str_eq("/users", "/users"));
}

#[test]
fn str_eq_on_different_lengths() {
    assert!(!str_eq("/users", "/user"));
}

#[test]
fn str_eq_on_same_length_different_chars() {
    assert!(!str_eq("GET", "PUT"));
}
