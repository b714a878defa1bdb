//! The rename validators and their error taxonomy.

use lara_code::errors::RenameError;
use lara_code::validate::{check_blank, validate_exists, validate_new_name};

#[test]
fn empty_name_is_refused() {
    assert_eq!(validate_new_name(""), Err(RenameError::EmptyName));
}

#[test]
fn whitespace_only_name_is_refused() {
    assert_eq!(validate_new_name("   \t "), Err(RenameError::EmptyName));
    assert_eq!(validate_new_name("\u{00A0}\u{2003}"), Err(RenameError::EmptyName));
}

#[test]
fn separators_are_refused() {
    assert_eq!(validate_new_name("a/b"), Err(RenameError::InvalidCharacters));
    assert_eq!(validate_new_name("a\\b"), Err(RenameError::InvalidCharacters));
    assert_eq!(validate_new_name("/"), Err(RenameError::InvalidCharacters));
}

#[test]
fn ordinary_names_pass() {
    assert_eq!(validate_new_name("notes.txt"), Ok(()));
    assert_eq!(validate_new_name("with space.txt"), Ok(()));
    assert_eq!(validate_new_name("\u{00E9}t\u{00E9}.md"), Ok(()));
}

#[test]
fn existence_check_mirrors_the_file_system_answer() {
    assert_eq!(validate_exists(true), Ok(()));
    assert_eq!(validate_exists(false), Err(RenameError::NotFound));
}

#[test]
fn blankness_counts_every_character() {
    assert!(check_blank(""));
    assert!(check_blank(" \n\r\t"));
    assert!(!check_blank(" x "));
}
