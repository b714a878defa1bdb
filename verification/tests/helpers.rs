//! The shell-output selector, the log tail, and the token-poll decision.

use lara_code::github::{classify_token_poll, contains_substring, TokenPoll};
use lara_code::shellout::{select_output, validate_artisan_command};
use lara_code::tail::{tail_start, text_tail};

#[test]
fn success_selects_stdout_failure_selects_stderr() {
    assert_eq!(
        select_output(true, "routes".to_string(), "oops".to_string()),
        Ok("routes".to_string())
    );
    assert_eq!(
        select_output(false, "routes".to_string(), "oops".to_string()),
        Err("oops".to_string())
    );
}

#[test]
fn artisan_command_must_hold_a_word() {
    assert_eq!(validate_artisan_command(""), Err("Empty command".to_string()));
    assert_eq!(validate_artisan_command("  \t "), Err("Empty command".to_string()));
    assert_eq!(validate_artisan_command("route:list --json"), Ok(()));
}

#[test]
fn tail_start_arithmetic() {
    assert_eq!(tail_start(25_000, 10_000), 15_000);
    assert_eq!(tail_start(10_000, 10_000), 0);
    assert_eq!(tail_start(5, 10_000), 0);
    assert_eq!(tail_start(0, 0), 0);
}

#[test]
fn text_tail_keeps_the_end_by_characters() {
    assert_eq!(text_tail("abcdef", 3), "def");
    assert_eq!(text_tail("abc", 10), "abc");
    assert_eq!(text_tail("", 4), "");
    // Counting characters, a multi-byte tail stays whole.
    assert_eq!(text_tail("log: caf\u{00E9}\u{20AC}", 2), "\u{00E9}\u{20AC}");
}

#[test]
fn substring_search_agrees_with_std() {
    assert!(contains_substring("the \"error\" field", "\"error\""));
    assert!(!contains_substring("all good", "\"error\""));
    assert!(contains_substring("aaa", ""));
    assert!(contains_substring("abc", "abc"));
    assert!(!contains_substring("ab", "abc"));
    assert!(contains_substring("caf\u{00E9} bar", "\u{00E9} b"));
}

#[test]
fn token_poll_decision() {
    assert_eq!(classify_token_poll(false, "whatever"), TokenPoll::Failed);
    assert_eq!(
        classify_token_poll(true, "{\"error\":\"authorization_pending\"}"),
        TokenPoll::Pending
    );
    assert_eq!(
        classify_token_poll(true, "{\"access_token\":\"sometoken\"}"),
        TokenPoll::Ready
    );
}
