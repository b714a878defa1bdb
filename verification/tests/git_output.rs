//! Parsing of porcelain status listings and branch listings.

use lara_code::gitparse::{
    parse_branch_line, parse_branches, parse_status, parse_status_line, trim_text, FileStatus,
};

#[test]
fn trimming_strips_both_ends() {
    assert_eq!(trim_text("  Laravel Framework 11.0.0\n"), "Laravel Framework 11.0.0");
    assert_eq!(trim_text("\t \r\n"), "");
    assert_eq!(trim_text("bare"), "bare");
}

#[test]
fn status_line_kinds() {
    let staged = parse_status_line("M  src/main.rs").unwrap();
    assert_eq!(staged.path, "src/main.rs");
    assert_eq!(staged.status, FileStatus::Modified);
    assert!(staged.is_staged);

    let unstaged = parse_status_line(" M src/lib.rs").unwrap();
    assert_eq!(unstaged.path, "src/lib.rs");
    assert_eq!(unstaged.status, FileStatus::Modified);
    assert!(!unstaged.is_staged);

    let untracked = parse_status_line("?? notes.md").unwrap();
    assert_eq!(untracked.path, "notes.md");
    assert_eq!(untracked.status, FileStatus::New);
    assert!(!untracked.is_staged);

    let added = parse_status_line("A  fresh.rs").unwrap();
    assert_eq!(added.status, FileStatus::New);
    assert!(added.is_staged);

    let deleted = parse_status_line("D  gone.rs").unwrap();
    assert_eq!(deleted.status, FileStatus::Deleted);
    assert!(deleted.is_staged);

    let renamed = parse_status_line("R  new-name.rs").unwrap();
    assert_eq!(renamed.status, FileStatus::Renamed);
    assert!(renamed.is_staged);

    let unstaged_delete = parse_status_line(" D lost.rs").unwrap();
    assert_eq!(unstaged_delete.status, FileStatus::Deleted);
    assert!(!unstaged_delete.is_staged);
}

#[test]
fn unknown_columns_and_short_lines_are_skipped() {
    assert!(parse_status_line("UU conflicted.rs").is_none());
    assert!(parse_status_line("MM both.rs").is_none());
    assert!(parse_status_line("").is_none());
    assert!(parse_status_line("M ").is_none());
}

#[test]
fn whole_listing_keeps_order_and_skips_unknown_lines() {
    let output = "M  a.rs\nUU weird.rs\n?? b.txt\n D c.md\n";
    let entries = parse_status(output);
    assert_eq!(entries.len(), 3);
    assert_eq!(entries[0].path, "a.rs");
    assert_eq!(entries[0].status, FileStatus::Modified);
    assert!(entries[0].is_staged);
    assert_eq!(entries[1].path, "b.txt");
    assert_eq!(entries[1].status, FileStatus::New);
    assert!(!entries[1].is_staged);
    assert_eq!(entries[2].path, "c.md");
    assert_eq!(entries[2].status, FileStatus::Deleted);
    assert!(!entries[2].is_staged);
}

#[test]
fn listing_tolerates_carriage_returns_and_no_trailing_break() {
    let entries = parse_status("A  x.rs\r\n?? y.rs");
    assert_eq!(entries.len(), 2);
    assert_eq!(entries[0].path, "x.rs");
    assert_eq!(entries[1].path, "y.rs");
}

#[test]
fn paths_keep_their_characters() {
    let entry = parse_status_line("?? caf\u{00E9} menu.txt").unwrap();
    assert_eq!(entry.path, "caf\u{00E9} menu.txt");
}

#[test]
fn branch_lines_mark_the_current_one() {
    let current = parse_branch_line("* main");
    assert_eq!(current.name, "main");
    assert!(current.current);

    let other = parse_branch_line("  feature/login");
    assert_eq!(other.name, "feature/login");
    assert!(!other.current);
}

#[test]
fn branch_listing_in_order() {
    let branches = parse_branches("  dev\n* main\n  wip-thing\n");
    assert_eq!(branches.len(), 3);
    assert_eq!(branches[0].name, "dev");
    assert!(!branches[0].current);
    assert_eq!(branches[1].name, "main");
    assert!(branches[1].current);
    assert_eq!(branches[2].name, "wip-thing");
    assert!(!branches[2].current);
}
