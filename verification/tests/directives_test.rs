use diesel_guard::error::DieselGuardError;
use diesel_guard::parser::{CommentParser, IgnoreRange};

fn ranges(sql: &str) -> Vec<IgnoreRange> {
    CommentParser::parse_ignore_ranges(sql).unwrap()
}

fn error(sql: &str) -> DieselGuardError {
    CommentParser::parse_ignore_ranges(sql).unwrap_err()
}

#[test]
fn ranges_come_in_the_order_of_their_lines() {
    let sql = "-- safety-assured:start\na\n-- safety-assured:end\nb\n--safety-assured:START\n--  safety-assured:End";
    assert_eq!(
        ranges(sql),
        vec![
            IgnoreRange { start_line: 1, end_line: 3 },
            IgnoreRange { start_line: 5, end_line: 6 },
        ]
    );
}

#[test]
fn text_without_directives_has_no_ranges() {
    assert_eq!(ranges(""), vec![]);
    assert_eq!(ranges("ALTER TABLE users DROP COLUMN email;\n-- a comment\n"), vec![]);
}

#[test]
fn lines_with_carriage_returns_are_directives_too() {
    assert_eq!(
        ranges("-- safety-assured:start\r\nDROP TABLE t;\r\n-- safety-assured:end\r\n"),
        vec![IgnoreRange { start_line: 1, end_line: 3 }]
    );
}

#[test]
fn directive_needs_the_whole_line() {
    assert!(!CommentParser::is_start_directive("-- safety-assured:start;"));
    assert!(!CommentParser::is_start_directive("- safety-assured:start"));
    assert!(!CommentParser::is_start_directive("-- safety-assured: start"));
    assert!(!CommentParser::is_start_directive("SELECT 1; -- safety-assured:start"));
    assert!(!CommentParser::is_end_directive("-- safety-assured:end --"));
    assert!(!CommentParser::is_end_directive("-- safety-assured:start"));
    assert!(CommentParser::is_end_directive("--\tsafety-assured:end"));
    assert!(CommentParser::is_end_directive("-- Safety-Assured:END"));
}

#[test]
fn directive_letters_match_by_unicode_case_folding() {
    // U+017F, the long s, folds to the letter s.
    assert!(CommentParser::is_start_directive("-- \u{17f}afety-assured:start"));
}

#[test]
fn nested_start_is_rejected_whatever_stands_between() {
    for between in [
        "",
        "ALTER TABLE users DROP COLUMN email;\n",
        "-- a comment\n\n\nSELECT 1;\n",
        "-- safety-assured:start extra\n",
    ] {
        let sql = format!(
            "SELECT 1;\n-- safety-assured:start\n{}-- safety-assured:start\n-- safety-assured:end\n",
            between
        );
        let expected_line = 3 + between.lines().count();
        match error(&sql) {
            DieselGuardError::NestedDirective { line } => assert_eq!(line, expected_line),
            other => panic!("expected a nesting error, got {:?}", other),
        }
    }
}

#[test]
fn nested_start_after_a_closed_block() {
    let sql = "-- safety-assured:start\n-- safety-assured:end\n-- safety-assured:start\nx\n-- safety-assured:start";
    match error(sql) {
        DieselGuardError::NestedDirective { line } => assert_eq!(line, 5),
        other => panic!("expected a nesting error, got {:?}", other),
    }
}

#[test]
fn lone_end_is_rejected() {
    match error("SELECT 1;\n\n-- safety-assured:end\nSELECT 2;") {
        DieselGuardError::UnmatchedEnd { line } => assert_eq!(line, 3),
        other => panic!("expected an unmatched end, got {:?}", other),
    }
}

#[test]
fn second_end_is_rejected() {
    match error("-- safety-assured:start\n-- safety-assured:end\n-- safety-assured:end") {
        DieselGuardError::UnmatchedEnd { line } => assert_eq!(line, 3),
        other => panic!("expected an unmatched end, got {:?}", other),
    }
}

#[test]
fn lone_start_is_rejected() {
    match error("SELECT 1;\n-- safety-assured:start\nSELECT 2;\nSELECT 3;") {
        DieselGuardError::UnclosedBlock { line } => assert_eq!(line, 2),
        other => panic!("expected an unclosed block, got {:?}", other),
    }
}

#[test]
fn first_error_wins() {
    // The unmatched end on line 1 comes before the nesting on line 3.
    match error("-- safety-assured:end\n-- safety-assured:start\n-- safety-assured:start") {
        DieselGuardError::UnmatchedEnd { line } => assert_eq!(line, 1),
        other => panic!("expected an unmatched end, got {:?}", other),
    }
}

#[test]
fn error_messages() {
    assert_eq!(
        DieselGuardError::NestedDirective { line: 4 }.to_string(),
        "Failed to parse SQL: Nested 'safety-assured:start' at line 4. Nested blocks are not supported. Close the previous block before starting a new one."
    );
    assert_eq!(
        DieselGuardError::UnmatchedEnd { line: 12 }.to_string(),
        "Failed to parse SQL: Unmatched 'safety-assured:end' at line 12. Each 'safety-assured:end' must have a matching 'safety-assured:start' before it."
    );
    assert_eq!(
        DieselGuardError::UnclosedBlock { line: 2 }.to_string(),
        "Failed to parse SQL: Unclosed 'safety-assured:start' at line 2. Did you forget to add 'safety-assured:end'?"
    );
    assert_eq!(
        DieselGuardError::parse_error("boom".to_string()).to_string(),
        "Failed to parse SQL: boom"
    );
}

#[test]
fn ignore_range_in_words() {
    assert_eq!(IgnoreRange { start_line: 2, end_line: 14 }.to_string(), "lines 2-14");
}
