use diesel_guard::checks::registry::ignored_line_set;
use diesel_guard::checks::Registry;
use diesel_guard::parser::{IgnoreRange, SqlParser};
use diesel_guard::{Config, SafetyChecker};
use std::collections::HashSet;

fn operations(sql: &str, ranges: &[IgnoreRange]) -> Vec<String> {
    let statements = SqlParser::new().parse(sql).unwrap();
    Registry::new()
        .check_statements_with_context(&statements, sql, ranges)
        .into_iter()
        .map(|v| v.operation)
        .collect()
}

const DROP_ON_LINE_TWO: &str = "\nALTER TABLE users DROP COLUMN email;\n";

#[test]
fn statement_strictly_inside_the_range_is_not_checked() {
    let range = IgnoreRange { start_line: 1, end_line: 3 };
    assert_eq!(operations(DROP_ON_LINE_TWO, &[range]), Vec::<String>::new());
}

#[test]
fn statement_outside_the_range_is_checked() {
    for range in [
        IgnoreRange { start_line: 3, end_line: 5 },
        IgnoreRange { start_line: 4, end_line: 9 },
    ] {
        assert_eq!(operations(DROP_ON_LINE_TWO, &[range]), vec!["DROP COLUMN"]);
    }
    assert_eq!(operations(DROP_ON_LINE_TWO, &[]), vec!["DROP COLUMN"]);
}

#[test]
fn statement_on_the_start_line_is_checked() {
    let range = IgnoreRange { start_line: 2, end_line: 4 };
    assert_eq!(operations(DROP_ON_LINE_TWO, &[range]), vec!["DROP COLUMN"]);
}

#[test]
fn statement_on_the_end_line_is_checked() {
    let range = IgnoreRange { start_line: 1, end_line: 2 };
    assert_eq!(operations(DROP_ON_LINE_TWO, &[range]), vec!["DROP COLUMN"]);
}

#[test]
fn empty_block_ignores_nothing() {
    let sql = "-- safety-assured:start\n-- safety-assured:end\nALTER TABLE users DROP COLUMN email;";
    let checker = SafetyChecker::with_config(Config::default());
    let violations = checker.check_sql(sql).unwrap();
    assert_eq!(violations.len(), 1);
    assert_eq!(violations[0].operation, "DROP COLUMN");
}

#[test]
fn any_of_several_ranges_suppresses() {
    let ranges = [
        IgnoreRange { start_line: 5, end_line: 7 },
        IgnoreRange { start_line: 1, end_line: 3 },
    ];
    assert_eq!(operations(DROP_ON_LINE_TWO, &ranges), Vec::<String>::new());
}

#[test]
fn only_the_statements_in_the_block_are_suppressed() {
    let sql = "TRUNCATE TABLE a;\n-- safety-assured:start\nALTER TABLE users DROP COLUMN email;\n-- safety-assured:end\nCREATE EXTENSION pg_trgm;";
    let checker = SafetyChecker::with_config(Config::default());
    let found: Vec<String> = checker
        .check_sql(sql)
        .unwrap()
        .into_iter()
        .map(|v| v.operation)
        .collect();
    assert_eq!(found, vec!["TRUNCATE TABLE", "CREATE EXTENSION"]);
}

#[test]
fn statement_that_is_not_found_counts_as_line_one() {
    // The statement starts on line 2 with a word that its rendering does not
    // begin with on that line: the source spells `ALTER` on its own line 3.
    // Line 1 is outside the block, so the statement is checked.
    let sql = "-- safety-assured:start\n\n  \n-- safety-assured:end";
    let statements = SqlParser::new()
        .parse("ALTER TABLE users DROP COLUMN email;")
        .unwrap();
    let ranges = [IgnoreRange { start_line: 1, end_line: 4 }];
    let found = Registry::new().check_statements_with_context(&statements, sql, &ranges);
    assert_eq!(found.len(), 1);
}

#[test]
fn reports_follow_the_statements_then_the_rules() {
    let sql = "CREATE INDEX idx ON users(a, b, c, d);\nALTER TABLE users DROP COLUMN a, ADD COLUMN b INT DEFAULT 1;";
    assert_eq!(
        operations(sql, &[]),
        vec![
            "ADD INDEX without CONCURRENTLY",
            "Wide index",
            "ADD COLUMN with DEFAULT",
            "DROP COLUMN",
        ]
    );
}

#[test]
fn check_statements_ignores_no_line() {
    let sql = "ALTER TABLE users DROP COLUMN a;\nTRUNCATE TABLE b, c;";
    let statements = SqlParser::new().parse(sql).unwrap();
    let found: Vec<String> = Registry::new()
        .check_statements(&statements)
        .into_iter()
        .map(|v| v.operation)
        .collect();
    assert_eq!(found, vec!["DROP COLUMN", "TRUNCATE TABLE", "TRUNCATE TABLE"]);
}

#[test]
fn ignored_lines_are_the_lines_strictly_inside_the_ranges() {
    let ranges = [
        IgnoreRange { start_line: 2, end_line: 5 },
        IgnoreRange { start_line: 7, end_line: 8 },
        IgnoreRange { start_line: 9, end_line: 11 },
        IgnoreRange { start_line: 20, end_line: 12 },
        IgnoreRange { start_line: 4, end_line: 6 },
    ];
    let expected: HashSet<usize> = [3, 4, 5, 10].into_iter().collect();
    assert_eq!(ignored_line_set(&ranges), expected);
    assert_eq!(ignored_line_set(&[]), HashSet::new());
}
