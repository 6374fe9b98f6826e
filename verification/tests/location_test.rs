use diesel_guard::ast::{StatementKind, StatementNode};
use diesel_guard::checks::{locate_statements, Registry, StatementLocation};
use diesel_guard::parser::SqlParser;
use std::collections::HashSet;

fn statement(text: &str) -> StatementNode {
    StatementNode { kind: StatementKind::Other, text: text.to_string() }
}

fn found(line: usize) -> StatementLocation {
    StatementLocation { line, matched: true }
}

fn missed() -> StatementLocation {
    StatementLocation { line: 1, matched: false }
}

#[test]
fn statements_with_one_keyword_get_their_lines_in_order() {
    let sql = "\nALTER TABLE a DROP COLUMN x;\n-- ALTER in a comment\nalter table b drop column y;\n\n\n   Alter Table c Drop Column z;\n";
    let statements = SqlParser::new().parse(sql).unwrap();
    assert_eq!(statements.len(), 3);
    assert_eq!(locate_statements(&statements, sql), vec![found(2), found(4), found(7)]);
}

#[test]
fn more_statements_than_lines_fall_back_to_line_one() {
    let sql = "SELECT 1;\nALTER TABLE a DROP COLUMN x;";
    let statements = vec![
        statement("ALTER TABLE a DROP COLUMN x"),
        statement("ALTER TABLE b DROP COLUMN y"),
    ];
    assert_eq!(locate_statements(&statements, sql), vec![found(2), missed()]);
}

#[test]
fn keyword_that_is_not_in_the_source_falls_back_to_line_one() {
    let sql = "\n\nALTER TABLE a DROP COLUMN x;";
    assert_eq!(locate_statements(&[statement("TRUNCATE a")], sql), vec![missed()]);
    assert_eq!(locate_statements(&[statement("TRUNCATE a")], ""), vec![missed()]);
}

#[test]
fn fallback_takes_line_one_away() {
    // The first statement is not found and takes line 1; the second would
    // have matched line 1 and finds nothing left.
    let sql = "SELECT 1;";
    let statements = vec![statement("DROP TABLE t"), statement("SELECT 1")];
    assert_eq!(locate_statements(&statements, sql), vec![missed(), missed()]);
}

#[test]
fn keyword_is_the_first_word_in_upper_case() {
    let sql = "create index i on t(a);\ncreate table t (a int);";
    let statements = vec![statement("  create table t (a INT)"), statement("Create Index i")];
    // Both lines begin with CREATE: the statements take them in order.
    assert_eq!(locate_statements(&statements, sql), vec![found(1), found(2)]);
}

#[test]
fn line_only_has_to_begin_with_the_keyword() {
    let sql = "ALTERNATIVE\nALTER TABLE t DROP COLUMN c;";
    assert_eq!(locate_statements(&[statement("ALTER TABLE t DROP COLUMN c")], sql), vec![found(1)]);
}

#[test]
fn statement_without_text_takes_the_first_free_line() {
    let sql = "-- comment\n\nSELECT 1;";
    let statements = vec![statement(""), statement("   "), statement("")];
    assert_eq!(locate_statements(&statements, sql), vec![found(2), found(3), missed()]);
}

#[test]
fn two_statements_on_one_line_are_placed_apart() {
    let sql = "DROP TABLE a; DROP TABLE b;\nDROP TABLE c;";
    let statements = SqlParser::new().parse(sql).unwrap();
    assert_eq!(statements.len(), 3);
    assert_eq!(locate_statements(&statements, sql), vec![found(1), found(2), missed()]);
}

#[test]
fn no_statements_no_locations() {
    assert_eq!(locate_statements(&[], "SELECT 1;"), vec![]);
}

#[test]
fn find_statement_line_skips_the_lines_that_are_given_away() {
    let sql = "ALTER TABLE a DROP COLUMN x;\n-- ALTER\nALTER TABLE b DROP COLUMN y;\nALTER TABLE c DROP COLUMN z;";
    let stmt = statement("ALTER TABLE b DROP COLUMN y");
    let mut matched: HashSet<usize> = HashSet::new();
    // The lines with the keyword are 1, 3 and 4: each call gives the next.
    for expected in [1, 3, 4] {
        let line = Registry::find_statement_line(&stmt, sql, &matched);
        assert_eq!(line, expected);
        matched.insert(line);
    }
    // None is left: line 1 stands in.
    assert_eq!(Registry::find_statement_line(&stmt, sql, &matched), 1);
    // A line that is given away without being a match changes nothing.
    let only_two: HashSet<usize> = [2].into_iter().collect();
    assert_eq!(Registry::find_statement_line(&stmt, sql, &only_two), 1);
    let first_and_third: HashSet<usize> = [1, 3].into_iter().collect();
    assert_eq!(Registry::find_statement_line(&stmt, sql, &first_and_third), 4);
}
