use diesel_guard::ast::StatementNode;
use diesel_guard::checks::{Check, AddColumnCheck};
use diesel_guard::parser::SqlParser;

fn parse_sql(sql: &str) -> StatementNode {
    SqlParser::new()
        .parse(sql)
        .expect("Failed to parse SQL")
        .into_iter()
        .next()
        .expect("No statements found")
}

fn assert_detects_violation(check: &impl Check, sql: &str, operation: &str) {
    let stmt = parse_sql(sql);
    let violations = check.check(&stmt);
    assert_eq!(violations.len(), 1, "Expected exactly 1 violation");
    assert_eq!(
        violations[0].operation, operation,
        "Expected operation '{}' but got '{}'",
        operation, violations[0].operation
    );
}

fn assert_allows(check: &impl Check, sql: &str) {
    let stmt = parse_sql(sql);
    let violations = check.check(&stmt);
    assert_eq!(
        violations.len(),
        0,
        "Expected no violations but found {}",
        violations.len()
    );
}

#[test]
fn test_detects_add_column_with_default() {
    assert_detects_violation(
        &AddColumnCheck,
        "ALTER TABLE users ADD COLUMN admin BOOLEAN DEFAULT FALSE;",
        "ADD COLUMN with DEFAULT"
    );
}

#[test]
fn test_allows_add_column_without_default() {
    assert_allows(
        &AddColumnCheck,
        "ALTER TABLE users ADD COLUMN admin BOOLEAN;"
    );
}

#[test]
fn add_column_test_ignores_other_statements() {
    assert_allows(
        &AddColumnCheck,
        "CREATE TABLE users (id SERIAL PRIMARY KEY);"
    );
}
