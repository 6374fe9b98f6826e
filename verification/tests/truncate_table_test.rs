use diesel_guard::ast::StatementNode;
use diesel_guard::checks::{Check, TruncateTableCheck};
use diesel_guard::parser::SqlParser;

fn parse_sql(sql: &str) -> StatementNode {
    SqlParser::new()
        .parse(sql)
        .expect("Failed to parse SQL")
        .into_iter()
        .next()
        .expect("No statements found")
}

fn assert_detects_violation(check: &impl Check, sql: &str, operation: &str) {
    let stmt = parse_sql(sql);
    let violations = check.check(&stmt);
    assert_eq!(violations.len(), 1, "Expected exactly 1 violation");
    assert_eq!(
        violations[0].operation, operation,
        "Expected operation '{}' but got '{}'",
        operation, violations[0].operation
    );
}

fn assert_allows(check: &impl Check, sql: &str) {
    let stmt = parse_sql(sql);
    let violations = check.check(&stmt);
    assert_eq!(
        violations.len(),
        0,
        "Expected no violations but found {}",
        violations.len()
    );
}

#[test]
fn test_detects_truncate_table() {
    assert_detects_violation(
        &TruncateTableCheck,
        "TRUNCATE TABLE users;",
        "TRUNCATE TABLE"
    );
}

#[test]
fn test_detects_truncate_multiple_tables() {
    let sql = "TRUNCATE TABLE users, orders;";
    let stmt = parse_sql(sql);
    let violations = TruncateTableCheck.check(&stmt);

    assert_eq!(violations.len(), 2, "Expected 2 violations (one per table)");
    assert_eq!(violations[0].operation, "TRUNCATE TABLE");
    assert_eq!(violations[1].operation, "TRUNCATE TABLE");
}

#[test]
fn test_detects_truncate_with_cascade() {
    assert_detects_violation(
        &TruncateTableCheck,
        "TRUNCATE TABLE users CASCADE;",
        "TRUNCATE TABLE"
    );
}

#[test]
fn test_ignores_delete_statement() {
    assert_allows(&TruncateTableCheck, "DELETE FROM users;");
}

#[test]
fn test_ignores_drop_table() {
    assert_allows(&TruncateTableCheck, "DROP TABLE users;");
}
