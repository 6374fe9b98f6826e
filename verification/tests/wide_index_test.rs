use diesel_guard::ast::StatementNode;
use diesel_guard::checks::{Check, WideIndexCheck};
use diesel_guard::parser::SqlParser;

fn parse_sql(sql: &str) -> StatementNode {
    SqlParser::new()
        .parse(sql)
        .expect("Failed to parse SQL")
        .into_iter()
        .next()
        .expect("No statements found")
}

fn assert_detects_violation(check: &impl Check, sql: &str, operation: &str) {
    let stmt = parse_sql(sql);
    let violations = check.check(&stmt);
    assert_eq!(violations.len(), 1, "Expected exactly 1 violation");
    assert_eq!(
        violations[0].operation, operation,
        "Expected operation '{}' but got '{}'",
        operation, violations[0].operation
    );
}

fn assert_allows(check: &impl Check, sql: &str) {
    let stmt = parse_sql(sql);
    let violations = check.check(&stmt);
    assert_eq!(
        violations.len(),
        0,
        "Expected no violations but found {}",
        violations.len()
    );
}

#[test]
fn test_detects_index_with_four_columns() {
    assert_detects_violation(
        &WideIndexCheck,
        "CREATE INDEX idx_users_composite ON users(a, b, c, d);",
        "Wide index"
    );
}

#[test]
fn test_detects_index_with_five_columns() {
    assert_detects_violation(
        &WideIndexCheck,
        "CREATE INDEX idx_users_composite ON users(a, b, c, d, e);",
        "Wide index"
    );
}

#[test]
fn test_detects_unique_index_with_four_columns() {
    assert_detects_violation(
        &WideIndexCheck,
        "CREATE UNIQUE INDEX idx_users_composite ON users(tenant_id, user_id, email, status);",
        "Wide index"
    );
}

#[test]
fn test_allows_index_with_one_column() {
    assert_allows(
        &WideIndexCheck,
        "CREATE INDEX idx_users_email ON users(email);"
    );
}

#[test]
fn test_allows_index_with_two_columns() {
    assert_allows(
        &WideIndexCheck,
        "CREATE INDEX idx_users_composite ON users(tenant_id, user_id);"
    );
}

#[test]
fn test_allows_index_with_three_columns() {
    assert_allows(
        &WideIndexCheck,
        "CREATE INDEX idx_users_composite ON users(email, name, status);"
    );
}

#[test]
fn wide_index_test_ignores_other_statements() {
    assert_allows(
        &WideIndexCheck,
        "CREATE TABLE users (id SERIAL PRIMARY KEY);"
    );
}
