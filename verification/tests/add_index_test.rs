use diesel_guard::ast::StatementNode;
use diesel_guard::checks::{Check, AddIndexCheck};
use diesel_guard::parser::SqlParser;

fn parse_sql(sql: &str) -> StatementNode {
    SqlParser::new()
        .parse(sql)
        .expect("Failed to parse SQL")
        .into_iter()
        .next()
        .expect("No statements found")
}

fn assert_detects_violation(check: &impl Check, sql: &str, operation: &str) {
    let stmt = parse_sql(sql);
    let violations = check.check(&stmt);
    assert_eq!(violations.len(), 1, "Expected exactly 1 violation");
    assert_eq!(
        violations[0].operation, operation,
        "Expected operation '{}' but got '{}'",
        operation, violations[0].operation
    );
}

fn assert_allows(check: &impl Check, sql: &str) {
    let stmt = parse_sql(sql);
    let violations = check.check(&stmt);
    assert_eq!(
        violations.len(),
        0,
        "Expected no violations but found {}",
        violations.len()
    );
}

#[test]
fn test_detects_create_index_without_concurrently() {
    assert_detects_violation(
        &AddIndexCheck,
        "CREATE INDEX idx_users_email ON users(email);",
        "ADD INDEX without CONCURRENTLY"
    );
}

#[test]
fn test_detects_create_unique_index_without_concurrently() {
    let check = AddIndexCheck;
    let stmt = parse_sql("CREATE UNIQUE INDEX idx_users_email ON users(email);");

    let violations = check.check(&stmt);
    assert_eq!(violations.len(), 1);
    assert_eq!(violations[0].operation, "ADD INDEX without CONCURRENTLY");
    assert!(violations[0].problem.contains("UNIQUE"));
}

#[test]
fn test_allows_create_index_with_concurrently() {
    assert_allows(
        &AddIndexCheck,
        "CREATE INDEX CONCURRENTLY idx_users_email ON users(email);"
    );
}

#[test]
fn test_allows_create_unique_index_with_concurrently() {
    assert_allows(
        &AddIndexCheck,
        "CREATE UNIQUE INDEX CONCURRENTLY idx_users_email ON users(email);"
    );
}

#[test]
fn add_index_test_ignores_other_statements() {
    assert_allows(&AddIndexCheck, "CREATE TABLE users (id SERIAL PRIMARY KEY);");
}
