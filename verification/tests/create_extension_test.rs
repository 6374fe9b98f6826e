use diesel_guard::ast::StatementNode;
use diesel_guard::checks::{Check, CreateExtensionCheck};
use diesel_guard::parser::SqlParser;

fn parse_sql(sql: &str) -> StatementNode {
    SqlParser::new()
        .parse(sql)
        .expect("Failed to parse SQL")
        .into_iter()
        .next()
        .expect("No statements found")
}

fn assert_detects_violation(check: &impl Check, sql: &str, operation: &str) {
    let stmt = parse_sql(sql);
    let violations = check.check(&stmt);
    assert_eq!(violations.len(), 1, "Expected exactly 1 violation");
    assert_eq!(
        violations[0].operation, operation,
        "Expected operation '{}' but got '{}'",
        operation, violations[0].operation
    );
}

fn assert_allows(check: &impl Check, sql: &str) {
    let stmt = parse_sql(sql);
    let violations = check.check(&stmt);
    assert_eq!(
        violations.len(),
        0,
        "Expected no violations but found {}",
        violations.len()
    );
}

#[test]
fn test_detects_create_extension() {
    assert_detects_violation(
        &CreateExtensionCheck,
        "CREATE EXTENSION pg_trgm;",
        "CREATE EXTENSION"
    );
}

#[test]
fn test_detects_create_extension_if_not_exists() {
    assert_detects_violation(
        &CreateExtensionCheck,
        "CREATE EXTENSION IF NOT EXISTS uuid_ossp;",
        "CREATE EXTENSION"
    );
}

#[test]
fn test_ignores_other_create_statements() {
    assert_allows(
        &CreateExtensionCheck,
        "CREATE TABLE users (id SERIAL PRIMARY KEY);"
    );
}

#[test]
fn test_ignores_create_index() {
    assert_allows(
        &CreateExtensionCheck,
        "CREATE INDEX idx_users_email ON users(email);"
    );
}
