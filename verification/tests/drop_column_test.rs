use diesel_guard::ast::StatementNode;
use diesel_guard::checks::{Check, DropColumnCheck};
use diesel_guard::parser::SqlParser;

fn parse_sql(sql: &str) -> StatementNode {
    SqlParser::new()
        .parse(sql)
        .expect("Failed to parse SQL")
        .into_iter()
        .next()
        .expect("No statements found")
}

fn assert_detects_violation(check: &impl Check, sql: &str, operation: &str) {
    let stmt = parse_sql(sql);
    let violations = check.check(&stmt);
    assert_eq!(violations.len(), 1, "Expected exactly 1 violation");
    assert_eq!(
        violations[0].operation, operation,
        "Expected operation '{}' but got '{}'",
        operation, violations[0].operation
    );
}

fn assert_allows(check: &impl Check, sql: &str) {
    let stmt = parse_sql(sql);
    let violations = check.check(&stmt);
    assert_eq!(
        violations.len(),
        0,
        "Expected no violations but found {}",
        violations.len()
    );
}

#[test]
fn test_detects_drop_column() {
    assert_detects_violation(
        &DropColumnCheck,
        "ALTER TABLE users DROP COLUMN email;",
        "DROP COLUMN"
    );
}

#[test]
fn test_detects_drop_column_if_exists() {
    assert_detects_violation(
        &DropColumnCheck,
        "ALTER TABLE users DROP COLUMN IF EXISTS email;",
        "DROP COLUMN"
    );
}

#[test]
fn drop_column_test_ignores_other_operations() {
    assert_allows(
        &DropColumnCheck,
        "ALTER TABLE users ADD COLUMN email VARCHAR(255);"
    );
}

#[test]
fn drop_column_test_ignores_other_statements() {
    assert_allows(
        &DropColumnCheck,
        "CREATE TABLE users (id SERIAL PRIMARY KEY);"
    );
}
