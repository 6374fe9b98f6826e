use diesel_guard::ast::StatementNode;
use diesel_guard::checks::{Check, AddSerialColumnCheck};
use diesel_guard::parser::SqlParser;

fn parse_sql(sql: &str) -> StatementNode {
    SqlParser::new()
        .parse(sql)
        .expect("Failed to parse SQL")
        .into_iter()
        .next()
        .expect("No statements found")
}

fn assert_detects_violation(check: &impl Check, sql: &str, operation: &str) {
    let stmt = parse_sql(sql);
    let violations = check.check(&stmt);
    assert_eq!(violations.len(), 1, "Expected exactly 1 violation");
    assert_eq!(
        violations[0].operation, operation,
        "Expected operation '{}' but got '{}'",
        operation, violations[0].operation
    );
}

fn assert_allows(check: &impl Check, sql: &str) {
    let stmt = parse_sql(sql);
    let violations = check.check(&stmt);
    assert_eq!(
        violations.len(),
        0,
        "Expected no violations but found {}",
        violations.len()
    );
}

#[test]
fn test_detects_add_column_with_serial() {
    assert_detects_violation(
        &AddSerialColumnCheck,
        "ALTER TABLE users ADD COLUMN id SERIAL;",
        "ADD COLUMN with SERIAL"
    );
}

#[test]
fn test_detects_add_column_with_bigserial() {
    assert_detects_violation(
        &AddSerialColumnCheck,
        "ALTER TABLE users ADD COLUMN id BIGSERIAL;",
        "ADD COLUMN with SERIAL"
    );
}

#[test]
fn test_detects_add_column_with_smallserial() {
    assert_detects_violation(
        &AddSerialColumnCheck,
        "ALTER TABLE users ADD COLUMN id SMALLSERIAL;",
        "ADD COLUMN with SERIAL"
    );
}

#[test]
fn test_allows_add_column_with_integer() {
    assert_allows(
        &AddSerialColumnCheck,
        "ALTER TABLE users ADD COLUMN count INTEGER;"
    );
}

#[test]
fn test_allows_create_table_with_serial() {
    assert_allows(
        &AddSerialColumnCheck,
        "CREATE TABLE users (id SERIAL PRIMARY KEY);"
    );
}

#[test]
fn add_serial_column_test_ignores_other_statements() {
    assert_allows(
        &AddSerialColumnCheck,
        "CREATE INDEX idx_users_email ON users(email);"
    );
}
