use diesel_guard::ast::StatementNode;
use diesel_guard::checks::{Check, AddJsonColumnCheck};
use diesel_guard::parser::SqlParser;

fn parse_sql(sql: &str) -> StatementNode {
    SqlParser::new()
        .parse(sql)
        .expect("Failed to parse SQL")
        .into_iter()
        .next()
        .expect("No statements found")
}

fn assert_detects_violation(check: &impl Check, sql: &str, operation: &str) {
    let stmt = parse_sql(sql);
    let violations = check.check(&stmt);
    assert_eq!(violations.len(), 1, "Expected exactly 1 violation");
    assert_eq!(
        violations[0].operation, operation,
        "Expected operation '{}' but got '{}'",
        operation, violations[0].operation
    );
}

fn assert_allows(check: &impl Check, sql: &str) {
    let stmt = parse_sql(sql);
    let violations = check.check(&stmt);
    assert_eq!(
        violations.len(),
        0,
        "Expected no violations but found {}",
        violations.len()
    );
}

#[test]
fn test_detects_add_json_column() {
    assert_detects_violation(
        &AddJsonColumnCheck,
        "ALTER TABLE users ADD COLUMN properties JSON;",
        "ADD COLUMN with JSON type"
    );
}

#[test]
fn test_detects_add_json_column_with_constraint() {
    assert_detects_violation(
        &AddJsonColumnCheck,
        "ALTER TABLE users ADD COLUMN metadata JSON NOT NULL;",
        "ADD COLUMN with JSON type"
    );
}

#[test]
fn test_allows_add_jsonb_column() {
    // JSONB is the safe alternative
    assert_allows(
        &AddJsonColumnCheck,
        "ALTER TABLE users ADD COLUMN properties JSONB;"
    );
}

#[test]
fn test_allows_add_jsonb_column_with_constraint() {
    assert_allows(
        &AddJsonColumnCheck,
        "ALTER TABLE users ADD COLUMN metadata JSONB NOT NULL;"
    );
}

#[test]
fn test_allows_other_column_types() {
    assert_allows(
        &AddJsonColumnCheck,
        "ALTER TABLE users ADD COLUMN name TEXT;"
    );
}

#[test]
fn test_allows_create_table_with_json() {
    // Only ALTER TABLE ADD COLUMN is problematic - CREATE TABLE is fine
    // because there are no existing queries to break
    assert_allows(
        &AddJsonColumnCheck,
        "CREATE TABLE users (id SERIAL PRIMARY KEY, data JSON);"
    );
}

#[test]
fn add_json_column_test_ignores_other_alter_operations() {
    assert_allows(
        &AddJsonColumnCheck,
        "ALTER TABLE users DROP COLUMN old_field;"
    );
}

#[test]
fn add_json_column_test_ignores_other_statements() {
    assert_allows(&AddJsonColumnCheck, "SELECT * FROM users;");
}
