use diesel_guard::ast::StatementNode;
use diesel_guard::checks::{Check, AlterColumnTypeCheck};
use diesel_guard::parser::SqlParser;

fn parse_sql(sql: &str) -> StatementNode {
    SqlParser::new()
        .parse(sql)
        .expect("Failed to parse SQL")
        .into_iter()
        .next()
        .expect("No statements found")
}

fn assert_detects_violation(check: &impl Check, sql: &str, operation: &str) {
    let stmt = parse_sql(sql);
    let violations = check.check(&stmt);
    assert_eq!(violations.len(), 1, "Expected exactly 1 violation");
    assert_eq!(
        violations[0].operation, operation,
        "Expected operation '{}' but got '{}'",
        operation, violations[0].operation
    );
}

fn assert_allows(check: &impl Check, sql: &str) {
    let stmt = parse_sql(sql);
    let violations = check.check(&stmt);
    assert_eq!(
        violations.len(),
        0,
        "Expected no violations but found {}",
        violations.len()
    );
}

#[test]
fn test_detects_alter_column_type() {
    assert_detects_violation(
        &AlterColumnTypeCheck,
        "ALTER TABLE users ALTER COLUMN age TYPE BIGINT;",
        "ALTER COLUMN TYPE"
    );
}

#[test]
fn test_detects_alter_column_type_with_using() {
    let check = AlterColumnTypeCheck;
    let stmt = parse_sql("ALTER TABLE users ALTER COLUMN data TYPE JSONB USING data::JSONB;");

    let violations = check.check(&stmt);
    assert_eq!(violations.len(), 1);
    assert_eq!(violations[0].operation, "ALTER COLUMN TYPE");
    assert!(violations[0].problem.contains("USING clause"));
}

#[test]
fn test_detects_set_data_type_variant() {
    assert_detects_violation(
        &AlterColumnTypeCheck,
        "ALTER TABLE users ALTER COLUMN email SET DATA TYPE VARCHAR(500);",
        "ALTER COLUMN TYPE"
    );
}

#[test]
fn alter_column_type_test_ignores_other_alter_column_operations() {
    assert_allows(
        &AlterColumnTypeCheck,
        "ALTER TABLE users ALTER COLUMN email SET NOT NULL;"
    );
}

#[test]
fn alter_column_type_test_ignores_other_operations() {
    assert_allows(
        &AlterColumnTypeCheck,
        "ALTER TABLE users ADD COLUMN email VARCHAR(255);"
    );
}

#[test]
fn alter_column_type_test_ignores_other_statements() {
    assert_allows(
        &AlterColumnTypeCheck,
        "CREATE TABLE users (id SERIAL PRIMARY KEY);"
    );
}
