use diesel_guard::ast::StatementNode;
use diesel_guard::checks::{Check, RenameTableCheck};
use diesel_guard::parser::SqlParser;

fn parse_sql(sql: &str) -> StatementNode {
    SqlParser::new()
        .parse(sql)
        .expect("Failed to parse SQL")
        .into_iter()
        .next()
        .expect("No statements found")
}

fn assert_detects_violation(check: &impl Check, sql: &str, operation: &str) {
    let stmt = parse_sql(sql);
    let violations = check.check(&stmt);
    assert_eq!(violations.len(), 1, "Expected exactly 1 violation");
    assert_eq!(
        violations[0].operation, operation,
        "Expected operation '{}' but got '{}'",
        operation, violations[0].operation
    );
}

fn assert_allows(check: &impl Check, sql: &str) {
    let stmt = parse_sql(sql);
    let violations = check.check(&stmt);
    assert_eq!(
        violations.len(),
        0,
        "Expected no violations but found {}",
        violations.len()
    );
}

#[test]
fn test_detects_rename_table() {
    assert_detects_violation(
        &RenameTableCheck,
        "ALTER TABLE users RENAME TO customers;",
        "RENAME TABLE"
    );
}

#[test]
fn test_detects_rename_table_with_schema() {
    assert_detects_violation(
        &RenameTableCheck,
        "ALTER TABLE public.users RENAME TO public.customers;",
        "RENAME TABLE"
    );
}

#[test]
fn rename_table_test_ignores_other_alter_operations() {
    assert_allows(
        &RenameTableCheck,
        "ALTER TABLE users ADD COLUMN email VARCHAR(255);"
    );
}

#[test]
fn test_ignores_rename_column() {
    assert_allows(
        &RenameTableCheck,
        "ALTER TABLE users RENAME COLUMN email TO email_address;"
    );
}

#[test]
fn rename_table_test_ignores_other_statements() {
    assert_allows(
        &RenameTableCheck,
        "CREATE TABLE users (id SERIAL PRIMARY KEY);"
    );
}
