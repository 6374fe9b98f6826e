use diesel_guard::ast::StatementNode;
use diesel_guard::checks::{Check, AddUniqueConstraintCheck};
use diesel_guard::parser::SqlParser;

fn parse_sql(sql: &str) -> StatementNode {
    SqlParser::new()
        .parse(sql)
        .expect("Failed to parse SQL")
        .into_iter()
        .next()
        .expect("No statements found")
}

fn assert_detects_violation(check: &impl Check, sql: &str, operation: &str) {
    let stmt = parse_sql(sql);
    let violations = check.check(&stmt);
    assert_eq!(violations.len(), 1, "Expected exactly 1 violation");
    assert_eq!(
        violations[0].operation, operation,
        "Expected operation '{}' but got '{}'",
        operation, violations[0].operation
    );
}

fn assert_allows(check: &impl Check, sql: &str) {
    let stmt = parse_sql(sql);
    let violations = check.check(&stmt);
    assert_eq!(
        violations.len(),
        0,
        "Expected no violations but found {}",
        violations.len()
    );
}

#[test]
fn test_detects_add_unique_constraint_named() {
    assert_detects_violation(
        &AddUniqueConstraintCheck,
        "ALTER TABLE users ADD CONSTRAINT users_email_key UNIQUE (email);",
        "ADD UNIQUE constraint"
    );
}

#[test]
fn test_detects_add_unique_constraint_unnamed() {
    assert_detects_violation(
        &AddUniqueConstraintCheck,
        "ALTER TABLE users ADD UNIQUE (email);",
        "ADD UNIQUE constraint"
    );
}

#[test]
fn test_detects_add_unique_constraint_multiple_columns() {
    assert_detects_violation(
        &AddUniqueConstraintCheck,
        "ALTER TABLE users ADD CONSTRAINT users_email_username_key UNIQUE (email, username);",
        "ADD UNIQUE constraint"
    );
}

#[test]
fn add_unique_constraint_test_ignores_create_unique_index() {
    // CREATE UNIQUE INDEX is handled by AddIndexCheck
    assert_allows(
        &AddUniqueConstraintCheck,
        "CREATE UNIQUE INDEX idx_users_email ON users(email);"
    );
}

#[test]
fn test_ignores_create_unique_index_concurrently() {
    // This is the safe way, handled by AddIndexCheck
    assert_allows(
        &AddUniqueConstraintCheck,
        "CREATE UNIQUE INDEX CONCURRENTLY idx_users_email ON users(email);"
    );
}

#[test]
fn test_ignores_other_constraints() {
    assert_allows(
        &AddUniqueConstraintCheck,
        "ALTER TABLE users ADD CONSTRAINT users_age_check CHECK (age >= 0);"
    );
}

#[test]
fn test_ignores_foreign_key_constraints() {
    assert_allows(
        &AddUniqueConstraintCheck,
        "ALTER TABLE posts ADD CONSTRAINT posts_user_id_fkey FOREIGN KEY (user_id) REFERENCES users(id);"
    );
}

#[test]
fn add_unique_constraint_test_ignores_other_alter_operations() {
    assert_allows(
        &AddUniqueConstraintCheck,
        "ALTER TABLE users ADD COLUMN email TEXT;"
    );
}

#[test]
fn add_unique_constraint_test_ignores_other_statements() {
    assert_allows(
        &AddUniqueConstraintCheck,
        "CREATE TABLE users (id SERIAL PRIMARY KEY);"
    );
}
