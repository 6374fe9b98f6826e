use diesel_guard::ast::StatementNode;
use diesel_guard::checks::{Check, AddPrimaryKeyCheck};
use diesel_guard::parser::SqlParser;

fn parse_sql(sql: &str) -> StatementNode {
    SqlParser::new()
        .parse(sql)
        .expect("Failed to parse SQL")
        .into_iter()
        .next()
        .expect("No statements found")
}

fn assert_detects_violation(check: &impl Check, sql: &str, operation: &str) {
    let stmt = parse_sql(sql);
    let violations = check.check(&stmt);
    assert_eq!(violations.len(), 1, "Expected exactly 1 violation");
    assert_eq!(
        violations[0].operation, operation,
        "Expected operation '{}' but got '{}'",
        operation, violations[0].operation
    );
}

fn assert_allows(check: &impl Check, sql: &str) {
    let stmt = parse_sql(sql);
    let violations = check.check(&stmt);
    assert_eq!(
        violations.len(),
        0,
        "Expected no violations but found {}",
        violations.len()
    );
}

#[test]
fn test_detects_add_primary_key_single_column() {
    assert_detects_violation(
        &AddPrimaryKeyCheck,
        "ALTER TABLE users ADD PRIMARY KEY (id);",
        "ADD PRIMARY KEY"
    );
}

#[test]
fn test_detects_add_primary_key_composite() {
    assert_detects_violation(
        &AddPrimaryKeyCheck,
        "ALTER TABLE user_roles ADD PRIMARY KEY (user_id, role_id);",
        "ADD PRIMARY KEY"
    );
}

#[test]
fn test_detects_add_primary_key_with_constraint_name() {
    assert_detects_violation(
        &AddPrimaryKeyCheck,
        "ALTER TABLE users ADD CONSTRAINT users_pkey PRIMARY KEY (id);",
        "ADD PRIMARY KEY"
    );
}

#[test]
fn test_allows_create_table_with_primary_key() {
    // Creating a table with PK is fine - only ALTER TABLE is problematic
    assert_allows(
        &AddPrimaryKeyCheck,
        "CREATE TABLE users (id SERIAL PRIMARY KEY, email TEXT);"
    );
}

#[test]
fn test_allows_add_unique_constraint() {
    // UNIQUE constraints are handled by AddUniqueConstraintCheck
    assert_allows(
        &AddPrimaryKeyCheck,
        "ALTER TABLE users ADD CONSTRAINT users_email_key UNIQUE (email);"
    );
}

#[test]
fn test_allows_add_foreign_key() {
    assert_allows(
        &AddPrimaryKeyCheck,
        "ALTER TABLE posts ADD CONSTRAINT posts_user_id_fkey FOREIGN KEY (user_id) REFERENCES users(id);"
    );
}

#[test]
fn test_allows_add_check_constraint() {
    assert_allows(
        &AddPrimaryKeyCheck,
        "ALTER TABLE users ADD CONSTRAINT users_age_check CHECK (age >= 0);"
    );
}

#[test]
fn add_primary_key_test_ignores_other_alter_operations() {
    assert_allows(
        &AddPrimaryKeyCheck,
        "ALTER TABLE users ADD COLUMN email TEXT;"
    );
}

#[test]
fn add_primary_key_test_ignores_other_statements() {
    assert_allows(&AddPrimaryKeyCheck, "SELECT * FROM users;");
}
