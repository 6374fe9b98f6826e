use diesel_guard::ast::StatementNode;
use diesel_guard::checks::{Check, DropPrimaryKeyCheck};
use diesel_guard::parser::SqlParser;

fn parse_sql(sql: &str) -> StatementNode {
    SqlParser::new()
        .parse(sql)
        .expect("Failed to parse SQL")
        .into_iter()
        .next()
        .expect("No statements found")
}

fn assert_detects_violation(check: &impl Check, sql: &str, operation: &str) {
    let stmt = parse_sql(sql);
    let violations = check.check(&stmt);
    assert_eq!(violations.len(), 1, "Expected exactly 1 violation");
    assert_eq!(
        violations[0].operation, operation,
        "Expected operation '{}' but got '{}'",
        operation, violations[0].operation
    );
}

fn assert_allows(check: &impl Check, sql: &str) {
    let stmt = parse_sql(sql);
    let violations = check.check(&stmt);
    assert_eq!(
        violations.len(),
        0,
        "Expected no violations but found {}",
        violations.len()
    );
}

#[test]
fn test_detects_drop_primary_key_pkey_suffix() {
    assert_detects_violation(
        &DropPrimaryKeyCheck,
        "ALTER TABLE users DROP CONSTRAINT users_pkey;",
        "DROP PRIMARY KEY"
    );
}

#[test]
fn test_detects_drop_primary_key_pk_suffix() {
    assert_detects_violation(
        &DropPrimaryKeyCheck,
        "ALTER TABLE users DROP CONSTRAINT users_pk;",
        "DROP PRIMARY KEY"
    );
}

#[test]
fn test_detects_drop_primary_key_pk_prefix() {
    assert_detects_violation(
        &DropPrimaryKeyCheck,
        "ALTER TABLE users DROP CONSTRAINT pk_users;",
        "DROP PRIMARY KEY"
    );
}

#[test]
fn test_detects_drop_primary_key_primary_key_in_name() {
    assert_detects_violation(
        &DropPrimaryKeyCheck,
        "ALTER TABLE users DROP CONSTRAINT users_primary_key;",
        "DROP PRIMARY KEY"
    );
}

#[test]
fn test_allows_drop_unique_constraint() {
    assert_allows(
        &DropPrimaryKeyCheck,
        "ALTER TABLE users DROP CONSTRAINT users_email_key;"
    );
}

#[test]
fn test_allows_drop_foreign_key_constraint() {
    assert_allows(
        &DropPrimaryKeyCheck,
        "ALTER TABLE posts DROP CONSTRAINT posts_user_id_fkey;"
    );
}

#[test]
fn test_allows_drop_check_constraint() {
    assert_allows(
        &DropPrimaryKeyCheck,
        "ALTER TABLE users DROP CONSTRAINT users_age_check;"
    );
}

#[test]
fn test_ignores_add_constraint() {
    assert_allows(
        &DropPrimaryKeyCheck,
        "ALTER TABLE users ADD CONSTRAINT users_pkey PRIMARY KEY (id);"
    );
}

#[test]
fn drop_primary_key_test_ignores_other_statements() {
    assert_allows(
        &DropPrimaryKeyCheck,
        "CREATE TABLE users (id SERIAL PRIMARY KEY);"
    );
}
