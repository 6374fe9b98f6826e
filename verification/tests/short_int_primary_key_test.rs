use diesel_guard::ast::StatementNode;
use diesel_guard::checks::{Check, ShortIntegerPrimaryKeyCheck};
use diesel_guard::parser::SqlParser;

fn parse_sql(sql: &str) -> StatementNode {
    SqlParser::new()
        .parse(sql)
        .expect("Failed to parse SQL")
        .into_iter()
        .next()
        .expect("No statements found")
}

fn assert_detects_violation(check: &impl Check, sql: &str, operation: &str) {
    let stmt = parse_sql(sql);
    let violations = check.check(&stmt);
    assert_eq!(violations.len(), 1, "Expected exactly 1 violation");
    assert_eq!(
        violations[0].operation, operation,
        "Expected operation '{}' but got '{}'",
        operation, violations[0].operation
    );
}

fn assert_allows(check: &impl Check, sql: &str) {
    let stmt = parse_sql(sql);
    let violations = check.check(&stmt);
    assert_eq!(
        violations.len(),
        0,
        "Expected no violations but found {}",
        violations.len()
    );
}

#[test]
fn test_detects_create_table_int_primary_key() {
    assert_detects_violation(
        &ShortIntegerPrimaryKeyCheck,
        "CREATE TABLE users (id INT PRIMARY KEY);",
        "Short integer primary key"
    );
}

#[test]
fn test_detects_create_table_integer_primary_key() {
    assert_detects_violation(
        &ShortIntegerPrimaryKeyCheck,
        "CREATE TABLE users (id INTEGER PRIMARY KEY);",
        "Short integer primary key"
    );
}

#[test]
fn test_detects_create_table_smallint_primary_key() {
    assert_detects_violation(
        &ShortIntegerPrimaryKeyCheck,
        "CREATE TABLE users (id SMALLINT PRIMARY KEY);",
        "Short integer primary key"
    );
}

#[test]
fn test_detects_create_table_int2_primary_key() {
    assert_detects_violation(
        &ShortIntegerPrimaryKeyCheck,
        "CREATE TABLE users (id INT2 PRIMARY KEY);",
        "Short integer primary key"
    );
}

#[test]
fn test_detects_create_table_int4_primary_key() {
    assert_detects_violation(
        &ShortIntegerPrimaryKeyCheck,
        "CREATE TABLE users (id INT4 PRIMARY KEY);",
        "Short integer primary key"
    );
}

#[test]
fn test_detects_create_table_separate_pk_constraint() {
    assert_detects_violation(
        &ShortIntegerPrimaryKeyCheck,
        "CREATE TABLE users (id INT, name TEXT, PRIMARY KEY (id));",
        "Short integer primary key"
    );
}

#[test]
fn test_detects_composite_primary_key_with_int() {
    let check = ShortIntegerPrimaryKeyCheck;
    let stmt = parse_sql(
        "CREATE TABLE events (tenant_id BIGINT, id INT, PRIMARY KEY (tenant_id, id));",
    );

    let violations = check.check(&stmt);
    assert_eq!(violations.len(), 1);
    assert_eq!(violations[0].operation, "Short integer primary key");
    assert!(violations[0].problem.contains("id"));
    assert!(violations[0].problem.contains("INT"));
}

#[test]
fn test_detects_multiple_short_int_columns_in_composite_pk() {
    let check = ShortIntegerPrimaryKeyCheck;
    let stmt = parse_sql(
        "CREATE TABLE data (tenant_id INT, user_id SMALLINT, PRIMARY KEY (tenant_id, user_id));",
    );

    let violations = check.check(&stmt);
    assert_eq!(violations.len(), 2); // Both columns flagged
    assert!(violations.iter().any(|v| v.problem.contains("tenant_id")));
    assert!(violations.iter().any(|v| v.problem.contains("user_id")));
}

#[test]
fn test_detects_alter_add_column_int_primary_key() {
    assert_detects_violation(
        &ShortIntegerPrimaryKeyCheck,
        "ALTER TABLE users ADD COLUMN id INT PRIMARY KEY;",
        "Short integer primary key"
    );
}

#[test]
fn test_detects_alter_add_column_smallint_primary_key() {
    assert_detects_violation(
        &ShortIntegerPrimaryKeyCheck,
        "ALTER TABLE users ADD COLUMN id SMALLINT PRIMARY KEY;",
        "Short integer primary key"
    );
}

#[test]
fn test_allows_bigint_primary_key() {
    assert_allows(
        &ShortIntegerPrimaryKeyCheck,
        "CREATE TABLE users (id BIGINT PRIMARY KEY);"
    );
}

#[test]
fn test_allows_int8_primary_key() {
    assert_allows(
        &ShortIntegerPrimaryKeyCheck,
        "CREATE TABLE users (id INT8 PRIMARY KEY);"
    );
}

#[test]
fn test_allows_serial_primary_key() {
    assert_allows(
        &ShortIntegerPrimaryKeyCheck,
        "CREATE TABLE users (id SERIAL PRIMARY KEY);"
    );
}

#[test]
fn test_allows_bigserial_primary_key() {
    assert_allows(
        &ShortIntegerPrimaryKeyCheck,
        "CREATE TABLE users (id BIGSERIAL PRIMARY KEY);"
    );
}

#[test]
fn test_allows_uuid_primary_key() {
    assert_allows(
        &ShortIntegerPrimaryKeyCheck,
        "CREATE TABLE users (id UUID PRIMARY KEY);"
    );
}

#[test]
fn test_allows_int_column_without_primary_key() {
    assert_allows(
        &ShortIntegerPrimaryKeyCheck,
        "CREATE TABLE users (id BIGINT PRIMARY KEY, age INT);"
    );
}

#[test]
fn test_allows_int_unique_not_primary() {
    assert_allows(
        &ShortIntegerPrimaryKeyCheck,
        "CREATE TABLE users (id BIGINT PRIMARY KEY, code INT UNIQUE);"
    );
}

#[test]
fn test_allows_composite_pk_all_bigint() {
    assert_allows(
        &ShortIntegerPrimaryKeyCheck,
        "CREATE TABLE events (tenant_id BIGINT, id BIGINT, PRIMARY KEY (tenant_id, id));"
    );
}

#[test]
fn short_int_primary_key_test_ignores_other_statements() {
    assert_allows(
        &ShortIntegerPrimaryKeyCheck,
        "ALTER TABLE users DROP COLUMN age;"
    );
}

#[test]
fn test_ignores_alter_add_column_without_pk() {
    assert_allows(
        &ShortIntegerPrimaryKeyCheck,
        "ALTER TABLE users ADD COLUMN age INT;"
    );
}

#[test]
fn test_detects_alter_add_constraint_primary_key() {
    assert_detects_violation(
        &ShortIntegerPrimaryKeyCheck,
        "ALTER TABLE users ADD COLUMN id INT, ADD CONSTRAINT pk_users PRIMARY KEY (id);",
        "Short integer primary key"
    );
}

#[test]
fn test_detects_alter_add_constraint_smallint_pk() {
    assert_detects_violation(
        &ShortIntegerPrimaryKeyCheck,
        "ALTER TABLE users ADD COLUMN id SMALLINT, ADD CONSTRAINT pk_users PRIMARY KEY (id);",
        "Short integer primary key"
    );
}

#[test]
fn test_detects_alter_add_constraint_composite_pk_with_int() {
    let check = ShortIntegerPrimaryKeyCheck;
    let stmt = parse_sql(
        "ALTER TABLE events ADD COLUMN tenant_id BIGINT, ADD COLUMN id INT, ADD CONSTRAINT pk_events PRIMARY KEY (tenant_id, id);",
    );

    let violations = check.check(&stmt);
    assert_eq!(violations.len(), 1);
    assert_eq!(violations[0].operation, "Short integer primary key");
    assert!(violations[0].problem.contains("id"));
    assert!(violations[0].problem.contains("INT"));
}

#[test]
fn test_allows_alter_add_constraint_bigint_pk() {
    assert_allows(
        &ShortIntegerPrimaryKeyCheck,
        "ALTER TABLE users ADD COLUMN id BIGINT, ADD CONSTRAINT pk_users PRIMARY KEY (id);"
    );
}

#[test]
fn test_ignores_alter_add_constraint_on_existing_column() {
    // Can't detect type when column already exists (not added in same statement)
    assert_allows(
        &ShortIntegerPrimaryKeyCheck,
        "ALTER TABLE users ADD CONSTRAINT pk_users PRIMARY KEY (id);"
    );
}

#[test]
fn test_smallint_shows_correct_limit() {
    let check = ShortIntegerPrimaryKeyCheck;
    let stmt = parse_sql("CREATE TABLE users (id SMALLINT PRIMARY KEY);");
    let violations = check.check(&stmt);

    assert_eq!(violations.len(), 1);
    assert!(violations[0].problem.contains("~32,767"));
}

#[test]
fn test_int_shows_correct_limit() {
    let check = ShortIntegerPrimaryKeyCheck;
    let stmt = parse_sql("CREATE TABLE users (id INT PRIMARY KEY);");
    let violations = check.check(&stmt);

    assert_eq!(violations.len(), 1);
    assert!(violations[0].problem.contains("~2.1 billion"));
}
