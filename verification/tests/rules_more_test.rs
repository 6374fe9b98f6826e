use diesel_guard::ast::StatementNode;
use diesel_guard::checks::add_serial_column::is_serial_type;
use diesel_guard::checks::short_int_primary_key::create_violation;
use diesel_guard::checks::{
    display_or_default, if_exists_clause, unique_prefix, AddColumnCheck, Check, DropColumnCheck,
    DropPrimaryKeyCheck, ShortIntegerPrimaryKeyCheck, TruncateTableCheck, UnnamedConstraintCheck,
    WideIndexCheck,
};
use diesel_guard::parser::SqlParser;

fn parse_sql(sql: &str) -> StatementNode {
    SqlParser::new()
        .parse(sql)
        .expect("Failed to parse SQL")
        .into_iter()
        .next()
        .expect("No statements found")
}

fn problems(check: &impl Check, sql: &str) -> Vec<String> {
    check.check(&parse_sql(sql)).into_iter().map(|v| v.problem).collect()
}

#[test]
fn helpers() {
    assert_eq!(display_or_default(Some(&"idx".to_string()), "<unnamed>"), "idx");
    assert_eq!(display_or_default(None, "<unnamed>"), "<unnamed>");
    assert_eq!(unique_prefix(true), "UNIQUE ");
    assert_eq!(unique_prefix(false), "");
    assert_eq!(if_exists_clause(true), " IF EXISTS");
    assert_eq!(if_exists_clause(false), "");
}

#[test]
fn serial_types_in_any_letter_case() {
    assert!(is_serial_type("serial"));
    assert!(is_serial_type("SERIAL"));
    assert!(is_serial_type("BigSerial"));
    assert!(is_serial_type("smallserial"));
    assert!(!is_serial_type("serial4"));
    assert!(!is_serial_type(" serial"));
    assert!(!is_serial_type("integer"));
    assert!(!is_serial_type(""));
}

#[test]
fn primary_key_names() {
    for name in ["users_pkey", "users_pk", "pk_users", "USERS_PKEY", "Pk_users", "users_primary_key_old", "myPrimaryKeyConstraint"] {
        assert!(DropPrimaryKeyCheck::is_likely_primary_key(name), "{}", name);
    }
    for name in ["users_email_key", "users_pkey_old", "apk_users", "users_pks", "primary", ""] {
        assert!(!DropPrimaryKeyCheck::is_likely_primary_key(name), "{}", name);
    }
}

#[test]
fn one_violation_for_each_added_column_with_default() {
    let found = problems(
        &AddColumnCheck,
        "ALTER TABLE t ADD COLUMN a INT DEFAULT 1, ADD COLUMN b INT, ADD COLUMN c TEXT NOT NULL DEFAULT 'x'",
    );
    assert_eq!(found.len(), 2);
    assert!(found[0].starts_with("Adding column 'a' "));
    assert!(found[1].starts_with("Adding column 'c' "));
}

#[test]
fn one_violation_for_each_dropped_column_in_order() {
    let found = problems(&DropColumnCheck, "ALTER TABLE t DROP COLUMN a, DROP COLUMN b");
    assert_eq!(found.len(), 2);
    assert!(found[0].starts_with("Dropping column 'a' "));
    assert!(found[1].starts_with("Dropping column 'b' "));
}

#[test]
fn one_violation_for_each_truncated_table_in_order() {
    let found = problems(&TruncateTableCheck, "TRUNCATE TABLE a, b, c");
    assert_eq!(found.len(), 3);
    assert!(found[0].starts_with("TRUNCATE TABLE on 'a' "));
    assert!(found[2].starts_with("TRUNCATE TABLE on 'c' "));
}

#[test]
fn wide_index_starts_at_four_columns() {
    assert_eq!(problems(&WideIndexCheck, "CREATE INDEX i ON t(a, b, c)").len(), 0);
    let found = problems(&WideIndexCheck, "CREATE INDEX ON t(a DESC, b, c, d, e, f, g, h, i, j, k)");
    assert_eq!(found.len(), 1);
    assert!(found[0].starts_with(
        "Index '<unnamed>' on table 't' has 11 columns (a DESC, b, c, d, e, f, g, h, i, j, k). "
    ));
}

#[test]
fn named_constraints_are_not_reported_as_unnamed() {
    let sql = "ALTER TABLE t ADD CONSTRAINT a UNIQUE (x), ADD UNIQUE (y), ADD CONSTRAINT b CHECK (x > 0), ADD CHECK (y > 0), ADD PRIMARY KEY (z)";
    let found = problems(&UnnamedConstraintCheck, sql);
    assert_eq!(found.len(), 2);
    assert!(found[0].starts_with("Adding unnamed UNIQUE constraint on table 't' "));
    assert!(found[1].starts_with("Adding unnamed CHECK constraint on table 't' "));
}

#[test]
fn short_integer_key_types_and_limits() {
    for (sql_type, name, limit) in [
        ("SMALLINT", "SMALLINT", "~32,767"),
        ("INT2", "INT2", "~32,767"),
        ("INT", "INT", "~2.1 billion"),
        ("INTEGER", "INTEGER", "~2.1 billion"),
        ("INT4", "INT4", "~2.1 billion"),
    ] {
        let found = problems(
            &ShortIntegerPrimaryKeyCheck,
            &format!("CREATE TABLE t (id {} PRIMARY KEY)", sql_type),
        );
        assert_eq!(found.len(), 1, "{}", sql_type);
        assert!(
            found[0].starts_with(&format!(
                "Using {} for primary key column 'id' on table 't' risks ID exhaustion at {} records. ",
                name, limit
            )),
            "{}",
            found[0]
        );
    }
}

#[test]
fn short_integer_key_by_constraint_names_the_key_column() {
    let found = problems(
        &ShortIntegerPrimaryKeyCheck,
        "CREATE TABLE t (a INT PRIMARY KEY, b SMALLINT, c BIGINT, PRIMARY KEY (c, t.b, lower(a), missing))",
    );
    assert_eq!(found.len(), 2);
    assert!(found[0].starts_with("Using INT for primary key column 'a' "));
    assert!(found[1].starts_with("Using SMALLINT for primary key column 'b' "));
}

#[test]
fn short_integer_key_goes_by_the_first_column_of_that_name() {
    let found = problems(
        &ShortIntegerPrimaryKeyCheck,
        "ALTER TABLE t ADD COLUMN a BIGINT, ADD COLUMN a INT, ADD PRIMARY KEY (a)",
    );
    assert_eq!(found.len(), 0);
    let found = problems(
        &ShortIntegerPrimaryKeyCheck,
        "ALTER TABLE t ADD PRIMARY KEY (a), ADD COLUMN a INT PRIMARY KEY",
    );
    // First the column marked as key, then the constraint on it.
    assert_eq!(found.len(), 2);
}

#[test]
fn create_violation_texts() {
    let v = create_violation("t", "id", "INT", "~2.1 billion");
    assert_eq!(v.operation, "Short integer primary key");
    assert!(v.problem.starts_with(
        "Using INT for primary key column 'id' on table 't' risks ID exhaustion at ~2.1 billion records. INT can be quickly exhausted"
    ));
    assert!(v.safe_alternative.contains("   CREATE TABLE t (id INT PRIMARY KEY);\n"));
    assert!(v.safe_alternative.contains("   CREATE TABLE t (id BIGINT PRIMARY KEY);\n"));
}
