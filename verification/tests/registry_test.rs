use diesel_guard::checks::Registry;
use diesel_guard::parser::{IgnoreRange, SqlParser};
use diesel_guard::Config;

#[test]
fn test_registry_creation() {
    let registry = Registry::new();
    assert_eq!(registry.checks.len(), Registry::all_check_names().len());
}

#[test]
fn test_registry_with_disabled_checks() {
    let config = Config {
        disable_checks: vec!["AddColumnCheck".to_string()],
        ..Default::default()
    };

    let registry = Registry::with_config(&config);
    assert_eq!(registry.checks.len(), Registry::all_check_names().len() - 1);
}

#[test]
fn test_registry_with_multiple_disabled_checks() {
    let config = Config {
        disable_checks: vec!["AddColumnCheck".to_string(), "DropColumnCheck".to_string()],
        ..Default::default()
    };

    let registry = Registry::with_config(&config);
    assert_eq!(registry.checks.len(), Registry::all_check_names().len() - 2);
}

#[test]
fn test_registry_with_all_checks_disabled() {
    let config = Config {
        disable_checks: Registry::all_check_names()
            .iter()
            .map(|s| s.to_string())
            .collect(),
        ..Default::default()
    };

    let registry = Registry::with_config(&config);
    assert_eq!(registry.checks.len(), 0); // All checks disabled
}

#[test]
    fn test_check_with_safety_assured_block() {

        let registry = Registry::new();
        let sql = r#"
-- safety-assured:start
ALTER TABLE users DROP COLUMN email;
-- safety-assured:end
        "#;

        let statements = SqlParser::new().parse(sql).unwrap();
        let ignore_ranges = vec![IgnoreRange {
            start_line: 2,
            end_line: 4,
        }];

        let violations = registry.check_statements_with_context(&statements, sql, &ignore_ranges);
        assert_eq!(violations.len(), 0); // Statement is in safety-assured block
    }

#[test]
fn test_check_without_safety_assured_block() {

    let registry = Registry::new();
    let sql = "ALTER TABLE users DROP COLUMN email;";

    let statements = SqlParser::new().parse(sql).unwrap();
    let ignore_ranges = vec![];

    let violations = registry.check_statements_with_context(&statements, sql, &ignore_ranges);
    assert_eq!(violations.len(), 1); // DropColumnCheck should trigger
}
