use diesel_guard::{Config, SafetyChecker};

#[test]
fn test_check_safe_sql() {
    let checker = SafetyChecker::with_config(Config::default());
    let sql = "ALTER TABLE users ADD COLUMN email VARCHAR(255);";
    let violations = checker.check_sql(sql).unwrap();
    assert_eq!(violations.len(), 0);
}

#[test]
fn test_check_unsafe_sql() {
    let checker = SafetyChecker::with_config(Config::default());
    let sql = "ALTER TABLE users ADD COLUMN admin BOOLEAN DEFAULT FALSE;";
    let violations = checker.check_sql(sql).unwrap();
    assert_eq!(violations.len(), 1);
}

#[test]
fn test_with_disabled_checks() {
    let config = Config {
        disable_checks: vec!["AddColumnCheck".to_string()],
        ..Default::default()
    };
    let checker = SafetyChecker::with_config(config);

    // This would normally trigger AddColumnCheck
    let sql = "ALTER TABLE users ADD COLUMN admin BOOLEAN DEFAULT FALSE;";
    let violations = checker.check_sql(sql).unwrap();
    assert_eq!(violations.len(), 0); // Check is disabled
}
