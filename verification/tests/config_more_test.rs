use diesel_guard::{Config, ConfigError};

fn with_start_after(start_after: &str) -> Config {
    Config {
        start_after: Some(start_after.to_string()),
        ..Default::default()
    }
}

#[test]
fn valid_configuration_passes() {
    assert!(Config::default().validate().is_ok());
    let config = Config {
        start_after: Some("20240101000000".to_string()),
        check_down: true,
        disable_checks: vec!["WideIndexCheck".to_string(), "WideIndexCheck".to_string()],
    };
    assert!(config.validate().is_ok());
}

#[test]
fn first_unknown_name_is_reported() {
    let config = Config {
        disable_checks: vec![
            "AddColumnCheck".to_string(),
            "Bogus".to_string(),
            "AlsoBogus".to_string(),
        ],
        ..Default::default()
    };
    match config.validate() {
        Err(ConfigError::InvalidCheckName { invalid_name }) => assert_eq!(invalid_name, "Bogus"),
        other => panic!("expected an invalid check name, got {:?}", other),
    }
}

#[test]
fn rule_names_are_case_sensitive() {
    let config = Config {
        disable_checks: vec!["addcolumncheck".to_string()],
        ..Default::default()
    };
    assert!(config.validate().is_err());
}

#[test]
fn bad_timestamp_is_reported_before_a_bad_name() {
    let config = Config {
        start_after: Some("yesterday".to_string()),
        disable_checks: vec!["Bogus".to_string()],
        ..Default::default()
    };
    match config.validate() {
        Err(ConfigError::InvalidTimestampFormat(t)) => assert_eq!(t, "yesterday"),
        other => panic!("expected an invalid timestamp, got {:?}", other),
    }
}

#[test]
fn timestamp_error_carries_the_text() {
    match Config::validate_timestamp("2024/01/01") {
        Err(ConfigError::InvalidTimestampFormat(t)) => assert_eq!(t, "2024/01/01"),
        other => panic!("expected an invalid timestamp, got {:?}", other),
    }
}

#[test]
fn timestamp_must_be_the_whole_text() {
    assert!(Config::validate_timestamp(" 20240101000000").is_err());
    assert!(Config::validate_timestamp("20240101000000_create_users").is_err());
    assert!(Config::validate_timestamp("").is_err());
    assert!(Config::validate_timestamp("202401010000000").is_err());
}

#[test]
fn error_texts() {
    let name = ConfigError::InvalidCheckName { invalid_name: "FooCheck".to_string() };
    assert_eq!(name.to_string(), "Invalid check name: FooCheck");
    assert_eq!(name.code(), "diesel_guard::config::invalid_check");
    assert_eq!(
        name.help(),
        "Valid check names: AddColumnCheck, AddIndexCheck, AddJsonColumnCheck, AddNotNullCheck, AddPrimaryKeyCheck, AddSerialColumnCheck, AddUniqueConstraintCheck, AlterColumnTypeCheck, CreateExtensionCheck, DropColumnCheck, DropPrimaryKeyCheck, RenameColumnCheck, RenameTableCheck, ShortIntegerPrimaryKeyCheck, TruncateTableCheck, UnnamedConstraintCheck, WideIndexCheck"
    );
    let stamp = ConfigError::InvalidTimestampFormat("soon".to_string());
    assert_eq!(stamp.to_string(), "Invalid timestamp format: soon");
    assert_eq!(stamp.code(), "diesel_guard::config::invalid_timestamp");
    assert_eq!(
        stamp.help(),
        "Expected format: YYYYMMDDHHMMSS, YYYY_MM_DD_HHMMSS, or YYYY-MM-DD-HHMMSS (e.g., 20240101000000, 2024_01_01_000000, or 2024-01-01-000000)"
    );
}

#[test]
fn normalize_keeps_the_ascii_digits() {
    let digits: String = Config::normalize_timestamp("2024-01-01_12:30:45 x").into_iter().collect();
    assert_eq!(digits, "20240101123045");
    assert!(Config::normalize_timestamp("create_users").is_empty());
}

#[test]
fn directory_without_a_timestamp_is_checked() {
    let config = with_start_after("2024_01_01_000000");
    assert!(config.should_check_migration("create_users"));
    assert!(config.should_check_migration(""));
    assert!(config.should_check_migration("2023_01_01_00000"));
}

#[test]
fn only_the_first_fourteen_digits_count() {
    let config = with_start_after("2024_01_01_000000");
    assert!(!config.should_check_migration("2024_01_01_000000_v2_add_9_columns"));
    assert!(config.should_check_migration("2024_01_01_000001_v0"));
    assert!(!config.should_check_migration("10000000000000999999"));
}

#[test]
fn threshold_is_compared_as_text() {
    // A shorter threshold is a prefix: everything that begins with it and
    // goes on comes after it.
    let short = with_start_after("2024");
    assert!(short.should_check_migration("2024_01_01_000000_a"));
    assert!(!short.should_check_migration("2023_12_31_235959_a"));
    // A threshold without digits is below every timestamp.
    let none = with_start_after("never");
    assert!(none.should_check_migration("0000_00_00_000000_a"));
    // A longer threshold with the same first fourteen digits is above.
    let long = with_start_after("2024_01_01_000000_0");
    assert!(!long.should_check_migration("2024_01_01_000000_a"));
}

#[test]
fn is_check_enabled_compares_whole_names() {
    let config = Config {
        disable_checks: vec!["AddColumnCheck".to_string()],
        ..Default::default()
    };
    assert!(!config.is_check_enabled("AddColumnCheck"));
    assert!(config.is_check_enabled("AddColumn"));
    assert!(config.is_check_enabled("AddColumnCheck "));
    assert!(config.is_check_enabled("addcolumncheck"));
    assert!(config.is_check_enabled(""));
}

#[test]
fn clone_keeps_every_field() {
    let config = Config {
        start_after: Some("2024_01_01_000000".to_string()),
        check_down: true,
        disable_checks: vec!["AddColumnCheck".to_string(), "WideIndexCheck".to_string()],
    };
    let copy = config.clone();
    assert_eq!(copy.start_after, config.start_after);
    assert_eq!(copy.check_down, config.check_down);
    assert_eq!(copy.disable_checks, config.disable_checks);
}
