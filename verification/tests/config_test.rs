use diesel_guard::checks::Registry;
use diesel_guard::{Config, ConfigError};

#[test]
fn test_default_config() {
    let config = Config::default();
    assert_eq!(config.start_after, None);
    assert!(!config.check_down);
    assert_eq!(config.disable_checks.len(), 0);
}

#[test]
fn test_valid_timestamp() {
    // Format with underscores
    assert!(Config::validate_timestamp("2024_01_01_000000").is_ok());
    assert!(Config::validate_timestamp("2023_12_31_235959").is_ok());
    assert!(Config::validate_timestamp("2025_06_15_120000").is_ok());

    // Format with dashes
    assert!(Config::validate_timestamp("2024-01-01-000000").is_ok());
    assert!(Config::validate_timestamp("2023-12-31-235959").is_ok());
    assert!(Config::validate_timestamp("2025-06-15-120000").is_ok());

    // Format without separators
    assert!(Config::validate_timestamp("20240101000000").is_ok());
    assert!(Config::validate_timestamp("20231231235959").is_ok());
    assert!(Config::validate_timestamp("20250615120000").is_ok());
}

#[test]
fn test_invalid_timestamp_format() {
    // Mixed separators
    assert!(Config::validate_timestamp("2024_01-01_000000").is_err());
    assert!(Config::validate_timestamp("2024-01_01-000000").is_err());

    // Wrong length
    assert!(Config::validate_timestamp("2024_01_01").is_err());
    assert!(Config::validate_timestamp("2024_01_01_00000").is_err());
    assert!(Config::validate_timestamp("2024010100000").is_err());

    // Non-numeric characters
    assert!(Config::validate_timestamp("202a_01_01_000000").is_err());
    assert!(Config::validate_timestamp("202a-01-01-000000").is_err());

    // Invalid separators
    assert!(Config::validate_timestamp("2024/01/01/000000").is_err());
    assert!(Config::validate_timestamp("2024.01.01.000000").is_err());
}

#[test]
fn test_should_check_migration_no_filter() {
    let config = Config::default();
    assert!(config.should_check_migration("2024_01_01_000000_create_users"));
    assert!(config.should_check_migration("2020_01_01_000000_old_migration"));
}

#[test]
fn test_should_check_migration_with_filter() {
    let config = Config {
        start_after: Some("2024_01_01_000000".to_string()),
        ..Default::default()
    };

    // Should check (strictly after threshold)
    assert!(config.should_check_migration("2024_01_02_000000_new_migration"));
    assert!(config.should_check_migration("2024_06_15_120000_another_migration"));

    // Should NOT check (before or equal to threshold)
    assert!(!config.should_check_migration("2024_01_01_000000_exact_match"));
    assert!(!config.should_check_migration("2023_12_31_235959_old_migration"));
    assert!(!config.should_check_migration("2020_01_01_000000_very_old"));
}

#[test]
fn test_should_check_migration_mixed_formats() {
    // Test start_after with underscores against folders with different formats
    let config_underscores = Config {
        start_after: Some("2024_01_01_000000".to_string()),
        ..Default::default()
    };

    // Folder with dashes - should check (after threshold)
    assert!(config_underscores.should_check_migration("2024-01-02-000000_new_migration"));
    assert!(config_underscores.should_check_migration("2024-06-15-120000_another_migration"));

    // Folder with dashes - should NOT check (before or equal)
    assert!(!config_underscores.should_check_migration("2024-01-01-000000_exact_match"));
    assert!(!config_underscores.should_check_migration("2023-12-31-235959_old_migration"));

    // Folder without separators - should check (after threshold)
    assert!(config_underscores.should_check_migration("20240102000000_new_migration"));
    assert!(config_underscores.should_check_migration("20240615120000_another_migration"));

    // Folder without separators - should NOT check (before or equal)
    assert!(!config_underscores.should_check_migration("20240101000000_exact_match"));
    assert!(!config_underscores.should_check_migration("20231231235959_old_migration"));

    // Test start_after with dashes against folders with different formats
    let config_dashes = Config {
        start_after: Some("2024-01-01-000000".to_string()),
        ..Default::default()
    };

    // Folder with underscores - should check (after threshold)
    assert!(config_dashes.should_check_migration("2024_01_02_000000_new_migration"));
    assert!(!config_dashes.should_check_migration("2024_01_01_000000_exact_match"));

    // Folder without separators - should check (after threshold)
    assert!(config_dashes.should_check_migration("20240102000000_new_migration"));
    assert!(!config_dashes.should_check_migration("20240101000000_exact_match"));

    // Test start_after without separators against folders with different formats
    let config_no_sep = Config {
        start_after: Some("20240101000000".to_string()),
        ..Default::default()
    };

    // Folder with underscores - should check (after threshold)
    assert!(config_no_sep.should_check_migration("2024_01_02_000000_new_migration"));
    assert!(!config_no_sep.should_check_migration("2024_01_01_000000_exact_match"));

    // Folder with dashes - should check (after threshold)
    assert!(config_no_sep.should_check_migration("2024-01-02-000000_new_migration"));
    assert!(!config_no_sep.should_check_migration("2024-01-01-000000_exact_match"));
}

#[test]
fn test_is_check_enabled() {
    let config = Config {
        disable_checks: vec!["AddColumnCheck".to_string(), "DropColumnCheck".to_string()],
        ..Default::default()
    };

    assert!(!config.is_check_enabled("AddColumnCheck"));
    assert!(!config.is_check_enabled("DropColumnCheck"));
    assert!(config.is_check_enabled("AddIndexCheck"));
    assert!(config.is_check_enabled("AddNotNullCheck"));
}

#[test]
fn test_invalid_check_name() {
    let config = Config {
        disable_checks: vec!["InvalidCheckName".to_string()],
        ..Default::default()
    };
    assert!(config.validate().is_err());
}

#[test]
fn test_valid_check_names() {
    let config = Config {
        disable_checks: vec!["AddColumnCheck".to_string(), "DropColumnCheck".to_string()],
        ..Default::default()
    };
    assert!(config.validate().is_ok());
}

#[test]
fn test_invalid_check_name_help_includes_all_checks() {
    let error = ConfigError::InvalidCheckName {
        invalid_name: "FooCheck".to_string(),
    };

    let help = error.help();

    // Verify help text includes all check names from the registry
    for check_name in Registry::all_check_names() {
        assert!(
            help.contains(check_name),
            "Help text should include '{}', got: {}",
            check_name,
            help
        );
    }

    // Verify format
    assert!(help.starts_with("Valid check names: "));
}
