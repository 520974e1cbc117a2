use tiger_claw::config::{
    validate_test_config, DynamoDbConfig, GlobalConfig, MigrationApiConfig, OrchestrationConfig,
    SasDataImportConfig, TestConfig,
};

fn globals(
    advertiser_id: Option<i32>,
    external_id: Option<i32>,
    migration_name: Option<String>,
    environment: &str,
) -> GlobalConfig {
    GlobalConfig {
        advertiser_id,
        external_id,
        migration_name,
        environment: environment.to_string(),
        base_growth_migration_url: "http://example.com".to_string(),
        base_growth_migration_port: 8080,
        base_sas_data_import_url: "http://example.com".to_string(),
        base_sas_data_import_port: 8181,
    }
}

#[test]
fn test_global_config_validation() {
    let valid_config = globals(Some(42), Some(123), Some("sas".to_string()), "dev");
    assert!(valid_config.validate().is_ok());

    let uppercase_config = globals(Some(42), Some(123), Some("SAS".to_string()), "DEV");
    assert!(uppercase_config.validate().is_ok());

    let invalid_advertiser_id = globals(Some(0), Some(123), Some("sas".to_string()), "dev");
    assert!(invalid_advertiser_id.validate().is_err());

    let invalid_external_id = globals(Some(42), Some(-1), Some("sas".to_string()), "dev");
    assert!(invalid_external_id.validate().is_err());

    let invalid_migration_name = globals(Some(42), Some(123), Some("not_sas".to_string()), "dev");
    assert!(invalid_migration_name.validate().is_err());
}

#[test]
fn validation_error_messages_are_exact() {
    let bad_adv = globals(Some(-7), Some(123), None, "dev");
    assert_eq!(
        bad_adv.validate().unwrap_err(),
        "Invalid advertiser_id: -7. Must be greater than 0"
    );
    let bad_ext = globals(None, Some(0), None, "dev");
    assert_eq!(
        bad_ext.validate().unwrap_err(),
        "Invalid external_id: 0. Must be greater than 0"
    );
    let bad_name = globals(None, None, Some("awin".to_string()), "dev");
    assert_eq!(
        bad_name.validate().unwrap_err(),
        "Invalid migration_name: awin. Must be 'sas' (case insensitive)"
    );
    let absent = globals(None, None, None, "dev");
    assert!(absent.validate().is_ok());
}

fn config_with(orchestration_enabled: bool) -> TestConfig {
    TestConfig {
        orchestration: OrchestrationConfig {
            enabled: orchestration_enabled,
            step_to_run: String::new(),
            force_run: false,
            step_status_to_force: String::new(),
        },
        sas_data_import: SasDataImportConfig { enabled: false },
        dynamo_db: DynamoDbConfig { enabled: false },
        globals: globals(None, None, None, "dev"),
        migration_api: MigrationApiConfig { enabled: false },
    }
}

#[test]
fn test_no_tests_enabled_fails() {
    let config = config_with(false);
    assert!(validate_test_config(&config).is_err());
}

#[test]
fn test_some_tests_enabled_works() {
    let config = config_with(true);
    assert!(validate_test_config(&config).is_ok());
}

#[test]
fn enabled_config_with_bad_globals_fails() {
    let mut config = config_with(true);
    config.globals.external_id = Some(-5);
    assert_eq!(
        validate_test_config(&config).unwrap_err(),
        "Invalid external_id: -5. Must be greater than 0"
    );
    let disabled = config_with(false);
    assert_eq!(
        validate_test_config(&disabled).unwrap_err(),
        "At least one test type must be enabled in the configuration"
    );
}
