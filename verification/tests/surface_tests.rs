use tiger_claw::request::{growth_migration_url, sas_data_import_url};
use tiger_claw::sas_data_import::{health_check_url, merchant_url, SasDataImport};
use tiger_claw::sas_migration_api::{feelock_endpoint, lockdown_endpoint};
use tiger_claw::setup::{
    environment_for_name, token_from_response, token_url, Args, Environment, TokenRetrievalBody,
};
use tiger_claw::terms_and_conditions::{terms_status_endpoint, TermParams, Terms};

#[test]
fn term_validation_successful() {
    let valid_terms = Terms {
        term_status: "active".to_string(),
        term_params: TermParams {
            external_program_id: 1,
            external_program_name: "Test Program".to_string(),
            awin_tech_fee: 100,
            tech_bundle: 1,
            tracking_fee_type: "fixed".to_string(),
            service_package: "basic".to_string(),
            tracking_fee: 50,
            validation_period: 30,
        },
    };

    let errors = valid_terms.term_params.validate();
    assert!(errors.is_empty(), "Validation errors: {:?}", errors);
}

#[test]
fn empty_program_name() {
    let valid_terms = Terms {
        term_status: "active".to_string(),
        term_params: TermParams {
            external_program_id: 1,
            external_program_name: "".to_string(),
            awin_tech_fee: 100,
            tech_bundle: 1,
            tracking_fee_type: "test_type".to_string(),
            service_package: "super cool guy tier".to_string(),
            tracking_fee: 50,
            validation_period: 30,
        },
    };

    let errors = valid_terms.term_params.validate();
    assert!(
        errors.len() == 1,
        "Expecte exactly 1 validation error but saw {}",
        errors.len()
    );
}

#[test]
fn term_validation_reports_every_failure_in_order() {
    let params = TermParams {
        external_program_id: 0,
        external_program_name: String::new(),
        awin_tech_fee: -1,
        tech_bundle: 0,
        tracking_fee_type: String::new(),
        service_package: String::new(),
        tracking_fee: 0,
        validation_period: 0,
    };
    let errors = params.validate();
    assert_eq!(
        errors,
        vec![
            "External program ID must be greater than 0".to_string(),
            "External program name must not be empty".to_string(),
            "AWIN tech fee must be non-negative".to_string(),
        ]
    );
}

#[test]
fn request_urls_are_exact() {
    assert_eq!(
        growth_migration_url("http://example.com", 8080, "migrate/sas/advertiser/7/status"),
        "http://example.com:8080/migrate/sas/advertiser/7/status"
    );
    assert_eq!(
        sas_data_import_url("http://example.com", "actuator/health"),
        "http://example.com/actuator/health"
    );
    assert_eq!(health_check_url("http://example.com"), "http://example.com/actuator/health");
    assert_eq!(
        merchant_url("http://example.com", 8181, 44911),
        "http://example.com:8181/merchant/44911"
    );
    assert_eq!(terms_status_endpoint(31858), "terms/sas/advertiser/awin/31858");
    assert_eq!(lockdown_endpoint(44911), "sasMigrationApi/lockdown/44911");
    assert_eq!(feelock_endpoint(44911), "sasMigrationApi/feelock/44911");
}

#[test]
fn health_status_is_up_only_for_up() {
    assert!(SasDataImport { status: "UP".to_string() }.is_up());
    assert!(!SasDataImport { status: "DOWN".to_string() }.is_up());
    assert!(!SasDataImport { status: "up".to_string() }.is_up());
}

#[test]
fn dev_args_and_config_paths() {
    let dev = Args::dev();
    assert!(dev.verbose);
    assert_eq!(dev.environmnet, "dev");
    assert_eq!(dev.advertiser_id, Some(424242));
    assert_eq!(dev.external_id, Some(44911));
    assert_eq!(dev.get_config_path(), "tests.dev.toml");

    let mut a = Args::dev();
    a.toml_config = Some("tests.local.toml".to_string());
    assert_eq!(a.get_config_path(), "tests.local.toml");

    let mut staging = Args::dev();
    staging.environmnet = "staging".to_string();
    assert_eq!(staging.get_config_path(), "tests.staging.toml");

    let mut production = Args::dev();
    production.environmnet = "production".to_string();
    assert_eq!(production.get_config_path(), "tests.prod.toml");

    let mut unknown = Args::dev();
    unknown.environmnet = "somewhere".to_string();
    assert_eq!(unknown.get_config_path(), "tests.staging.toml");
}

#[test]
fn environments_map_to_their_secret_variables() {
    let (env, var) = environment_for_name("local").unwrap();
    assert_eq!(env, Environment::Local);
    assert_eq!(var, "AWIN_SPRINGFIELD_DEV_CLIENT_SECRET");

    let (env, var) = environment_for_name("dev").unwrap();
    assert_eq!(env, Environment::Dev);
    assert_eq!(var, "AWIN_SPRINGFIELD_DEV_CLIENT_SECRET");

    let (env, var) = environment_for_name("staging").unwrap();
    assert_eq!(env, Environment::Staging);
    assert_eq!(var, "AWIN_SPRINGFIELD_STAGING_CLIENT_SECRET");

    let (env, var) = environment_for_name("production").unwrap();
    assert_eq!(env, Environment::Production);
    assert_eq!(var, "AWIN_SPRINGFIELD_PRODUCTION_CLIENT_SECRET");

    assert!(environment_for_name("qa").is_none());
    assert!(environment_for_name("DEV").is_none());
}

#[test]
fn token_urls_exist_only_where_wired() {
    assert_eq!(
        token_url(&Environment::Local),
        Some("http://ui.d-lhr1-docker-026.dev.awin.com/idpbackend/token")
    );
    assert_eq!(
        token_url(&Environment::Dev),
        Some("http://ui.d-lhr1-docker-026.dev.awin.com/idpbackend/token")
    );
    assert_eq!(token_url(&Environment::Staging), None);
    assert_eq!(token_url(&Environment::Production), None);
}

#[test]
fn token_extraction_from_replies() {
    let body = TokenRetrievalBody {
        access_token: "abc123".to_string(),
        expires_in: 3600,
        token_type: "Bearer".to_string(),
        scope: "all".to_string(),
    };
    assert_eq!(token_from_response(true, Some(body)), "abc123");
    assert_eq!(token_from_response(true, None), "");
    let body2 = TokenRetrievalBody {
        access_token: "abc123".to_string(),
        expires_in: 3600,
        token_type: "Bearer".to_string(),
        scope: "all".to_string(),
    };
    assert_eq!(token_from_response(false, Some(body2)), "");
}
