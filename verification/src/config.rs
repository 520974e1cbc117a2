//! The static settings consumed by one invocation: which test surfaces are
//! enabled, the identifiers and endpoints to use, and the validation that a
//! configuration must pass before anything runs.
use vstd::prelude::*;

use crate::text::{spec_idec, i64_to_dec, token_matches, upper_seq};

verus! {

/// The whole settings object for one run; each section gates one surface.
#[derive(Debug, Clone)]
pub struct TestConfig {
    pub orchestration: OrchestrationConfig,
    pub sas_data_import: SasDataImportConfig,
    pub dynamo_db: DynamoDbConfig,
    pub globals: GlobalConfig,
    pub migration_api: MigrationApiConfig,
}

/// Settings for the migration-API surface.
#[derive(Debug, Clone)]
pub struct MigrationApiConfig {
    pub enabled: bool,
}

/// Settings for the orchestration surface: which phase to run, and whether
/// and to which lifecycle token the status is forced first.
#[derive(Debug, Clone)]
pub struct OrchestrationConfig {
    pub enabled: bool,
    pub step_to_run: String,
    pub step_status_to_force: String,
    pub force_run: bool,
}

/// Settings for the data-import surface.
#[derive(Debug, Clone)]
pub struct SasDataImportConfig {
    pub enabled: bool,
}

/// Settings for the record-store surface.
#[derive(Debug, Clone)]
pub struct DynamoDbConfig {
    pub enabled: bool,
}

/// Global settings: identifiers, the migration name, and service endpoints.
#[derive(Debug, Clone)]
pub struct GlobalConfig {
    pub advertiser_id: Option<i32>,
    pub external_id: Option<i32>,
    pub migration_name: Option<String>,
    pub environment: String,
    pub base_growth_migration_url: String,
    pub base_growth_migration_port: i32,
    pub base_sas_data_import_url: String,
    pub base_sas_data_import_port: i32,
}

/// A present advertiser identifier must be positive.
pub open spec fn spec_advertiser_id_ok(g: GlobalConfig) -> bool {
    match g.advertiser_id {
        Some(id) => id > 0,
        None => true,
    }
}

/// A present external identifier must be positive.
pub open spec fn spec_external_id_ok(g: GlobalConfig) -> bool {
    match g.external_id {
        Some(id) => id > 0,
        None => true,
    }
}

/// A present migration name must be `"sas"`, compared case-insensitively.
pub open spec fn spec_migration_name_ok(g: GlobalConfig) -> bool {
    match g.migration_name {
        Some(n) => upper_seq(n@) == "SAS"@,
        None => true,
    }
}

/// The message for a non-positive advertiser identifier, naming the value.
pub open spec fn spec_bad_advertiser_id_message(g: GlobalConfig) -> Seq<char> {
    match g.advertiser_id {
        Some(id) => "Invalid advertiser_id: "@ + spec_idec(id as int)
            + ". Must be greater than 0"@,
        None => Seq::<char>::empty(),
    }
}

/// The message for a non-positive external identifier, naming the value.
pub open spec fn spec_bad_external_id_message(g: GlobalConfig) -> Seq<char> {
    match g.external_id {
        Some(id) => "Invalid external_id: "@ + spec_idec(id as int)
            + ". Must be greater than 0"@,
        None => Seq::<char>::empty(),
    }
}

/// The message for an unsupported migration name, naming the value.
pub open spec fn spec_bad_migration_name_message(g: GlobalConfig) -> Seq<char> {
    match g.migration_name {
        Some(n) => "Invalid migration_name: "@ + n@ + ". Must be 'sas' (case insensitive)"@,
        None => Seq::<char>::empty(),
    }
}

/// The first validation failure of the global settings, in check order, or
/// `None` when they are valid. Each message names the offending value.
pub open spec fn spec_globals_error(g: GlobalConfig) -> Option<Seq<char>> {
    if !spec_advertiser_id_ok(g) {
        Some(spec_bad_advertiser_id_message(g))
    } else if !spec_external_id_ok(g) {
        Some(spec_bad_external_id_message(g))
    } else if !spec_migration_name_ok(g) {
        Some(spec_bad_migration_name_message(g))
    } else {
        None
    }
}

impl GlobalConfig {
    /// Checks the identifier and name invariants, returning the first
    /// failure's message; `Ok` exactly when every present field is valid.
    pub fn validate(&self) -> (r: Result<(), String>)
        ensures
            r is Ok <==> spec_globals_error(*self) is None,
            r matches Err(m) ==> spec_globals_error(*self) == Some(m@),
    {
        match &self.advertiser_id {
            Some(id) => {
                if *id <= 0 {
                    let mut m = String::from_str("Invalid advertiser_id: ");
                    m.append(i64_to_dec(*id as i64).as_str());
                    m.append(". Must be greater than 0");
                    return Err(m);
                }
            },
            None => {},
        }
        match &self.external_id {
            Some(id) => {
                if *id <= 0 {
                    let mut m = String::from_str("Invalid external_id: ");
                    m.append(i64_to_dec(*id as i64).as_str());
                    m.append(". Must be greater than 0");
                    return Err(m);
                }
            },
            None => {},
        }
        match &self.migration_name {
            Some(name) => {
                if !token_matches(name.as_str(), "SAS") {
                    let mut m = String::from_str("Invalid migration_name: ");
                    m.append(name.as_str());
                    m.append(". Must be 'sas' (case insensitive)");
                    return Err(m);
                }
            },
            None => {},
        }
        Ok(())
    }
}

/// At least one surface must be enabled for a run to make sense.
pub open spec fn spec_any_enabled(c: TestConfig) -> bool {
    c.orchestration.enabled || c.sas_data_import.enabled || c.dynamo_db.enabled
        || c.migration_api.enabled
}

/// Checks a whole configuration: something must be enabled, and the global
/// settings must pass their own validation.
pub fn validate_test_config(config: &TestConfig) -> (r: Result<(), String>)
    ensures
        r is Ok <==> spec_any_enabled(*config) && spec_globals_error(config.globals) is None,
        !spec_any_enabled(*config) ==> (r matches Err(m) && m@
            == "At least one test type must be enabled in the configuration"@),
        spec_any_enabled(*config) ==> (r matches Err(m) ==> spec_globals_error(config.globals)
            == Some(m@)),
{
    if !config.orchestration.enabled && !config.sas_data_import.enabled
        && !config.dynamo_db.enabled && !config.migration_api.enabled {
        return Err(String::from_str("At least one test type must be enabled in the configuration"));
    }
    match config.globals.validate() {
        Ok(()) => Ok(()),
        Err(m) => Err(m),
    }
}

} // verus!
