use tiger_claw::config::{
    DynamoDbConfig, GlobalConfig, MigrationApiConfig, OrchestrationConfig, SasDataImportConfig,
    TestConfig,
};
use tiger_claw::orchestration_status::{OrchestatorStatusReturn, OrchestratorError, StepDescriptor};
use tiger_claw::orchestrator::{
    classify_execute_response, classify_force_response, execute_step_endpoint, force_status_body,
    force_status_endpoint, is_success_class, Action, Controller, ControllerState, TransportEvent,
};

fn config(external_id: Option<i32>, step_to_run: &str, force_run: bool, force_to: &str) -> TestConfig {
    TestConfig {
        orchestration: OrchestrationConfig {
            enabled: true,
            step_to_run: step_to_run.to_string(),
            step_status_to_force: force_to.to_string(),
            force_run,
        },
        sas_data_import: SasDataImportConfig { enabled: false },
        dynamo_db: DynamoDbConfig { enabled: false },
        globals: GlobalConfig {
            advertiser_id: None,
            external_id,
            migration_name: Some("sas".to_string()),
            environment: "dev".to_string(),
            base_growth_migration_url: "http://example.com".to_string(),
            base_growth_migration_port: 8080,
            base_sas_data_import_url: "http://example.com".to_string(),
            base_sas_data_import_port: 8181,
        },
        migration_api: MigrationApiConfig { enabled: false },
    }
}

fn response(code: u16) -> TransportEvent {
    TransportEvent::Response { code, not_found_body: Err(String::new()) }
}

fn status_body() -> OrchestatorStatusReturn {
    OrchestatorStatusReturn {
        timestamp: "2024-05-05T10:00:00Z".to_string(),
        status: 404,
        error: "Not Found".to_string(),
        path: "/migrate/sas/advertiser/98765/execute-step/ADV".to_string(),
    }
}

#[test]
fn endpoints_are_wire_exact() {
    assert_eq!(
        execute_step_endpoint(98765, StepDescriptor::Adv),
        "migrate/sas/advertiser/98765/execute-step/ADV"
    );
    assert_eq!(
        execute_step_endpoint(1, StepDescriptor::MemTag),
        "migrate/sas/advertiser/1/execute-step/MEM_TAG"
    );
    assert_eq!(force_status_endpoint(424242), "migrate/sas/advertiser/424242/status");
    assert_eq!(force_status_body("COMPLETED"), "{\"force_status\": \"COMPLETED\"}");
    assert_eq!(force_status_body("INIT_DONE"), "{\"force_status\": \"INIT_DONE\"}");
}

#[test]
fn classification_follows_the_status_table() {
    assert_eq!(classify_execute_response(response(200)), Ok(200));
    assert_eq!(
        classify_execute_response(response(401)),
        Err(OrchestratorError::Unauthorized)
    );
    assert_eq!(
        classify_execute_response(response(500)),
        Err(OrchestratorError::UnexpectedStatus(500))
    );
    assert_eq!(
        classify_execute_response(response(202)),
        Err(OrchestratorError::UnexpectedStatus(202))
    );
    assert_eq!(
        classify_execute_response(TransportEvent::Failure { cause: "refused".to_string() }),
        Err(OrchestratorError::RequestError("refused".to_string()))
    );

    let b = status_body();
    assert_eq!(
        classify_execute_response(TransportEvent::Response {
            code: 404,
            not_found_body: Ok(status_body()),
        }),
        Err(OrchestratorError::NotFound(b))
    );
    assert_eq!(
        classify_execute_response(TransportEvent::Response {
            code: 404,
            not_found_body: Err("missing field `status`".to_string()),
        }),
        Err(OrchestratorError::ParseError("missing field `status`".to_string()))
    );

    assert_eq!(classify_force_response(response(200)), Ok(200));
    assert_eq!(classify_force_response(response(202)), Ok(202));
    assert_eq!(classify_force_response(response(204)), Ok(204));
    assert_eq!(
        classify_force_response(response(401)),
        Err(OrchestratorError::Unauthorized)
    );
    assert_eq!(
        classify_force_response(response(418)),
        Err(OrchestratorError::UnexpectedStatus(418))
    );
}

#[test]
fn success_class_boundaries() {
    assert!(is_success_class(200));
    assert!(is_success_class(204));
    assert!(is_success_class(299));
    assert!(!is_success_class(199));
    assert!(!is_success_class(300));
    assert!(!is_success_class(404));
}

#[test]
fn negative_id_aborts_with_zero_calls() {
    let mut c = Controller::new(&config(Some(-5), "ADV", false, ""));
    let action = c.start();
    match action {
        Action::Report(report) => {
            assert_eq!(report.step_result, Err(OrchestratorError::InvalidAdvertiserId));
            assert_eq!(report.init_result, None);
            assert_eq!(report.force_result, None);
        }
        other => panic!("expected an immediate report, got {:?}", other),
    }
    assert_eq!(c.state, ControllerState::Finished);
}

#[test]
fn absent_and_zero_ids_abort_too() {
    for id in [None, Some(0)] {
        let mut c = Controller::new(&config(id, "ADV", false, ""));
        match c.start() {
            Action::Report(report) => {
                assert_eq!(report.step_result, Err(OrchestratorError::InvalidAdvertiserId));
            }
            other => panic!("expected an immediate report, got {:?}", other),
        }
    }
}

#[test]
fn unknown_step_token_aborts_before_any_call() {
    let mut c = Controller::new(&config(Some(7), "NOT_A_STEP", false, ""));
    match c.start() {
        Action::Report(report) => {
            assert_eq!(report.step_result, Err(OrchestratorError::InvalidStep));
        }
        other => panic!("expected an immediate report, got {:?}", other),
    }
}

#[test]
fn lookup_failure_runs_init_once_before_requested_step() {
    let mut c = Controller::new(&config(Some(7), "PUB", false, ""));
    assert_eq!(c.start(), Action::LookupAdvertiser { external_id: 7 });
    // The gateway stub reports not-found: the controller must initialize.
    assert_eq!(
        c.on_lookup(false),
        Action::ExecuteStep { external_id: 7, step: StepDescriptor::Init }
    );
    // Whatever the init outcome, the next action is the requested step.
    assert_eq!(
        c.on_response(response(500)),
        Action::ExecuteStep { external_id: 7, step: StepDescriptor::Pub }
    );
    match c.on_response(response(200)) {
        Action::Report(report) => {
            assert_eq!(report.init_result, Some(Err(OrchestratorError::UnexpectedStatus(500))));
            assert_eq!(report.force_result, None);
            assert_eq!(report.step_result, Ok(200));
        }
        other => panic!("expected the final report, got {:?}", other),
    }
}

#[test]
fn found_record_skips_init_and_succeeds() {
    // external_id 98765, phase ADV, force disabled, record found, step 200.
    let mut c = Controller::new(&config(Some(98765), "ADV", false, ""));
    assert_eq!(c.start(), Action::LookupAdvertiser { external_id: 98765 });
    assert_eq!(
        c.on_lookup(true),
        Action::ExecuteStep { external_id: 98765, step: StepDescriptor::Adv }
    );
    match c.on_response(response(200)) {
        Action::Report(report) => {
            assert_eq!(report.init_result, None);
            assert_eq!(report.force_result, None);
            assert_eq!(report.step_result, Ok(200));
        }
        other => panic!("expected the final report, got {:?}", other),
    }
    assert_eq!(c.state, ControllerState::Finished);
}

#[test]
fn forced_override_records_success_and_step_still_runs() {
    // Force enabled with target COMPLETED; the force call returns 202, and
    // the requested step still executes independently.
    let mut c = Controller::new(&config(Some(11), "FEED", true, "COMPLETED"));
    assert_eq!(c.start(), Action::LookupAdvertiser { external_id: 11 });
    assert_eq!(
        c.on_lookup(true),
        Action::ForceStatus { external_id: 11, status_token: "COMPLETED".to_string() }
    );
    assert_eq!(
        c.on_response(response(202)),
        Action::ExecuteStep { external_id: 11, step: StepDescriptor::Feed }
    );
    match c.on_response(response(200)) {
        Action::Report(report) => {
            assert_eq!(report.init_result, None);
            assert_eq!(report.force_result, Some(Ok(202)));
            assert_eq!(report.step_result, Ok(200));
        }
        other => panic!("expected the final report, got {:?}", other),
    }
}

#[test]
fn unauthorized_step_is_surfaced_and_run_ends() {
    let mut c = Controller::new(&config(Some(3), "SF", false, ""));
    c.start();
    c.on_lookup(true);
    match c.on_response(response(401)) {
        Action::Report(report) => {
            assert_eq!(report.step_result, Err(OrchestratorError::Unauthorized));
        }
        other => panic!("expected the final report, got {:?}", other),
    }
    assert_eq!(c.state, ControllerState::Finished);
}

#[test]
fn not_found_body_fields_come_through_unchanged() {
    let mut c = Controller::new(&config(Some(98765), "ADV", false, ""));
    c.start();
    c.on_lookup(true);
    let ev = TransportEvent::Response { code: 404, not_found_body: Ok(status_body()) };
    match c.on_response(ev) {
        Action::Report(report) => match report.step_result {
            Err(OrchestratorError::NotFound(b)) => {
                assert_eq!(b.timestamp, "2024-05-05T10:00:00Z");
                assert_eq!(b.status, 404);
                assert_eq!(b.error, "Not Found");
                assert_eq!(b.path, "/migrate/sas/advertiser/98765/execute-step/ADV");
            }
            other => panic!("expected a not-found outcome, got {:?}", other),
        },
        other => panic!("expected the final report, got {:?}", other),
    }
}

#[test]
fn malformed_not_found_body_is_a_distinct_error() {
    let mut c = Controller::new(&config(Some(5), "COM", false, ""));
    c.start();
    c.on_lookup(true);
    let ev = TransportEvent::Response { code: 404, not_found_body: Err("EOF".to_string()) };
    match c.on_response(ev) {
        Action::Report(report) => {
            assert_eq!(report.step_result, Err(OrchestratorError::ParseError("EOF".to_string())));
        }
        other => panic!("expected the final report, got {:?}", other),
    }
}
