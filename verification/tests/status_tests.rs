use tiger_claw::orchestration_status::{
    encode_status, Lifecycle, MigrationStatus, OrchestatorStatusReturn, OrchestratorError,
    StepDescriptor,
};
use tiger_claw::orchestration_status::Lifecycle::{Done, Error, Running};
use tiger_claw::orchestration_status::StepDescriptor::{
    Adv, Com, Creative, Fee, Feed, Init, MemTag, Pub, Sf, Track, Valid, Vouch,
};

fn all_pairs() -> Vec<(StepDescriptor, Lifecycle, MigrationStatus)> {
    let ctx = StepDescriptor::Track;
    vec![
        (Init, Done, MigrationStatus::InitDone(ctx)),
        (Init, Error, MigrationStatus::InitErr(ctx)),
        (Init, Running, MigrationStatus::InitRun(ctx)),
        (Valid, Running, MigrationStatus::ValidRun(ctx)),
        (Valid, Done, MigrationStatus::ValidDone(ctx)),
        (Valid, Error, MigrationStatus::ValidErr(ctx)),
        (Sf, Running, MigrationStatus::SfRun(ctx)),
        (Sf, Done, MigrationStatus::SfDone(ctx)),
        (Sf, Error, MigrationStatus::SfErr(ctx)),
        (Adv, Running, MigrationStatus::AdvRun(ctx)),
        (Adv, Done, MigrationStatus::AdvDone(ctx)),
        (Adv, Error, MigrationStatus::AdvErr(ctx)),
        (Pub, Running, MigrationStatus::PubRun(ctx)),
        (Pub, Done, MigrationStatus::PubDone(ctx)),
        (Pub, Error, MigrationStatus::PubErr(ctx)),
        (Track, Running, MigrationStatus::TrackRun(ctx)),
        (Track, Done, MigrationStatus::TrackDone(ctx)),
        (Track, Error, MigrationStatus::TrackErr(ctx)),
        (Vouch, Running, MigrationStatus::VouchRun(ctx)),
        (Vouch, Done, MigrationStatus::VouchDone(ctx)),
        (Vouch, Error, MigrationStatus::VouchErr(ctx)),
        (MemTag, Running, MigrationStatus::MemTagRun(ctx)),
        (MemTag, Done, MigrationStatus::MemTagDone(ctx)),
        (MemTag, Error, MigrationStatus::MemTagErr(ctx)),
        (Com, Running, MigrationStatus::ComRun(ctx)),
        (Com, Done, MigrationStatus::ComDone(ctx)),
        (Com, Error, MigrationStatus::ComErr(ctx)),
        (Fee, Running, MigrationStatus::FeeRun(ctx)),
        (Fee, Done, MigrationStatus::FeeDone(ctx)),
        (Fee, Error, MigrationStatus::FeeErr(ctx)),
        (Feed, Running, MigrationStatus::FeedRun(ctx)),
        (Feed, Done, MigrationStatus::FeedDone(ctx)),
        (Feed, Error, MigrationStatus::FeedErr(ctx)),
        (Creative, Running, MigrationStatus::CreativeRun(ctx)),
        (Creative, Done, MigrationStatus::CreativeDone(ctx)),
        (Creative, Error, MigrationStatus::CreativeErr(ctx)),
    ]
}

#[test]
fn round_trip_all_36_tokens() {
    let pairs = all_pairs();
    assert_eq!(pairs.len(), 36);
    for (phase, lifecycle, expected) in pairs {
        let token = encode_status(phase, lifecycle);
        let decoded = MigrationStatus::from_string(token.as_str(), StepDescriptor::Track);
        assert_eq!(decoded, Some(expected), "token {}", token);
    }
}

#[test]
fn round_trip_survives_lower_casing() {
    for (phase, lifecycle, expected) in all_pairs() {
        let token = encode_status(phase, lifecycle).to_lowercase();
        let decoded = MigrationStatus::from_string(token.as_str(), StepDescriptor::Track);
        assert_eq!(decoded, Some(expected), "token {}", token);
    }
}

#[test]
fn decode_is_case_insensitive() {
    let a = MigrationStatus::from_string("init_done", StepDescriptor::Init);
    let b = MigrationStatus::from_string("INIT_DONE", StepDescriptor::Init);
    assert_eq!(a, b);
    assert_eq!(a, Some(MigrationStatus::InitDone(StepDescriptor::Init)));
    let c = MigrationStatus::from_string("Mem_Tag_Err", StepDescriptor::Feed);
    assert_eq!(c, Some(MigrationStatus::MemTagErr(StepDescriptor::Feed)));
}

#[test]
fn decode_unknown_token_fails() {
    assert_eq!(MigrationStatus::from_string("Pending", StepDescriptor::Init), None);
    assert_eq!(MigrationStatus::from_string("", StepDescriptor::Init), None);
    assert_eq!(MigrationStatus::from_string("INIT_DONE_", StepDescriptor::Init), None);
    assert_eq!(MigrationStatus::from_string("INIT", StepDescriptor::Init), None);
    assert_eq!(StepDescriptor::from_string("INIT_DONE"), None);
    assert_eq!(StepDescriptor::from_string("nonsense"), None);
}

#[test]
fn step_tokens_decode_back() {
    for step in [Init, Valid, Sf, Adv, Pub, Track, Vouch, MemTag, Com, Fee, Feed, Creative] {
        assert_eq!(StepDescriptor::from_string(step.token()), Some(step));
        assert_eq!(StepDescriptor::from_string(&step.token().to_lowercase()), Some(step));
    }
    assert_eq!(StepDescriptor::from_string("MEM_TAG"), Some(MemTag));
    assert_eq!(StepDescriptor::from_string("adv"), Some(Adv));
}

#[test]
fn lifecycle_tokens() {
    assert_eq!(Lifecycle::Running.token(), "RUN");
    assert_eq!(Lifecycle::Done.token(), "DONE");
    assert_eq!(Lifecycle::Error.token(), "ERR");
    assert_eq!(encode_status(StepDescriptor::MemTag, Lifecycle::Done), "MEM_TAG_DONE");
    assert_eq!(encode_status(StepDescriptor::Sf, Lifecycle::Running), "SF_RUN");
}

#[test]
fn error_messages() {
    assert_eq!(
        OrchestratorError::InvalidAdvertiserId.message(),
        "Advertiser ID must be greater than 0"
    );
    assert_eq!(
        OrchestratorError::InvalidStep.message(),
        "Unsupported orchestration step token"
    );
    assert_eq!(
        OrchestratorError::RequestError("timed out".to_string()).message(),
        "Request error: timed out"
    );
    assert_eq!(
        OrchestratorError::ParseError("bad json".to_string()).message(),
        "Failed to parse response: bad json"
    );
    let body = OrchestatorStatusReturn {
        timestamp: "2024-01-01T00:00:00Z".to_string(),
        status: 404,
        error: "Not Found".to_string(),
        path: "/migrate".to_string(),
    };
    assert_eq!(
        OrchestratorError::NotFound(body).message(),
        "Advertiser not found: Not Found"
    );
    assert_eq!(
        OrchestratorError::Unauthorized.message(),
        "Unauthorized access: Invalid JWT token"
    );
    assert_eq!(
        OrchestratorError::UnexpectedStatus(503).message(),
        "Unexpected status code: 503"
    );
}
