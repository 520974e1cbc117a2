//! The status model: the closed catalogue of workflow phases, the lifecycle
//! states that qualify them, and the case-insensitive decoding and encoding of
//! `"<PHASE>_<LIFECYCLE>"` status tokens.
use vstd::prelude::*;

use crate::text::{spec_udec, token_matches, u64_to_dec, upper_seq};

verus! {

/// One named stage of the migration pipeline, in canonical execution order.
#[derive(Debug, Clone, Copy, PartialEq, Eq, Structural)]
pub enum StepDescriptor {
    Init,
    Valid,
    Sf,
    Adv,
    Pub,
    Track,
    Vouch,
    MemTag,
    Com,
    Fee,
    Feed,
    Creative,
}

/// The disposition of one phase: still running, finished, or failed.
#[derive(Debug, Clone, Copy, PartialEq, Eq, Structural)]
pub enum Lifecycle {
    Running,
    Done,
    Error,
}

/// The (phase, lifecycle) pair describing an advertiser's workflow position.
/// The variant names the phase and lifecycle encoded by the status token; the
/// payload carries the phase context supplied by the caller at decode time.
#[derive(Debug, Clone, Copy, PartialEq, Eq, Structural)]
pub enum MigrationStatus {
    InitDone(StepDescriptor),
    InitErr(StepDescriptor),
    InitRun(StepDescriptor),
    ValidRun(StepDescriptor),
    ValidDone(StepDescriptor),
    ValidErr(StepDescriptor),
    SfRun(StepDescriptor),
    SfDone(StepDescriptor),
    SfErr(StepDescriptor),
    AdvRun(StepDescriptor),
    AdvDone(StepDescriptor),
    AdvErr(StepDescriptor),
    PubRun(StepDescriptor),
    PubDone(StepDescriptor),
    PubErr(StepDescriptor),
    TrackRun(StepDescriptor),
    TrackDone(StepDescriptor),
    TrackErr(StepDescriptor),
    VouchRun(StepDescriptor),
    VouchDone(StepDescriptor),
    VouchErr(StepDescriptor),
    MemTagRun(StepDescriptor),
    MemTagDone(StepDescriptor),
    MemTagErr(StepDescriptor),
    ComRun(StepDescriptor),
    ComDone(StepDescriptor),
    ComErr(StepDescriptor),
    FeeRun(StepDescriptor),
    FeeDone(StepDescriptor),
    FeeErr(StepDescriptor),
    FeedRun(StepDescriptor),
    FeedDone(StepDescriptor),
    FeedErr(StepDescriptor),
    CreativeRun(StepDescriptor),
    CreativeDone(StepDescriptor),
    CreativeErr(StepDescriptor),
}

/// The upper-case token naming one phase.
pub open spec fn spec_step_token(p: StepDescriptor) -> Seq<char> {
    match p {
        StepDescriptor::Init => "INIT"@,
        StepDescriptor::Valid => "VALID"@,
        StepDescriptor::Sf => "SF"@,
        StepDescriptor::Adv => "ADV"@,
        StepDescriptor::Pub => "PUB"@,
        StepDescriptor::Track => "TRACK"@,
        StepDescriptor::Vouch => "VOUCH"@,
        StepDescriptor::MemTag => "MEM_TAG"@,
        StepDescriptor::Com => "COM"@,
        StepDescriptor::Fee => "FEE"@,
        StepDescriptor::Feed => "FEED"@,
        StepDescriptor::Creative => "CREATIVE"@,
    }
}

/// The upper-case token naming one lifecycle state.
pub open spec fn spec_lifecycle_token(l: Lifecycle) -> Seq<char> {
    match l {
        Lifecycle::Running => "RUN"@,
        Lifecycle::Done => "DONE"@,
        Lifecycle::Error => "ERR"@,
    }
}

/// The full status token for a (phase, lifecycle) pair.
pub open spec fn spec_status_token(p: StepDescriptor, l: Lifecycle) -> Seq<char> {
    match (p, l) {
        (StepDescriptor::Init, Lifecycle::Done) => "INIT_DONE"@,
        (StepDescriptor::Init, Lifecycle::Error) => "INIT_ERR"@,
        (StepDescriptor::Init, Lifecycle::Running) => "INIT_RUN"@,
        (StepDescriptor::Valid, Lifecycle::Running) => "VALID_RUN"@,
        (StepDescriptor::Valid, Lifecycle::Done) => "VALID_DONE"@,
        (StepDescriptor::Valid, Lifecycle::Error) => "VALID_ERR"@,
        (StepDescriptor::Sf, Lifecycle::Running) => "SF_RUN"@,
        (StepDescriptor::Sf, Lifecycle::Done) => "SF_DONE"@,
        (StepDescriptor::Sf, Lifecycle::Error) => "SF_ERR"@,
        (StepDescriptor::Adv, Lifecycle::Running) => "ADV_RUN"@,
        (StepDescriptor::Adv, Lifecycle::Done) => "ADV_DONE"@,
        (StepDescriptor::Adv, Lifecycle::Error) => "ADV_ERR"@,
        (StepDescriptor::Pub, Lifecycle::Running) => "PUB_RUN"@,
        (StepDescriptor::Pub, Lifecycle::Done) => "PUB_DONE"@,
        (StepDescriptor::Pub, Lifecycle::Error) => "PUB_ERR"@,
        (StepDescriptor::Track, Lifecycle::Running) => "TRACK_RUN"@,
        (StepDescriptor::Track, Lifecycle::Done) => "TRACK_DONE"@,
        (StepDescriptor::Track, Lifecycle::Error) => "TRACK_ERR"@,
        (StepDescriptor::Vouch, Lifecycle::Running) => "VOUCH_RUN"@,
        (StepDescriptor::Vouch, Lifecycle::Done) => "VOUCH_DONE"@,
        (StepDescriptor::Vouch, Lifecycle::Error) => "VOUCH_ERR"@,
        (StepDescriptor::MemTag, Lifecycle::Running) => "MEM_TAG_RUN"@,
        (StepDescriptor::MemTag, Lifecycle::Done) => "MEM_TAG_DONE"@,
        (StepDescriptor::MemTag, Lifecycle::Error) => "MEM_TAG_ERR"@,
        (StepDescriptor::Com, Lifecycle::Running) => "COM_RUN"@,
        (StepDescriptor::Com, Lifecycle::Done) => "COM_DONE"@,
        (StepDescriptor::Com, Lifecycle::Error) => "COM_ERR"@,
        (StepDescriptor::Fee, Lifecycle::Running) => "FEE_RUN"@,
        (StepDescriptor::Fee, Lifecycle::Done) => "FEE_DONE"@,
        (StepDescriptor::Fee, Lifecycle::Error) => "FEE_ERR"@,
        (StepDescriptor::Feed, Lifecycle::Running) => "FEED_RUN"@,
        (StepDescriptor::Feed, Lifecycle::Done) => "FEED_DONE"@,
        (StepDescriptor::Feed, Lifecycle::Error) => "FEED_ERR"@,
        (StepDescriptor::Creative, Lifecycle::Running) => "CREATIVE_RUN"@,
        (StepDescriptor::Creative, Lifecycle::Done) => "CREATIVE_DONE"@,
        (StepDescriptor::Creative, Lifecycle::Error) => "CREATIVE_ERR"@,
    }
}

/// The status value that a (phase, lifecycle) pair decodes to, given the
/// phase context `ctx` supplied by the caller.
pub open spec fn spec_status_of(
    p: StepDescriptor,
    l: Lifecycle,
    ctx: StepDescriptor,
) -> MigrationStatus {
    match (p, l) {
        (StepDescriptor::Init, Lifecycle::Done) => MigrationStatus::InitDone(ctx),
        (StepDescriptor::Init, Lifecycle::Error) => MigrationStatus::InitErr(ctx),
        (StepDescriptor::Init, Lifecycle::Running) => MigrationStatus::InitRun(ctx),
        (StepDescriptor::Valid, Lifecycle::Running) => MigrationStatus::ValidRun(ctx),
        (StepDescriptor::Valid, Lifecycle::Done) => MigrationStatus::ValidDone(ctx),
        (StepDescriptor::Valid, Lifecycle::Error) => MigrationStatus::ValidErr(ctx),
        (StepDescriptor::Sf, Lifecycle::Running) => MigrationStatus::SfRun(ctx),
        (StepDescriptor::Sf, Lifecycle::Done) => MigrationStatus::SfDone(ctx),
        (StepDescriptor::Sf, Lifecycle::Error) => MigrationStatus::SfErr(ctx),
        (StepDescriptor::Adv, Lifecycle::Running) => MigrationStatus::AdvRun(ctx),
        (StepDescriptor::Adv, Lifecycle::Done) => MigrationStatus::AdvDone(ctx),
        (StepDescriptor::Adv, Lifecycle::Error) => MigrationStatus::AdvErr(ctx),
        (StepDescriptor::Pub, Lifecycle::Running) => MigrationStatus::PubRun(ctx),
        (StepDescriptor::Pub, Lifecycle::Done) => MigrationStatus::PubDone(ctx),
        (StepDescriptor::Pub, Lifecycle::Error) => MigrationStatus::PubErr(ctx),
        (StepDescriptor::Track, Lifecycle::Running) => MigrationStatus::TrackRun(ctx),
        (StepDescriptor::Track, Lifecycle::Done) => MigrationStatus::TrackDone(ctx),
        (StepDescriptor::Track, Lifecycle::Error) => MigrationStatus::TrackErr(ctx),
        (StepDescriptor::Vouch, Lifecycle::Running) => MigrationStatus::VouchRun(ctx),
        (StepDescriptor::Vouch, Lifecycle::Done) => MigrationStatus::VouchDone(ctx),
        (StepDescriptor::Vouch, Lifecycle::Error) => MigrationStatus::VouchErr(ctx),
        (StepDescriptor::MemTag, Lifecycle::Running) => MigrationStatus::MemTagRun(ctx),
        (StepDescriptor::MemTag, Lifecycle::Done) => MigrationStatus::MemTagDone(ctx),
        (StepDescriptor::MemTag, Lifecycle::Error) => MigrationStatus::MemTagErr(ctx),
        (StepDescriptor::Com, Lifecycle::Running) => MigrationStatus::ComRun(ctx),
        (StepDescriptor::Com, Lifecycle::Done) => MigrationStatus::ComDone(ctx),
        (StepDescriptor::Com, Lifecycle::Error) => MigrationStatus::ComErr(ctx),
        (StepDescriptor::Fee, Lifecycle::Running) => MigrationStatus::FeeRun(ctx),
        (StepDescriptor::Fee, Lifecycle::Done) => MigrationStatus::FeeDone(ctx),
        (StepDescriptor::Fee, Lifecycle::Error) => MigrationStatus::FeeErr(ctx),
        (StepDescriptor::Feed, Lifecycle::Running) => MigrationStatus::FeedRun(ctx),
        (StepDescriptor::Feed, Lifecycle::Done) => MigrationStatus::FeedDone(ctx),
        (StepDescriptor::Feed, Lifecycle::Error) => MigrationStatus::FeedErr(ctx),
        (StepDescriptor::Creative, Lifecycle::Running) => MigrationStatus::CreativeRun(ctx),
        (StepDescriptor::Creative, Lifecycle::Done) => MigrationStatus::CreativeDone(ctx),
        (StepDescriptor::Creative, Lifecycle::Error) => MigrationStatus::CreativeErr(ctx),
    }
}

/// Case-insensitive decoding of a phase token.
pub open spec fn spec_decode_step(s: Seq<char>) -> Option<StepDescriptor> {
    let u = upper_seq(s);
    if u == "INIT"@ {
        Some(StepDescriptor::Init)
    } else if u == "VALID"@ {
        Some(StepDescriptor::Valid)
    } else if u == "SF"@ {
        Some(StepDescriptor::Sf)
    } else if u == "ADV"@ {
        Some(StepDescriptor::Adv)
    } else if u == "PUB"@ {
        Some(StepDescriptor::Pub)
    } else if u == "TRACK"@ {
        Some(StepDescriptor::Track)
    } else if u == "VOUCH"@ {
        Some(StepDescriptor::Vouch)
    } else if u == "MEM_TAG"@ {
        Some(StepDescriptor::MemTag)
    } else if u == "COM"@ {
        Some(StepDescriptor::Com)
    } else if u == "FEE"@ {
        Some(StepDescriptor::Fee)
    } else if u == "FEED"@ {
        Some(StepDescriptor::Feed)
    } else if u == "CREATIVE"@ {
        Some(StepDescriptor::Creative)
    } else {
        None
    }
}

/// Case-insensitive decoding of a full status token, given the phase context
/// `ctx`; `None` exactly when the token is outside the closed vocabulary.
pub open spec fn spec_decode_status(s: Seq<char>, ctx: StepDescriptor) -> Option<MigrationStatus> {
    let u = upper_seq(s);
    if u == "INIT_DONE"@ {
        Some(MigrationStatus::InitDone(ctx))
    } else if u == "INIT_ERR"@ {
        Some(MigrationStatus::InitErr(ctx))
    } else if u == "INIT_RUN"@ {
        Some(MigrationStatus::InitRun(ctx))
    } else if u == "VALID_RUN"@ {
        Some(MigrationStatus::ValidRun(ctx))
    } else if u == "VALID_DONE"@ {
        Some(MigrationStatus::ValidDone(ctx))
    } else if u == "VALID_ERR"@ {
        Some(MigrationStatus::ValidErr(ctx))
    } else if u == "SF_RUN"@ {
        Some(MigrationStatus::SfRun(ctx))
    } else if u == "SF_DONE"@ {
        Some(MigrationStatus::SfDone(ctx))
    } else if u == "SF_ERR"@ {
        Some(MigrationStatus::SfErr(ctx))
    } else if u == "ADV_RUN"@ {
        Some(MigrationStatus::AdvRun(ctx))
    } else if u == "ADV_DONE"@ {
        Some(MigrationStatus::AdvDone(ctx))
    } else if u == "ADV_ERR"@ {
        Some(MigrationStatus::AdvErr(ctx))
    } else if u == "PUB_RUN"@ {
        Some(MigrationStatus::PubRun(ctx))
    } else if u == "PUB_DONE"@ {
        Some(MigrationStatus::PubDone(ctx))
    } else if u == "PUB_ERR"@ {
        Some(MigrationStatus::PubErr(ctx))
    } else if u == "TRACK_RUN"@ {
        Some(MigrationStatus::TrackRun(ctx))
    } else if u == "TRACK_DONE"@ {
        Some(MigrationStatus::TrackDone(ctx))
    } else if u == "TRACK_ERR"@ {
        Some(MigrationStatus::TrackErr(ctx))
    } else if u == "VOUCH_RUN"@ {
        Some(MigrationStatus::VouchRun(ctx))
    } else if u == "VOUCH_DONE"@ {
        Some(MigrationStatus::VouchDone(ctx))
    } else if u == "VOUCH_ERR"@ {
        Some(MigrationStatus::VouchErr(ctx))
    } else if u == "MEM_TAG_RUN"@ {
        Some(MigrationStatus::MemTagRun(ctx))
    } else if u == "MEM_TAG_DONE"@ {
        Some(MigrationStatus::MemTagDone(ctx))
    } else if u == "MEM_TAG_ERR"@ {
        Some(MigrationStatus::MemTagErr(ctx))
    } else if u == "COM_RUN"@ {
        Some(MigrationStatus::ComRun(ctx))
    } else if u == "COM_DONE"@ {
        Some(MigrationStatus::ComDone(ctx))
    } else if u == "COM_ERR"@ {
        Some(MigrationStatus::ComErr(ctx))
    } else if u == "FEE_RUN"@ {
        Some(MigrationStatus::FeeRun(ctx))
    } else if u == "FEE_DONE"@ {
        Some(MigrationStatus::FeeDone(ctx))
    } else if u == "FEE_ERR"@ {
        Some(MigrationStatus::FeeErr(ctx))
    } else if u == "FEED_RUN"@ {
        Some(MigrationStatus::FeedRun(ctx))
    } else if u == "FEED_DONE"@ {
        Some(MigrationStatus::FeedDone(ctx))
    } else if u == "FEED_ERR"@ {
        Some(MigrationStatus::FeedErr(ctx))
    } else if u == "CREATIVE_RUN"@ {
        Some(MigrationStatus::CreativeRun(ctx))
    } else if u == "CREATIVE_DONE"@ {
        Some(MigrationStatus::CreativeDone(ctx))
    } else if u == "CREATIVE_ERR"@ {
        Some(MigrationStatus::CreativeErr(ctx))
    } else {
        None
    }
}

/// Law: decoding sees only the ASCII upper-casing of its input, so any two
/// inputs with the same upper-casing decode to the same result, for phase
/// tokens and for full status tokens alike.
pub proof fn lemma_decode_case_insensitive(s: Seq<char>, t: Seq<char>, ctx: StepDescriptor)
    requires
        upper_seq(s) == upper_seq(t),
    ensures
        spec_decode_status(s, ctx) == spec_decode_status(t, ctx),
        spec_decode_step(s) == spec_decode_step(t),
{
}

/// Law: every one of the 36 valid (phase, lifecycle) token pairs decodes
/// back to the pair that was encoded, carrying the supplied phase context.
pub proof fn lemma_status_token_round_trip(p: StepDescriptor, l: Lifecycle, ctx: StepDescriptor)
    ensures
        spec_decode_status(spec_status_token(p, l), ctx) == Some(spec_status_of(p, l, ctx)),
{
    reveal_strlit("INIT_DONE");
    reveal_strlit("INIT_ERR");
    reveal_strlit("INIT_RUN");
    reveal_strlit("VALID_RUN");
    reveal_strlit("VALID_DONE");
    reveal_strlit("VALID_ERR");
    reveal_strlit("SF_RUN");
    reveal_strlit("SF_DONE");
    reveal_strlit("SF_ERR");
    reveal_strlit("ADV_RUN");
    reveal_strlit("ADV_DONE");
    reveal_strlit("ADV_ERR");
    reveal_strlit("PUB_RUN");
    reveal_strlit("PUB_DONE");
    reveal_strlit("PUB_ERR");
    reveal_strlit("TRACK_RUN");
    reveal_strlit("TRACK_DONE");
    reveal_strlit("TRACK_ERR");
    reveal_strlit("VOUCH_RUN");
    reveal_strlit("VOUCH_DONE");
    reveal_strlit("VOUCH_ERR");
    reveal_strlit("MEM_TAG_RUN");
    reveal_strlit("MEM_TAG_DONE");
    reveal_strlit("MEM_TAG_ERR");
    reveal_strlit("COM_RUN");
    reveal_strlit("COM_DONE");
    reveal_strlit("COM_ERR");
    reveal_strlit("FEE_RUN");
    reveal_strlit("FEE_DONE");
    reveal_strlit("FEE_ERR");
    reveal_strlit("FEED_RUN");
    reveal_strlit("FEED_DONE");
    reveal_strlit("FEED_ERR");
    reveal_strlit("CREATIVE_RUN");
    reveal_strlit("CREATIVE_DONE");
    reveal_strlit("CREATIVE_ERR");
    // Every token is its own upper-casing, so decoding sees it unchanged.
    assert(upper_seq("INIT_DONE"@) =~= "INIT_DONE"@);
    assert(upper_seq("INIT_ERR"@) =~= "INIT_ERR"@);
    assert(upper_seq("INIT_RUN"@) =~= "INIT_RUN"@);
    assert(upper_seq("VALID_RUN"@) =~= "VALID_RUN"@);
    assert(upper_seq("VALID_DONE"@) =~= "VALID_DONE"@);
    assert(upper_seq("VALID_ERR"@) =~= "VALID_ERR"@);
    assert(upper_seq("SF_RUN"@) =~= "SF_RUN"@);
    assert(upper_seq("SF_DONE"@) =~= "SF_DONE"@);
    assert(upper_seq("SF_ERR"@) =~= "SF_ERR"@);
    assert(upper_seq("ADV_RUN"@) =~= "ADV_RUN"@);
    assert(upper_seq("ADV_DONE"@) =~= "ADV_DONE"@);
    assert(upper_seq("ADV_ERR"@) =~= "ADV_ERR"@);
    assert(upper_seq("PUB_RUN"@) =~= "PUB_RUN"@);
    assert(upper_seq("PUB_DONE"@) =~= "PUB_DONE"@);
    assert(upper_seq("PUB_ERR"@) =~= "PUB_ERR"@);
    assert(upper_seq("TRACK_RUN"@) =~= "TRACK_RUN"@);
    assert(upper_seq("TRACK_DONE"@) =~= "TRACK_DONE"@);
    assert(upper_seq("TRACK_ERR"@) =~= "TRACK_ERR"@);
    assert(upper_seq("VOUCH_RUN"@) =~= "VOUCH_RUN"@);
    assert(upper_seq("VOUCH_DONE"@) =~= "VOUCH_DONE"@);
    assert(upper_seq("VOUCH_ERR"@) =~= "VOUCH_ERR"@);
    assert(upper_seq("MEM_TAG_RUN"@) =~= "MEM_TAG_RUN"@);
    assert(upper_seq("MEM_TAG_DONE"@) =~= "MEM_TAG_DONE"@);
    assert(upper_seq("MEM_TAG_ERR"@) =~= "MEM_TAG_ERR"@);
    assert(upper_seq("COM_RUN"@) =~= "COM_RUN"@);
    assert(upper_seq("COM_DONE"@) =~= "COM_DONE"@);
    assert(upper_seq("COM_ERR"@) =~= "COM_ERR"@);
    assert(upper_seq("FEE_RUN"@) =~= "FEE_RUN"@);
    assert(upper_seq("FEE_DONE"@) =~= "FEE_DONE"@);
    assert(upper_seq("FEE_ERR"@) =~= "FEE_ERR"@);
    assert(upper_seq("FEED_RUN"@) =~= "FEED_RUN"@);
    assert(upper_seq("FEED_DONE"@) =~= "FEED_DONE"@);
    assert(upper_seq("FEED_ERR"@) =~= "FEED_ERR"@);
    assert(upper_seq("CREATIVE_RUN"@) =~= "CREATIVE_RUN"@);
    assert(upper_seq("CREATIVE_DONE"@) =~= "CREATIVE_DONE"@);
    assert(upper_seq("CREATIVE_ERR"@) =~= "CREATIVE_ERR"@);
    // Spelling out each token's length and characters lets the solver tell
    // any two same-length tokens apart when it walks the decode chain.
    assert("INIT_DONE"@.len() == 9 && "INIT_DONE"@[0] == 'I' && "INIT_DONE"@[1] == 'N' && "INIT_DONE"@[2] == 'I' && "INIT_DONE"@[3] == 'T' && "INIT_DONE"@[4] == '_' && "INIT_DONE"@[5] == 'D' && "INIT_DONE"@[6] == 'O' && "INIT_DONE"@[7] == 'N' && "INIT_DONE"@[8] == 'E');
    assert("INIT_ERR"@.len() == 8 && "INIT_ERR"@[0] == 'I' && "INIT_ERR"@[1] == 'N' && "INIT_ERR"@[2] == 'I' && "INIT_ERR"@[3] == 'T' && "INIT_ERR"@[4] == '_' && "INIT_ERR"@[5] == 'E' && "INIT_ERR"@[6] == 'R' && "INIT_ERR"@[7] == 'R');
    assert("INIT_RUN"@.len() == 8 && "INIT_RUN"@[0] == 'I' && "INIT_RUN"@[1] == 'N' && "INIT_RUN"@[2] == 'I' && "INIT_RUN"@[3] == 'T' && "INIT_RUN"@[4] == '_' && "INIT_RUN"@[5] == 'R' && "INIT_RUN"@[6] == 'U' && "INIT_RUN"@[7] == 'N');
    assert("VALID_RUN"@.len() == 9 && "VALID_RUN"@[0] == 'V' && "VALID_RUN"@[1] == 'A' && "VALID_RUN"@[2] == 'L' && "VALID_RUN"@[3] == 'I' && "VALID_RUN"@[4] == 'D' && "VALID_RUN"@[5] == '_' && "VALID_RUN"@[6] == 'R' && "VALID_RUN"@[7] == 'U' && "VALID_RUN"@[8] == 'N');
    assert("VALID_DONE"@.len() == 10 && "VALID_DONE"@[0] == 'V' && "VALID_DONE"@[1] == 'A' && "VALID_DONE"@[2] == 'L' && "VALID_DONE"@[3] == 'I' && "VALID_DONE"@[4] == 'D' && "VALID_DONE"@[5] == '_' && "VALID_DONE"@[6] == 'D' && "VALID_DONE"@[7] == 'O' && "VALID_DONE"@[8] == 'N' && "VALID_DONE"@[9] == 'E');
    assert("VALID_ERR"@.len() == 9 && "VALID_ERR"@[0] == 'V' && "VALID_ERR"@[1] == 'A' && "VALID_ERR"@[2] == 'L' && "VALID_ERR"@[3] == 'I' && "VALID_ERR"@[4] == 'D' && "VALID_ERR"@[5] == '_' && "VALID_ERR"@[6] == 'E' && "VALID_ERR"@[7] == 'R' && "VALID_ERR"@[8] == 'R');
    assert("SF_RUN"@.len() == 6 && "SF_RUN"@[0] == 'S' && "SF_RUN"@[1] == 'F' && "SF_RUN"@[2] == '_' && "SF_RUN"@[3] == 'R' && "SF_RUN"@[4] == 'U' && "SF_RUN"@[5] == 'N');
    assert("SF_DONE"@.len() == 7 && "SF_DONE"@[0] == 'S' && "SF_DONE"@[1] == 'F' && "SF_DONE"@[2] == '_' && "SF_DONE"@[3] == 'D' && "SF_DONE"@[4] == 'O' && "SF_DONE"@[5] == 'N' && "SF_DONE"@[6] == 'E');
    assert("SF_ERR"@.len() == 6 && "SF_ERR"@[0] == 'S' && "SF_ERR"@[1] == 'F' && "SF_ERR"@[2] == '_' && "SF_ERR"@[3] == 'E' && "SF_ERR"@[4] == 'R' && "SF_ERR"@[5] == 'R');
    assert("ADV_RUN"@.len() == 7 && "ADV_RUN"@[0] == 'A' && "ADV_RUN"@[1] == 'D' && "ADV_RUN"@[2] == 'V' && "ADV_RUN"@[3] == '_' && "ADV_RUN"@[4] == 'R' && "ADV_RUN"@[5] == 'U' && "ADV_RUN"@[6] == 'N');
    assert("ADV_DONE"@.len() == 8 && "ADV_DONE"@[0] == 'A' && "ADV_DONE"@[1] == 'D' && "ADV_DONE"@[2] == 'V' && "ADV_DONE"@[3] == '_' && "ADV_DONE"@[4] == 'D' && "ADV_DONE"@[5] == 'O' && "ADV_DONE"@[6] == 'N' && "ADV_DONE"@[7] == 'E');
    assert("ADV_ERR"@.len() == 7 && "ADV_ERR"@[0] == 'A' && "ADV_ERR"@[1] == 'D' && "ADV_ERR"@[2] == 'V' && "ADV_ERR"@[3] == '_' && "ADV_ERR"@[4] == 'E' && "ADV_ERR"@[5] == 'R' && "ADV_ERR"@[6] == 'R');
    assert("PUB_RUN"@.len() == 7 && "PUB_RUN"@[0] == 'P' && "PUB_RUN"@[1] == 'U' && "PUB_RUN"@[2] == 'B' && "PUB_RUN"@[3] == '_' && "PUB_RUN"@[4] == 'R' && "PUB_RUN"@[5] == 'U' && "PUB_RUN"@[6] == 'N');
    assert("PUB_DONE"@.len() == 8 && "PUB_DONE"@[0] == 'P' && "PUB_DONE"@[1] == 'U' && "PUB_DONE"@[2] == 'B' && "PUB_DONE"@[3] == '_' && "PUB_DONE"@[4] == 'D' && "PUB_DONE"@[5] == 'O' && "PUB_DONE"@[6] == 'N' && "PUB_DONE"@[7] == 'E');
    assert("PUB_ERR"@.len() == 7 && "PUB_ERR"@[0] == 'P' && "PUB_ERR"@[1] == 'U' && "PUB_ERR"@[2] == 'B' && "PUB_ERR"@[3] == '_' && "PUB_ERR"@[4] == 'E' && "PUB_ERR"@[5] == 'R' && "PUB_ERR"@[6] == 'R');
    assert("TRACK_RUN"@.len() == 9 && "TRACK_RUN"@[0] == 'T' && "TRACK_RUN"@[1] == 'R' && "TRACK_RUN"@[2] == 'A' && "TRACK_RUN"@[3] == 'C' && "TRACK_RUN"@[4] == 'K' && "TRACK_RUN"@[5] == '_' && "TRACK_RUN"@[6] == 'R' && "TRACK_RUN"@[7] == 'U' && "TRACK_RUN"@[8] == 'N');
    assert("TRACK_DONE"@.len() == 10 && "TRACK_DONE"@[0] == 'T' && "TRACK_DONE"@[1] == 'R' && "TRACK_DONE"@[2] == 'A' && "TRACK_DONE"@[3] == 'C' && "TRACK_DONE"@[4] == 'K' && "TRACK_DONE"@[5] == '_' && "TRACK_DONE"@[6] == 'D' && "TRACK_DONE"@[7] == 'O' && "TRACK_DONE"@[8] == 'N' && "TRACK_DONE"@[9] == 'E');
    assert("TRACK_ERR"@.len() == 9 && "TRACK_ERR"@[0] == 'T' && "TRACK_ERR"@[1] == 'R' && "TRACK_ERR"@[2] == 'A' && "TRACK_ERR"@[3] == 'C' && "TRACK_ERR"@[4] == 'K' && "TRACK_ERR"@[5] == '_' && "TRACK_ERR"@[6] == 'E' && "TRACK_ERR"@[7] == 'R' && "TRACK_ERR"@[8] == 'R');
    assert("VOUCH_RUN"@.len() == 9 && "VOUCH_RUN"@[0] == 'V' && "VOUCH_RUN"@[1] == 'O' && "VOUCH_RUN"@[2] == 'U' && "VOUCH_RUN"@[3] == 'C' && "VOUCH_RUN"@[4] == 'H' && "VOUCH_RUN"@[5] == '_' && "VOUCH_RUN"@[6] == 'R' && "VOUCH_RUN"@[7] == 'U' && "VOUCH_RUN"@[8] == 'N');
    assert("VOUCH_DONE"@.len() == 10 && "VOUCH_DONE"@[0] == 'V' && "VOUCH_DONE"@[1] == 'O' && "VOUCH_DONE"@[2] == 'U' && "VOUCH_DONE"@[3] == 'C' && "VOUCH_DONE"@[4] == 'H' && "VOUCH_DONE"@[5] == '_' && "VOUCH_DONE"@[6] == 'D' && "VOUCH_DONE"@[7] == 'O' && "VOUCH_DONE"@[8] == 'N' && "VOUCH_DONE"@[9] == 'E');
    assert("VOUCH_ERR"@.len() == 9 && "VOUCH_ERR"@[0] == 'V' && "VOUCH_ERR"@[1] == 'O' && "VOUCH_ERR"@[2] == 'U' && "VOUCH_ERR"@[3] == 'C' && "VOUCH_ERR"@[4] == 'H' && "VOUCH_ERR"@[5] == '_' && "VOUCH_ERR"@[6] == 'E' && "VOUCH_ERR"@[7] == 'R' && "VOUCH_ERR"@[8] == 'R');
    assert("MEM_TAG_RUN"@.len() == 11 && "MEM_TAG_RUN"@[0] == 'M' && "MEM_TAG_RUN"@[1] == 'E' && "MEM_TAG_RUN"@[2] == 'M' && "MEM_TAG_RUN"@[3] == '_' && "MEM_TAG_RUN"@[4] == 'T' && "MEM_TAG_RUN"@[5] == 'A' && "MEM_TAG_RUN"@[6] == 'G' && "MEM_TAG_RUN"@[7] == '_' && "MEM_TAG_RUN"@[8] == 'R' && "MEM_TAG_RUN"@[9] == 'U' && "MEM_TAG_RUN"@[10] == 'N');
    assert("MEM_TAG_DONE"@.len() == 12 && "MEM_TAG_DONE"@[0] == 'M' && "MEM_TAG_DONE"@[1] == 'E' && "MEM_TAG_DONE"@[2] == 'M' && "MEM_TAG_DONE"@[3] == '_' && "MEM_TAG_DONE"@[4] == 'T' && "MEM_TAG_DONE"@[5] == 'A' && "MEM_TAG_DONE"@[6] == 'G' && "MEM_TAG_DONE"@[7] == '_' && "MEM_TAG_DONE"@[8] == 'D' && "MEM_TAG_DONE"@[9] == 'O' && "MEM_TAG_DONE"@[10] == 'N' && "MEM_TAG_DONE"@[11] == 'E');
    assert("MEM_TAG_ERR"@.len() == 11 && "MEM_TAG_ERR"@[0] == 'M' && "MEM_TAG_ERR"@[1] == 'E' && "MEM_TAG_ERR"@[2] == 'M' && "MEM_TAG_ERR"@[3] == '_' && "MEM_TAG_ERR"@[4] == 'T' && "MEM_TAG_ERR"@[5] == 'A' && "MEM_TAG_ERR"@[6] == 'G' && "MEM_TAG_ERR"@[7] == '_' && "MEM_TAG_ERR"@[8] == 'E' && "MEM_TAG_ERR"@[9] == 'R' && "MEM_TAG_ERR"@[10] == 'R');
    assert("COM_RUN"@.len() == 7 && "COM_RUN"@[0] == 'C' && "COM_RUN"@[1] == 'O' && "COM_RUN"@[2] == 'M' && "COM_RUN"@[3] == '_' && "COM_RUN"@[4] == 'R' && "COM_RUN"@[5] == 'U' && "COM_RUN"@[6] == 'N');
    assert("COM_DONE"@.len() == 8 && "COM_DONE"@[0] == 'C' && "COM_DONE"@[1] == 'O' && "COM_DONE"@[2] == 'M' && "COM_DONE"@[3] == '_' && "COM_DONE"@[4] == 'D' && "COM_DONE"@[5] == 'O' && "COM_DONE"@[6] == 'N' && "COM_DONE"@[7] == 'E');
    assert("COM_ERR"@.len() == 7 && "COM_ERR"@[0] == 'C' && "COM_ERR"@[1] == 'O' && "COM_ERR"@[2] == 'M' && "COM_ERR"@[3] == '_' && "COM_ERR"@[4] == 'E' && "COM_ERR"@[5] == 'R' && "COM_ERR"@[6] == 'R');
    assert("FEE_RUN"@.len() == 7 && "FEE_RUN"@[0] == 'F' && "FEE_RUN"@[1] == 'E' && "FEE_RUN"@[2] == 'E' && "FEE_RUN"@[3] == '_' && "FEE_RUN"@[4] == 'R' && "FEE_RUN"@[5] == 'U' && "FEE_RUN"@[6] == 'N');
    assert("FEE_DONE"@.len() == 8 && "FEE_DONE"@[0] == 'F' && "FEE_DONE"@[1] == 'E' && "FEE_DONE"@[2] == 'E' && "FEE_DONE"@[3] == '_' && "FEE_DONE"@[4] == 'D' && "FEE_DONE"@[5] == 'O' && "FEE_DONE"@[6] == 'N' && "FEE_DONE"@[7] == 'E');
    assert("FEE_ERR"@.len() == 7 && "FEE_ERR"@[0] == 'F' && "FEE_ERR"@[1] == 'E' && "FEE_ERR"@[2] == 'E' && "FEE_ERR"@[3] == '_' && "FEE_ERR"@[4] == 'E' && "FEE_ERR"@[5] == 'R' && "FEE_ERR"@[6] == 'R');
    assert("FEED_RUN"@.len() == 8 && "FEED_RUN"@[0] == 'F' && "FEED_RUN"@[1] == 'E' && "FEED_RUN"@[2] == 'E' && "FEED_RUN"@[3] == 'D' && "FEED_RUN"@[4] == '_' && "FEED_RUN"@[5] == 'R' && "FEED_RUN"@[6] == 'U' && "FEED_RUN"@[7] == 'N');
    assert("FEED_DONE"@.len() == 9 && "FEED_DONE"@[0] == 'F' && "FEED_DONE"@[1] == 'E' && "FEED_DONE"@[2] == 'E' && "FEED_DONE"@[3] == 'D' && "FEED_DONE"@[4] == '_' && "FEED_DONE"@[5] == 'D' && "FEED_DONE"@[6] == 'O' && "FEED_DONE"@[7] == 'N' && "FEED_DONE"@[8] == 'E');
    assert("FEED_ERR"@.len() == 8 && "FEED_ERR"@[0] == 'F' && "FEED_ERR"@[1] == 'E' && "FEED_ERR"@[2] == 'E' && "FEED_ERR"@[3] == 'D' && "FEED_ERR"@[4] == '_' && "FEED_ERR"@[5] == 'E' && "FEED_ERR"@[6] == 'R' && "FEED_ERR"@[7] == 'R');
    assert("CREATIVE_RUN"@.len() == 12 && "CREATIVE_RUN"@[0] == 'C' && "CREATIVE_RUN"@[1] == 'R' && "CREATIVE_RUN"@[2] == 'E' && "CREATIVE_RUN"@[3] == 'A' && "CREATIVE_RUN"@[4] == 'T' && "CREATIVE_RUN"@[5] == 'I' && "CREATIVE_RUN"@[6] == 'V' && "CREATIVE_RUN"@[7] == 'E' && "CREATIVE_RUN"@[8] == '_' && "CREATIVE_RUN"@[9] == 'R' && "CREATIVE_RUN"@[10] == 'U' && "CREATIVE_RUN"@[11] == 'N');
    assert("CREATIVE_DONE"@.len() == 13 && "CREATIVE_DONE"@[0] == 'C' && "CREATIVE_DONE"@[1] == 'R' && "CREATIVE_DONE"@[2] == 'E' && "CREATIVE_DONE"@[3] == 'A' && "CREATIVE_DONE"@[4] == 'T' && "CREATIVE_DONE"@[5] == 'I' && "CREATIVE_DONE"@[6] == 'V' && "CREATIVE_DONE"@[7] == 'E' && "CREATIVE_DONE"@[8] == '_' && "CREATIVE_DONE"@[9] == 'D' && "CREATIVE_DONE"@[10] == 'O' && "CREATIVE_DONE"@[11] == 'N' && "CREATIVE_DONE"@[12] == 'E');
    assert("CREATIVE_ERR"@.len() == 12 && "CREATIVE_ERR"@[0] == 'C' && "CREATIVE_ERR"@[1] == 'R' && "CREATIVE_ERR"@[2] == 'E' && "CREATIVE_ERR"@[3] == 'A' && "CREATIVE_ERR"@[4] == 'T' && "CREATIVE_ERR"@[5] == 'I' && "CREATIVE_ERR"@[6] == 'V' && "CREATIVE_ERR"@[7] == 'E' && "CREATIVE_ERR"@[8] == '_' && "CREATIVE_ERR"@[9] == 'E' && "CREATIVE_ERR"@[10] == 'R' && "CREATIVE_ERR"@[11] == 'R');
    match (p, l) {
        (StepDescriptor::Init, Lifecycle::Done) => {
            assert(spec_decode_status("INIT_DONE"@, ctx) == Some(MigrationStatus::InitDone(ctx)));
        },
        (StepDescriptor::Init, Lifecycle::Error) => {
            assert(spec_decode_status("INIT_ERR"@, ctx) == Some(MigrationStatus::InitErr(ctx)));
        },
        (StepDescriptor::Init, Lifecycle::Running) => {
            assert(spec_decode_status("INIT_RUN"@, ctx) == Some(MigrationStatus::InitRun(ctx)));
        },
        (StepDescriptor::Valid, Lifecycle::Running) => {
            assert(spec_decode_status("VALID_RUN"@, ctx) == Some(MigrationStatus::ValidRun(ctx)));
        },
        (StepDescriptor::Valid, Lifecycle::Done) => {
            assert(spec_decode_status("VALID_DONE"@, ctx) == Some(
                MigrationStatus::ValidDone(ctx),
            ));
        },
        (StepDescriptor::Valid, Lifecycle::Error) => {
            assert(spec_decode_status("VALID_ERR"@, ctx) == Some(MigrationStatus::ValidErr(ctx)));
        },
        (StepDescriptor::Sf, Lifecycle::Running) => {
            assert(spec_decode_status("SF_RUN"@, ctx) == Some(MigrationStatus::SfRun(ctx)));
        },
        (StepDescriptor::Sf, Lifecycle::Done) => {
            assert(spec_decode_status("SF_DONE"@, ctx) == Some(MigrationStatus::SfDone(ctx)));
        },
        (StepDescriptor::Sf, Lifecycle::Error) => {
            assert(spec_decode_status("SF_ERR"@, ctx) == Some(MigrationStatus::SfErr(ctx)));
        },
        (StepDescriptor::Adv, Lifecycle::Running) => {
            assert(spec_decode_status("ADV_RUN"@, ctx) == Some(MigrationStatus::AdvRun(ctx)));
        },
        (StepDescriptor::Adv, Lifecycle::Done) => {
            assert(spec_decode_status("ADV_DONE"@, ctx) == Some(MigrationStatus::AdvDone(ctx)));
        },
        (StepDescriptor::Adv, Lifecycle::Error) => {
            assert(spec_decode_status("ADV_ERR"@, ctx) == Some(MigrationStatus::AdvErr(ctx)));
        },
        (StepDescriptor::Pub, Lifecycle::Running) => {
            assert(spec_decode_status("PUB_RUN"@, ctx) == Some(MigrationStatus::PubRun(ctx)));
        },
        (StepDescriptor::Pub, Lifecycle::Done) => {
            assert(spec_decode_status("PUB_DONE"@, ctx) == Some(MigrationStatus::PubDone(ctx)));
        },
        (StepDescriptor::Pub, Lifecycle::Error) => {
            assert(spec_decode_status("PUB_ERR"@, ctx) == Some(MigrationStatus::PubErr(ctx)));
        },
        (StepDescriptor::Track, Lifecycle::Running) => {
            assert(spec_decode_status("TRACK_RUN"@, ctx) == Some(MigrationStatus::TrackRun(ctx)));
        },
        (StepDescriptor::Track, Lifecycle::Done) => {
            assert(spec_decode_status("TRACK_DONE"@, ctx) == Some(
                MigrationStatus::TrackDone(ctx),
            ));
        },
        (StepDescriptor::Track, Lifecycle::Error) => {
            assert(spec_decode_status("TRACK_ERR"@, ctx) == Some(MigrationStatus::TrackErr(ctx)));
        },
        (StepDescriptor::Vouch, Lifecycle::Running) => {
            assert(spec_decode_status("VOUCH_RUN"@, ctx) == Some(MigrationStatus::VouchRun(ctx)));
        },
        (StepDescriptor::Vouch, Lifecycle::Done) => {
            assert(spec_decode_status("VOUCH_DONE"@, ctx) == Some(
                MigrationStatus::VouchDone(ctx),
            ));
        },
        (StepDescriptor::Vouch, Lifecycle::Error) => {
            assert(spec_decode_status("VOUCH_ERR"@, ctx) == Some(MigrationStatus::VouchErr(ctx)));
        },
        (StepDescriptor::MemTag, Lifecycle::Running) => {
            assert(spec_decode_status("MEM_TAG_RUN"@, ctx) == Some(
                MigrationStatus::MemTagRun(ctx),
            ));
        },
        (StepDescriptor::MemTag, Lifecycle::Done) => {
            assert(spec_decode_status("MEM_TAG_DONE"@, ctx) == Some(
                MigrationStatus::MemTagDone(ctx),
            ));
        },
        (StepDescriptor::MemTag, Lifecycle::Error) => {
            assert(spec_decode_status("MEM_TAG_ERR"@, ctx) == Some(
                MigrationStatus::MemTagErr(ctx),
            ));
        },
        (StepDescriptor::Com, Lifecycle::Running) => {
            assert(spec_decode_status("COM_RUN"@, ctx) == Some(MigrationStatus::ComRun(ctx)));
        },
        (StepDescriptor::Com, Lifecycle::Done) => {
            assert(spec_decode_status("COM_DONE"@, ctx) == Some(MigrationStatus::ComDone(ctx)));
        },
        (StepDescriptor::Com, Lifecycle::Error) => {
            assert(spec_decode_status("COM_ERR"@, ctx) == Some(MigrationStatus::ComErr(ctx)));
        },
        (StepDescriptor::Fee, Lifecycle::Running) => {
            assert(spec_decode_status("FEE_RUN"@, ctx) == Some(MigrationStatus::FeeRun(ctx)));
        },
        (StepDescriptor::Fee, Lifecycle::Done) => {
            assert(spec_decode_status("FEE_DONE"@, ctx) == Some(MigrationStatus::FeeDone(ctx)));
        },
        (StepDescriptor::Fee, Lifecycle::Error) => {
            assert(spec_decode_status("FEE_ERR"@, ctx) == Some(MigrationStatus::FeeErr(ctx)));
        },
        (StepDescriptor::Feed, Lifecycle::Running) => {
            assert(spec_decode_status("FEED_RUN"@, ctx) == Some(MigrationStatus::FeedRun(ctx)));
        },
        (StepDescriptor::Feed, Lifecycle::Done) => {
            assert(spec_decode_status("FEED_DONE"@, ctx) == Some(MigrationStatus::FeedDone(ctx)));
        },
        (StepDescriptor::Feed, Lifecycle::Error) => {
            assert(spec_decode_status("FEED_ERR"@, ctx) == Some(MigrationStatus::FeedErr(ctx)));
        },
        (StepDescriptor::Creative, Lifecycle::Running) => {
            assert(spec_decode_status("CREATIVE_RUN"@, ctx) == Some(
                MigrationStatus::CreativeRun(ctx),
            ));
        },
        (StepDescriptor::Creative, Lifecycle::Done) => {
            assert(spec_decode_status("CREATIVE_DONE"@, ctx) == Some(
                MigrationStatus::CreativeDone(ctx),
            ));
        },
        (StepDescriptor::Creative, Lifecycle::Error) => {
            assert(spec_decode_status("CREATIVE_ERR"@, ctx) == Some(
                MigrationStatus::CreativeErr(ctx),
            ));
        },
    }
}

impl StepDescriptor {
    /// Decodes a phase token, case-insensitively; `None` exactly when the
    /// token names no phase of the catalogue.
    pub fn from_string(s: &str) -> (r: Option<Self>)
        ensures
            r == spec_decode_step(s@),
    {
        if token_matches(s, "INIT") {
            Some(StepDescriptor::Init)
        } else if token_matches(s, "VALID") {
            Some(StepDescriptor::Valid)
        } else if token_matches(s, "SF") {
            Some(StepDescriptor::Sf)
        } else if token_matches(s, "ADV") {
            Some(StepDescriptor::Adv)
        } else if token_matches(s, "PUB") {
            Some(StepDescriptor::Pub)
        } else if token_matches(s, "TRACK") {
            Some(StepDescriptor::Track)
        } else if token_matches(s, "VOUCH") {
            Some(StepDescriptor::Vouch)
        } else if token_matches(s, "MEM_TAG") {
            Some(StepDescriptor::MemTag)
        } else if token_matches(s, "COM") {
            Some(StepDescriptor::Com)
        } else if token_matches(s, "FEE") {
            Some(StepDescriptor::Fee)
        } else if token_matches(s, "FEED") {
            Some(StepDescriptor::Feed)
        } else if token_matches(s, "CREATIVE") {
            Some(StepDescriptor::Creative)
        } else {
            None
        }
    }

    /// The upper-case token naming this phase, as sent on the wire.
    pub fn token(&self) -> (r: &'static str)
        ensures
            r@ == spec_step_token(*self),
    {
        match self {
            StepDescriptor::Init => "INIT",
            StepDescriptor::Valid => "VALID",
            StepDescriptor::Sf => "SF",
            StepDescriptor::Adv => "ADV",
            StepDescriptor::Pub => "PUB",
            StepDescriptor::Track => "TRACK",
            StepDescriptor::Vouch => "VOUCH",
            StepDescriptor::MemTag => "MEM_TAG",
            StepDescriptor::Com => "COM",
            StepDescriptor::Fee => "FEE",
            StepDescriptor::Feed => "FEED",
            StepDescriptor::Creative => "CREATIVE",
        }
    }
}

impl Lifecycle {
    /// The upper-case token naming this lifecycle state.
    pub fn token(&self) -> (r: &'static str)
        ensures
            r@ == spec_lifecycle_token(*self),
    {
        match self {
            Lifecycle::Running => "RUN",
            Lifecycle::Done => "DONE",
            Lifecycle::Error => "ERR",
        }
    }
}

impl MigrationStatus {
    /// Decodes a status token, case-insensitively, with `step` as the phase
    /// context; `None` exactly when the token is outside the vocabulary.
    pub fn from_string(s: &str, step: StepDescriptor) -> (r: Option<Self>)
        ensures
            r == spec_decode_status(s@, step),
    {
        if token_matches(s, "INIT_DONE") {
            Some(MigrationStatus::InitDone(step))
        } else if token_matches(s, "INIT_ERR") {
            Some(MigrationStatus::InitErr(step))
        } else if token_matches(s, "INIT_RUN") {
            Some(MigrationStatus::InitRun(step))
        } else if token_matches(s, "VALID_RUN") {
            Some(MigrationStatus::ValidRun(step))
        } else if token_matches(s, "VALID_DONE") {
            Some(MigrationStatus::ValidDone(step))
        } else if token_matches(s, "VALID_ERR") {
            Some(MigrationStatus::ValidErr(step))
        } else if token_matches(s, "SF_RUN") {
            Some(MigrationStatus::SfRun(step))
        } else if token_matches(s, "SF_DONE") {
            Some(MigrationStatus::SfDone(step))
        } else if token_matches(s, "SF_ERR") {
            Some(MigrationStatus::SfErr(step))
        } else if token_matches(s, "ADV_RUN") {
            Some(MigrationStatus::AdvRun(step))
        } else if token_matches(s, "ADV_DONE") {
            Some(MigrationStatus::AdvDone(step))
        } else if token_matches(s, "ADV_ERR") {
            Some(MigrationStatus::AdvErr(step))
        } else if token_matches(s, "PUB_RUN") {
            Some(MigrationStatus::PubRun(step))
        } else if token_matches(s, "PUB_DONE") {
            Some(MigrationStatus::PubDone(step))
        } else if token_matches(s, "PUB_ERR") {
            Some(MigrationStatus::PubErr(step))
        } else if token_matches(s, "TRACK_RUN") {
            Some(MigrationStatus::TrackRun(step))
        } else if token_matches(s, "TRACK_DONE") {
            Some(MigrationStatus::TrackDone(step))
        } else if token_matches(s, "TRACK_ERR") {
            Some(MigrationStatus::TrackErr(step))
        } else if token_matches(s, "VOUCH_RUN") {
            Some(MigrationStatus::VouchRun(step))
        } else if token_matches(s, "VOUCH_DONE") {
            Some(MigrationStatus::VouchDone(step))
        } else if token_matches(s, "VOUCH_ERR") {
            Some(MigrationStatus::VouchErr(step))
        } else if token_matches(s, "MEM_TAG_RUN") {
            Some(MigrationStatus::MemTagRun(step))
        } else if token_matches(s, "MEM_TAG_DONE") {
            Some(MigrationStatus::MemTagDone(step))
        } else if token_matches(s, "MEM_TAG_ERR") {
            Some(MigrationStatus::MemTagErr(step))
        } else if token_matches(s, "COM_RUN") {
            Some(MigrationStatus::ComRun(step))
        } else if token_matches(s, "COM_DONE") {
            Some(MigrationStatus::ComDone(step))
        } else if token_matches(s, "COM_ERR") {
            Some(MigrationStatus::ComErr(step))
        } else if token_matches(s, "FEE_RUN") {
            Some(MigrationStatus::FeeRun(step))
        } else if token_matches(s, "FEE_DONE") {
            Some(MigrationStatus::FeeDone(step))
        } else if token_matches(s, "FEE_ERR") {
            Some(MigrationStatus::FeeErr(step))
        } else if token_matches(s, "FEED_RUN") {
            Some(MigrationStatus::FeedRun(step))
        } else if token_matches(s, "FEED_DONE") {
            Some(MigrationStatus::FeedDone(step))
        } else if token_matches(s, "FEED_ERR") {
            Some(MigrationStatus::FeedErr(step))
        } else if token_matches(s, "CREATIVE_RUN") {
            Some(MigrationStatus::CreativeRun(step))
        } else if token_matches(s, "CREATIVE_DONE") {
            Some(MigrationStatus::CreativeDone(step))
        } else if token_matches(s, "CREATIVE_ERR") {
            Some(MigrationStatus::CreativeErr(step))
        } else {
            None
        }
    }
}

/// Encodes a (phase, lifecycle) pair as its status token.
pub fn encode_status(phase: StepDescriptor, lifecycle: Lifecycle) -> (s: String)
    ensures
        s@ == spec_status_token(phase, lifecycle),
{
    match (phase, lifecycle) {
        (StepDescriptor::Init, Lifecycle::Done) => String::from_str("INIT_DONE"),
        (StepDescriptor::Init, Lifecycle::Error) => String::from_str("INIT_ERR"),
        (StepDescriptor::Init, Lifecycle::Running) => String::from_str("INIT_RUN"),
        (StepDescriptor::Valid, Lifecycle::Running) => String::from_str("VALID_RUN"),
        (StepDescriptor::Valid, Lifecycle::Done) => String::from_str("VALID_DONE"),
        (StepDescriptor::Valid, Lifecycle::Error) => String::from_str("VALID_ERR"),
        (StepDescriptor::Sf, Lifecycle::Running) => String::from_str("SF_RUN"),
        (StepDescriptor::Sf, Lifecycle::Done) => String::from_str("SF_DONE"),
        (StepDescriptor::Sf, Lifecycle::Error) => String::from_str("SF_ERR"),
        (StepDescriptor::Adv, Lifecycle::Running) => String::from_str("ADV_RUN"),
        (StepDescriptor::Adv, Lifecycle::Done) => String::from_str("ADV_DONE"),
        (StepDescriptor::Adv, Lifecycle::Error) => String::from_str("ADV_ERR"),
        (StepDescriptor::Pub, Lifecycle::Running) => String::from_str("PUB_RUN"),
        (StepDescriptor::Pub, Lifecycle::Done) => String::from_str("PUB_DONE"),
        (StepDescriptor::Pub, Lifecycle::Error) => String::from_str("PUB_ERR"),
        (StepDescriptor::Track, Lifecycle::Running) => String::from_str("TRACK_RUN"),
        (StepDescriptor::Track, Lifecycle::Done) => String::from_str("TRACK_DONE"),
        (StepDescriptor::Track, Lifecycle::Error) => String::from_str("TRACK_ERR"),
        (StepDescriptor::Vouch, Lifecycle::Running) => String::from_str("VOUCH_RUN"),
        (StepDescriptor::Vouch, Lifecycle::Done) => String::from_str("VOUCH_DONE"),
        (StepDescriptor::Vouch, Lifecycle::Error) => String::from_str("VOUCH_ERR"),
        (StepDescriptor::MemTag, Lifecycle::Running) => String::from_str("MEM_TAG_RUN"),
        (StepDescriptor::MemTag, Lifecycle::Done) => String::from_str("MEM_TAG_DONE"),
        (StepDescriptor::MemTag, Lifecycle::Error) => String::from_str("MEM_TAG_ERR"),
        (StepDescriptor::Com, Lifecycle::Running) => String::from_str("COM_RUN"),
        (StepDescriptor::Com, Lifecycle::Done) => String::from_str("COM_DONE"),
        (StepDescriptor::Com, Lifecycle::Error) => String::from_str("COM_ERR"),
        (StepDescriptor::Fee, Lifecycle::Running) => String::from_str("FEE_RUN"),
        (StepDescriptor::Fee, Lifecycle::Done) => String::from_str("FEE_DONE"),
        (StepDescriptor::Fee, Lifecycle::Error) => String::from_str("FEE_ERR"),
        (StepDescriptor::Feed, Lifecycle::Running) => String::from_str("FEED_RUN"),
        (StepDescriptor::Feed, Lifecycle::Done) => String::from_str("FEED_DONE"),
        (StepDescriptor::Feed, Lifecycle::Error) => String::from_str("FEED_ERR"),
        (StepDescriptor::Creative, Lifecycle::Running) => String::from_str("CREATIVE_RUN"),
        (StepDescriptor::Creative, Lifecycle::Done) => String::from_str("CREATIVE_DONE"),
        (StepDescriptor::Creative, Lifecycle::Error) => String::from_str("CREATIVE_ERR"),
    }
}


/// The structured status payload carried by a not-found reply from the
/// remote migration service.
#[derive(Debug, Clone, PartialEq, Eq)]
pub struct OrchestatorStatusReturn {
    pub timestamp: String,
    pub status: i16,
    pub error: String,
    pub path: String,
}

/// The ways an orchestrator operation can fail. Remote causes carry plain
/// values (a message, a code, a decoded body) rather than transport objects.
#[derive(Debug, Clone, PartialEq, Eq)]
pub enum OrchestratorError {
    /// The supplied advertiser identifier was not a positive integer.
    InvalidAdvertiserId,
    /// The configured step token names no phase of the catalogue.
    InvalidStep,
    /// The transport failed, or a reply body expected to be present could
    /// not be read; carries the underlying cause.
    RequestError(String),
    /// A structured reply body was present but malformed.
    ParseError(String),
    /// The remote service reported that the advertiser does not exist.
    NotFound(OrchestatorStatusReturn),
    /// The bearer credential was rejected.
    Unauthorized,
    /// Any other non-success HTTP status.
    UnexpectedStatus(u16),
}

impl OrchestratorError {
    /// The diagnostic message for this error.
    pub open spec fn spec_message(self) -> Seq<char> {
        match self {
            OrchestratorError::InvalidAdvertiserId => "Advertiser ID must be greater than 0"@,
            OrchestratorError::InvalidStep => "Unsupported orchestration step token"@,
            OrchestratorError::RequestError(e) => "Request error: "@ + e@,
            OrchestratorError::ParseError(e) => "Failed to parse response: "@ + e@,
            OrchestratorError::NotFound(st) => "Advertiser not found: "@ + st.error@,
            OrchestratorError::Unauthorized => "Unauthorized access: Invalid JWT token"@,
            OrchestratorError::UnexpectedStatus(code) => "Unexpected status code: "@ + spec_udec(
                code as nat,
            ),
        }
    }

    /// Renders the diagnostic message.
    pub fn message(&self) -> (s: String)
        ensures
            s@ == self.spec_message(),
    {
        match self {
            OrchestratorError::InvalidAdvertiserId => String::from_str(
                "Advertiser ID must be greater than 0",
            ),
            OrchestratorError::InvalidStep => String::from_str(
                "Unsupported orchestration step token",
            ),
            OrchestratorError::RequestError(e) => String::from_str("Request error: ").concat(
                e.as_str(),
            ),
            OrchestratorError::ParseError(e) => String::from_str(
                "Failed to parse response: ",
            ).concat(e.as_str()),
            OrchestratorError::NotFound(st) => String::from_str("Advertiser not found: ").concat(
                st.error.as_str(),
            ),
            OrchestratorError::Unauthorized => String::from_str(
                "Unauthorized access: Invalid JWT token",
            ),
            OrchestratorError::UnexpectedStatus(code) => String::from_str(
                "Unexpected status code: ",
            ).concat(u64_to_dec(*code as u64).as_str()),
        }
    }
}

} // verus!
