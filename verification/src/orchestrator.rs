//! The step executor and the orchestration controller: the wire-exact
//! request paths and bodies, the classification of remote responses into
//! typed outcomes, and the sequencing of one full workflow invocation —
//! ensure-initialized, optional forced override, requested step — as a state
//! machine whose driver performs the transport and feeds back each outcome.
use vstd::prelude::*;

use crate::config::TestConfig;
use crate::orchestration_status::{
    spec_decode_step, spec_step_token, OrchestatorStatusReturn, OrchestratorError, StepDescriptor,
};
use crate::text::{spec_udec, u64_to_dec};

verus! {

/// The request path for executing one step for an advertiser.
pub fn execute_step_endpoint(external_id: i32, step: StepDescriptor) -> (s: String)
    requires
        external_id > 0,
    ensures
        s@ == "migrate/sas/advertiser/"@ + spec_udec(external_id as nat) + "/execute-step/"@
            + spec_step_token(step),
{
    let mut s = String::from_str("migrate/sas/advertiser/");
    s.append(u64_to_dec(external_id as u64).as_str());
    s.append("/execute-step/");
    s.append(step.token());
    s
}

/// The request path for forcing an advertiser's status.
pub fn force_status_endpoint(external_id: i32) -> (s: String)
    requires
        external_id > 0,
    ensures
        s@ == "migrate/sas/advertiser/"@ + spec_udec(external_id as nat) + "/status"@,
{
    let mut s = String::from_str("migrate/sas/advertiser/");
    s.append(u64_to_dec(external_id as u64).as_str());
    s.append("/status");
    s
}

/// The JSON body of a force-status request, carrying the target lifecycle
/// token verbatim.
pub fn force_status_body(status_token: &str) -> (s: String)
    ensures
        s@ == "{\"force_status\": \""@ + status_token@ + "\"}"@,
{
    let mut s = String::from_str("{\"force_status\": \"");
    s.append(status_token);
    s.append("\"}");
    s
}

/// The outcome of one HTTP exchange, as the driver reports it back: a
/// response with its status code — and, for a not-found reply, the parsed
/// status body or its parse failure — or a transport failure with its cause.
/// The body field is read only when the code is 404.
#[derive(Debug, PartialEq, Eq)]
pub enum TransportEvent {
    Response { code: u16, not_found_body: Result<OrchestatorStatusReturn, String> },
    Failure { cause: String },
}

/// How an execute-step exchange classifies: 200 alone is success; a
/// not-found reply surfaces its decoded body, with a parse failure kept
/// distinct; 401 is unauthorized; any other code an unexpected status; a
/// transport failure carries its cause.
pub open spec fn spec_classify_execute(ev: TransportEvent) -> Result<u16, OrchestratorError> {
    match ev {
        TransportEvent::Failure { cause } => Err(OrchestratorError::RequestError(cause)),
        TransportEvent::Response { code, not_found_body } => if code == 200 {
            Ok(code)
        } else if code == 404 {
            match not_found_body {
                Ok(b) => Err(OrchestratorError::NotFound(b)),
                Err(m) => Err(OrchestratorError::ParseError(m)),
            }
        } else if code == 401 {
            Err(OrchestratorError::Unauthorized)
        } else {
            Err(OrchestratorError::UnexpectedStatus(code))
        },
    }
}

/// How a force-status exchange classifies: as for step execution, except
/// that 200, 202 and 204 all count as success.
pub open spec fn spec_classify_force(ev: TransportEvent) -> Result<u16, OrchestratorError> {
    match ev {
        TransportEvent::Failure { cause } => Err(OrchestratorError::RequestError(cause)),
        TransportEvent::Response { code, not_found_body } => if code == 200 || code == 202 || code
            == 204 {
            Ok(code)
        } else if code == 404 {
            match not_found_body {
                Ok(b) => Err(OrchestratorError::NotFound(b)),
                Err(m) => Err(OrchestratorError::ParseError(m)),
            }
        } else if code == 401 {
            Err(OrchestratorError::Unauthorized)
        } else {
            Err(OrchestratorError::UnexpectedStatus(code))
        },
    }
}

/// Classifies the outcome of an execute-step exchange.
pub fn classify_execute_response(ev: TransportEvent) -> (r: Result<u16, OrchestratorError>)
    ensures
        r == spec_classify_execute(ev),
{
    match ev {
        TransportEvent::Failure { cause } => Err(OrchestratorError::RequestError(cause)),
        TransportEvent::Response { code, not_found_body } => {
            if code == 200 {
                Ok(code)
            } else if code == 404 {
                match not_found_body {
                    Ok(b) => Err(OrchestratorError::NotFound(b)),
                    Err(m) => Err(OrchestratorError::ParseError(m)),
                }
            } else if code == 401 {
                Err(OrchestratorError::Unauthorized)
            } else {
                Err(OrchestratorError::UnexpectedStatus(code))
            }
        },
    }
}

/// Classifies the outcome of a force-status exchange.
pub fn classify_force_response(ev: TransportEvent) -> (r: Result<u16, OrchestratorError>)
    ensures
        r == spec_classify_force(ev),
{
    match ev {
        TransportEvent::Failure { cause } => Err(OrchestratorError::RequestError(cause)),
        TransportEvent::Response { code, not_found_body } => {
            if code == 200 || code == 202 || code == 204 {
                Ok(code)
            } else if code == 404 {
                match not_found_body {
                    Ok(b) => Err(OrchestratorError::NotFound(b)),
                    Err(m) => Err(OrchestratorError::ParseError(m)),
                }
            } else if code == 401 {
                Err(OrchestratorError::Unauthorized)
            } else {
                Err(OrchestratorError::UnexpectedStatus(code))
            }
        },
    }
}

/// True for a success-class (2xx) HTTP status code.
pub fn is_success_class(code: u16) -> (r: bool)
    ensures
        r == (200 <= code && code < 300),
{
    200 <= code && code < 300
}

/// Where the controller stands in one invocation.
#[derive(Debug, Clone, Copy, PartialEq, Eq, Structural)]
pub enum ControllerState {
    Start,
    AwaitingLookup,
    AwaitingInit,
    AwaitingForce,
    AwaitingStep,
    Finished,
}

/// The aggregated outcome of one invocation: the sub-step outcomes where
/// those sub-steps ran, and the authoritative outcome of the requested step.
#[derive(Debug, PartialEq, Eq)]
pub struct RunReport {
    pub init_result: Option<Result<u16, OrchestratorError>>,
    pub force_result: Option<Result<u16, OrchestratorError>>,
    pub step_result: Result<u16, OrchestratorError>,
}

/// What the driver must perform next.
#[derive(Debug, PartialEq, Eq)]
pub enum Action {
    /// Look the advertiser up by external identifier in the record store.
    LookupAdvertiser { external_id: i32 },
    /// Execute one workflow step for the advertiser.
    ExecuteStep { external_id: i32, step: StepDescriptor },
    /// Force the advertiser's status to the given lifecycle token.
    ForceStatus { external_id: i32, status_token: String },
    /// The invocation is over; nothing further may be sent.
    Report(RunReport),
}

/// The orchestration controller for one advertiser and one invocation. It
/// makes every decision of the workflow; the driver performs each returned
/// action and feeds the outcome back.
#[derive(Debug)]
pub struct Controller {
    pub external_id: Option<i32>,
    pub force_run: bool,
    pub step_to_run: String,
    pub step_status_to_force: String,
    pub state: ControllerState,
    pub init_result: Option<Result<u16, OrchestratorError>>,
    pub force_result: Option<Result<u16, OrchestratorError>>,
}

/// A usable identifier: present and positive.
pub open spec fn spec_id_valid(id: Option<i32>) -> bool {
    match id {
        Some(i) => i > 0,
        None => false,
    }
}

/// The validated identifier; meaningful once `Start` has been left.
pub open spec fn spec_the_id(c: Controller) -> i32 {
    match c.external_id {
        Some(i) => i,
        None => 0,
    }
}

/// The requested phase; meaningful where well-formedness guarantees that
/// the configured token decodes.
pub open spec fn spec_requested_step(c: Controller) -> StepDescriptor {
    match spec_decode_step(c.step_to_run@) {
        Some(s) => s,
        None => StepDescriptor::Init,
    }
}

impl Controller {
    /// The states in which the controller awaits a transport outcome.
    pub open spec fn awaiting_response(self) -> bool {
        self.state is AwaitingInit || self.state is AwaitingForce || self.state is AwaitingStep
    }

    /// Well-formed: past `Start` and short of `Finished`, the identifier is
    /// valid and the requested step token decodes.
    pub open spec fn wf(self) -> bool {
        self.state is Start || self.state is Finished || (spec_id_valid(self.external_id)
            && spec_decode_step(self.step_to_run@) is Some)
    }
}

/// The branch taken once record existence has been settled — the record was
/// found, or the initialization sub-step has run: force the status first
/// where configured, else go straight to the requested step.
pub open spec fn spec_after_check(c: Controller) -> (Controller, Action) {
    if c.force_run {
        (
            Controller { state: ControllerState::AwaitingForce, ..c },
            Action::ForceStatus {
                external_id: spec_the_id(c),
                status_token: c.step_status_to_force,
            },
        )
    } else {
        (
            Controller { state: ControllerState::AwaitingStep, ..c },
            Action::ExecuteStep { external_id: spec_the_id(c), step: spec_requested_step(c) },
        )
    }
}

/// The first transition: reject an absent or non-positive identifier and an
/// undecodable step token outright — before anything is sent anywhere —
/// else ask for the record lookup.
pub open spec fn spec_start(c: Controller) -> (Controller, Action) {
    if !spec_id_valid(c.external_id) {
        (
            Controller { state: ControllerState::Finished, ..c },
            Action::Report(
                RunReport {
                    init_result: None,
                    force_result: None,
                    step_result: Err(OrchestratorError::InvalidAdvertiserId),
                },
            ),
        )
    } else if spec_decode_step(c.step_to_run@) is None {
        (
            Controller { state: ControllerState::Finished, ..c },
            Action::Report(
                RunReport {
                    init_result: None,
                    force_result: None,
                    step_result: Err(OrchestratorError::InvalidStep),
                },
            ),
        )
    } else {
        (
            Controller { state: ControllerState::AwaitingLookup, ..c },
            Action::LookupAdvertiser { external_id: spec_the_id(c) },
        )
    }
}

/// The transition on the lookup outcome: any failure to confirm existence —
/// not-found and transport error alike — triggers the initialization step;
/// a found record skips it.
pub open spec fn spec_on_lookup(c: Controller, found: bool) -> (Controller, Action) {
    if found {
        spec_after_check(c)
    } else {
        (
            Controller { state: ControllerState::AwaitingInit, ..c },
            Action::ExecuteStep { external_id: spec_the_id(c), step: StepDescriptor::Init },
        )
    }
}

/// The transition on a transport outcome: record the init or force
/// sub-step's classified outcome and continue regardless of it; the
/// requested step's outcome finishes the run and is reported as the
/// authoritative result, together with the recorded sub-step outcomes.
pub open spec fn spec_on_response(c: Controller, ev: TransportEvent) -> (Controller, Action) {
    if c.state is AwaitingInit {
        spec_after_check(Controller { init_result: Some(spec_classify_execute(ev)), ..c })
    } else if c.state is AwaitingForce {
        (
            Controller {
                state: ControllerState::AwaitingStep,
                force_result: Some(spec_classify_force(ev)),
                ..c
            },
            Action::ExecuteStep { external_id: spec_the_id(c), step: spec_requested_step(c) },
        )
    } else {
        (
            Controller {
                state: ControllerState::Finished,
                init_result: None,
                force_result: None,
                ..c
            },
            Action::Report(
                RunReport {
                    init_result: c.init_result,
                    force_result: c.force_result,
                    step_result: spec_classify_execute(ev),
                },
            ),
        )
    }
}

impl Controller {
    /// Builds a controller for one invocation from the configuration.
    pub fn new(config: &TestConfig) -> (c: Controller)
        ensures
            c.external_id == config.globals.external_id,
            c.force_run == config.orchestration.force_run,
            c.step_to_run == config.orchestration.step_to_run,
            c.step_status_to_force == config.orchestration.step_status_to_force,
            c.state is Start,
            c.init_result is None,
            c.force_result is None,
    {
        Controller {
            external_id: config.globals.external_id,
            force_run: config.orchestration.force_run,
            step_to_run: config.orchestration.step_to_run.clone(),
            step_status_to_force: config.orchestration.step_status_to_force.clone(),
            state: ControllerState::Start,
            init_result: None,
            force_result: None,
        }
    }

    /// Validates the invocation and asks for the record lookup, or reports
    /// the invalid input without anything having been sent.
    pub fn start(&mut self) -> (a: Action)
        requires
            old(self).state is Start,
        ensures
            *final(self) == spec_start(*old(self)).0,
            a == spec_start(*old(self)).1,
            final(self).wf(),
    {
        let valid = match self.external_id {
            Some(i) => i > 0,
            None => false,
        };
        if !valid {
            self.state = ControllerState::Finished;
            return Action::Report(
                RunReport {
                    init_result: None,
                    force_result: None,
                    step_result: Err(OrchestratorError::InvalidAdvertiserId),
                },
            );
        }
        if StepDescriptor::from_string(self.step_to_run.as_str()).is_none() {
            self.state = ControllerState::Finished;
            return Action::Report(
                RunReport {
                    init_result: None,
                    force_result: None,
                    step_result: Err(OrchestratorError::InvalidStep),
                },
            );
        }
        self.state = ControllerState::AwaitingLookup;
        let id = match self.external_id {
            Some(i) => i,
            None => 0,
        };
        Action::LookupAdvertiser { external_id: id }
    }

    /// The shared continuation once record existence is settled.
    fn proceed_after_check(&mut self) -> (a: Action)
        requires
            spec_id_valid(old(self).external_id),
            spec_decode_step(old(self).step_to_run@) is Some,
        ensures
            *final(self) == spec_after_check(*old(self)).0,
            a == spec_after_check(*old(self)).1,
    {
        let id = match self.external_id {
            Some(i) => i,
            None => 0,
        };
        if self.force_run {
            self.state = ControllerState::AwaitingForce;
            Action::ForceStatus { external_id: id, status_token: self.step_status_to_force.clone() }
        } else {
            self.state = ControllerState::AwaitingStep;
            let step = match StepDescriptor::from_string(self.step_to_run.as_str()) {
                Some(s) => s,
                None => StepDescriptor::Init,
            };
            Action::ExecuteStep { external_id: id, step }
        }
    }

    /// Consumes the lookup outcome: a found record proceeds; anything else
    /// asks for the initialization step first.
    pub fn on_lookup(&mut self, found: bool) -> (a: Action)
        requires
            old(self).state is AwaitingLookup,
            old(self).wf(),
        ensures
            *final(self) == spec_on_lookup(*old(self), found).0,
            a == spec_on_lookup(*old(self), found).1,
            final(self).wf(),
    {
        if found {
            self.proceed_after_check()
        } else {
            self.state = ControllerState::AwaitingInit;
            let id = match self.external_id {
                Some(i) => i,
                None => 0,
            };
            Action::ExecuteStep { external_id: id, step: StepDescriptor::Init }
        }
    }

    /// Consumes the outcome of the exchange the controller is awaiting and
    /// decides the next action.
    pub fn on_response(&mut self, ev: TransportEvent) -> (a: Action)
        requires
            old(self).awaiting_response(),
            old(self).wf(),
        ensures
            *final(self) == spec_on_response(*old(self), ev).0,
            a == spec_on_response(*old(self), ev).1,
            final(self).wf(),
    {
        match self.state {
            ControllerState::AwaitingInit => {
                self.init_result = Some(classify_execute_response(ev));
                self.proceed_after_check()
            },
            ControllerState::AwaitingForce => {
                self.force_result = Some(classify_force_response(ev));
                self.state = ControllerState::AwaitingStep;
                let id = match self.external_id {
                    Some(i) => i,
                    None => 0,
                };
                let step = match StepDescriptor::from_string(self.step_to_run.as_str()) {
                    Some(s) => s,
                    None => StepDescriptor::Init,
                };
                Action::ExecuteStep { external_id: id, step }
            },
            _ => {
                let step_result = classify_execute_response(ev);
                let init_result = self.init_result.take();
                let force_result = self.force_result.take();
                self.state = ControllerState::Finished;
                Action::Report(RunReport { init_result, force_result, step_result })
            },
        }
    }
}

/// Law: with an absent or non-positive external identifier, the controller
/// finishes on its very first transition, reporting the invalid input — no
/// lookup, step execution or status override is ever requested.
pub proof fn lemma_invalid_id_aborts_before_any_call(c: Controller)
    requires
        c.state is Start,
        !spec_id_valid(c.external_id),
    ensures
        spec_start(c).0.state is Finished,
        spec_start(c).1 == (Action::Report(
            RunReport {
                init_result: None,
                force_result: None,
                step_result: Err(OrchestratorError::InvalidAdvertiserId),
            },
        )),
{
}

/// Law: when the lookup cannot confirm the record, the controller runs the
/// initialization phase exactly once: the next action executes `Init`, and
/// the action after the init outcome — whatever that outcome was — is the
/// forced override or the requested step, never initialization again.
pub proof fn lemma_lookup_failure_runs_init_once(c: Controller, ev: TransportEvent)
    requires
        c.state is AwaitingLookup,
        c.wf(),
    ensures
        spec_on_lookup(c, false).1 == (Action::ExecuteStep {
            external_id: spec_the_id(c),
            step: StepDescriptor::Init,
        }),
        spec_on_lookup(c, false).0.state is AwaitingInit,
        c.force_run ==> spec_on_response(spec_on_lookup(c, false).0, ev).1 == (Action::ForceStatus {
            external_id: spec_the_id(c),
            status_token: c.step_status_to_force,
        }),
        !c.force_run ==> spec_on_response(spec_on_lookup(c, false).0, ev).1 == (Action::ExecuteStep {
            external_id: spec_the_id(c),
            step: spec_requested_step(c),
        }),
{
}

/// Law: a not-found reply carries its decoded status body through to the
/// outcome unchanged, for step execution and forced override alike.
pub proof fn lemma_not_found_body_is_preserved(b: OrchestatorStatusReturn, e: Result<OrchestatorStatusReturn, String>)
    requires
        e == Ok::<OrchestatorStatusReturn, String>(b),
    ensures
        spec_classify_execute(TransportEvent::Response { code: 404, not_found_body: e })
            == Err::<u16, OrchestratorError>(OrchestratorError::NotFound(b)),
        spec_classify_force(TransportEvent::Response { code: 404, not_found_body: e })
            == Err::<u16, OrchestratorError>(OrchestratorError::NotFound(b)),
{
}

/// Law: an unauthorized reply to the requested step is surfaced as the
/// invocation's authoritative outcome, and the controller finishes — no
/// further exchange is requested for that sub-step.
pub proof fn lemma_unauthorized_is_surfaced(
    c: Controller,
    body: Result<OrchestatorStatusReturn, String>,
)
    requires
        c.state is AwaitingStep,
        c.wf(),
    ensures
        spec_on_response(c, TransportEvent::Response { code: 401, not_found_body: body }).0.state
            is Finished,
        spec_on_response(c, TransportEvent::Response { code: 401, not_found_body: body }).1
            == (Action::Report(
            RunReport {
                init_result: c.init_result,
                force_result: c.force_result,
                step_result: Err(OrchestratorError::Unauthorized),
            },
        )),
{
}

} // verus!
