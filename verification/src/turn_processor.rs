//! The handler of a client's request to start a turn if the thread is idle.
//!
//! The handler is a machine: each step takes what the server's other parts
//! replied and says what to tell them, what to ask next, or how to answer.

use vstd::pervasive::unreached;
use vstd::prelude::*;
use vstd::string::*;

use crate::absolute_path::AbsolutePathBuf;
use crate::error_code::{
    internal_error, internal_error_view, invalid_request, invalid_request_view, ErrorView,
    JSONRPCErrorError,
};
use crate::turn::{
    in_progress_turn, ClientResponsePayload, Turn, TurnStartResponse, TurnStatus,
};
use crate::turn_input::{
    core_items, into_core_items, PreconditionsView, StartIfIdlePreconditionNotSubmittedReason,
    StartIfIdlePreconditionSubmission, StartIfIdlePreconditions, TurnInput, TurnInputRequest,
    V2UserInput, W3cTraceContext,
};

verus! {

/// The parameters of the request.
#[derive(Debug, PartialEq, Eq)]
pub struct TurnStartIfIdleParams {
    pub thread_id: String,
    pub expected_cwd: AbsolutePathBuf,
    pub client_user_message_id: Option<String>,
    pub input: Vec<V2UserInput>,
}

/// The part of a thread's error that decides how it is answered.
#[derive(Debug, PartialEq, Eq)]
pub enum CodexErrorDetails {
    InvalidRequest(String),
    Other,
}

/// An error of the thread, with the text that describes it.
#[derive(Debug, PartialEq, Eq)]
pub struct CodexError {
    pub details: CodexErrorDetails,
    pub description: String,
}

/// What analytics records an error as.
#[derive(Clone, Copy, Debug, PartialEq, Eq, Structural)]
pub enum AnalyticsJsonRpcError {
    InputTooLarge,
}

/// Where the handling of a request stands.
#[derive(Debug, PartialEq, Eq)]
pub enum StartIfIdleState {
    /// The URLs of the input's images are being validated.
    ValidatingImageUrls { params: TurnStartIfIdleParams },
    /// The thread is being looked up.
    LoadingThread { params: TurnStartIfIdleParams },
    /// The thread, now known, is asked whether clients may write to it.
    CheckingDirectInput { params: TurnStartIfIdleParams, thread_id: String },
    /// The size of the input is being validated.
    CheckingInputLimit { params: TurnStartIfIdleParams, thread_id: String },
    /// The trace of the request is being looked up.
    CollectingTrace { params: TurnStartIfIdleParams, thread_id: String },
    /// The thread decides.
    Submitting { thread_id: String, turn_has_input: bool },
    /// The request is answered.
    Answered,
}

/// A reply of the server's other parts.
#[derive(Debug, PartialEq, Eq)]
pub enum StartIfIdleEvent {
    ImageUrlsValidated(Result<(), JSONRPCErrorError>),
    /// The id of the thread that was found.
    ThreadLoaded(Result<String, JSONRPCErrorError>),
    DirectInputChecked(Result<(), JSONRPCErrorError>),
    InputLimitValidated(Result<(), JSONRPCErrorError>),
    TraceCollected(Option<W3cTraceContext>),
    TurnSubmitted(Result<StartIfIdlePreconditionSubmission, CodexError>),
}

/// Something to be told to the server's other parts, with no reply.
#[derive(Debug, PartialEq, Eq)]
pub enum StartIfIdleEffect {
    /// Record that the request is answered with an error.
    TrackErrorResponse { error: JSONRPCErrorError, error_type: Option<AnalyticsJsonRpcError> },
    /// Let the memories of the thread be written.
    StartMemoriesStartupTask { thread_id: String },
    /// Record which turn the request started.
    RecordRequestTurnId { turn_id: String },
}

/// What to do next.
#[derive(Debug, PartialEq, Eq)]
pub enum StartIfIdleAction {
    ValidateImageUrls,
    LoadThread,
    EnsureDirectInputAllowed,
    ValidateInputLimit,
    CollectTrace,
    /// Hand the request to the thread, under the preconditions.
    StartTurnIfIdle { request: TurnInputRequest, preconditions: StartIfIdlePreconditions },
    /// Answer the client.
    Respond(Result<Option<ClientResponsePayload>, JSONRPCErrorError>),
}

/// One step of the handling. The effects come first, in order, then the action.
#[derive(Debug, PartialEq, Eq)]
pub struct StartIfIdleStep {
    pub state: StartIfIdleState,
    pub effects: Vec<StartIfIdleEffect>,
    pub action: StartIfIdleAction,
}

impl StartIfIdleStep {
    /// The handling waits in `state` for the reply to `action`.
    pub open spec fn awaits(self, state: StartIfIdleState, action: StartIfIdleAction) -> bool {
        &&& self.state == state
        &&& self.effects@ == Seq::<StartIfIdleEffect>::empty()
        &&& self.action == action
    }

    /// The handling ends with an error that nothing records.
    pub open spec fn fails(self, error: ErrorView) -> bool {
        &&& self.state is Answered
        &&& self.effects@ == Seq::<StartIfIdleEffect>::empty()
        &&& self.action matches StartIfIdleAction::Respond(Err(answer)) && answer@ == error
    }

    /// The handling ends with an error that is recorded as `error_type`, and
    /// with nothing else.
    pub open spec fn fails_tracked(
        self,
        error: ErrorView,
        error_type: Option<AnalyticsJsonRpcError>,
    ) -> bool {
        &&& self.state is Answered
        &&& self.action matches StartIfIdleAction::Respond(Err(answer)) && {
            &&& answer@ == error
            &&& self.effects@ == seq![
                StartIfIdleEffect::TrackErrorResponse { error: answer, error_type },
            ]
        }
    }

    /// The handling ends with the admitted turn as the answer. The memories of
    /// the thread are written only if the turn got input.
    pub open spec fn admits(self, thread_id: String, turn_has_input: bool, turn_id: String) -> bool {
        &&& self.state is Answered
        &&& self.action == StartIfIdleAction::Respond(
            Ok(
                Some(
                    ClientResponsePayload::TurnStartIfIdle(
                        TurnStartResponse { turn: in_progress_turn(turn_id) },
                    ),
                ),
            ),
        )
        &&& self.effects@ == if turn_has_input {
            seq![
                StartIfIdleEffect::StartMemoriesStartupTask { thread_id },
                StartIfIdleEffect::RecordRequestTurnId { turn_id },
            ]
        } else {
            seq![StartIfIdleEffect::RecordRequestTurnId { turn_id }]
        }
    }

    /// The handling waits for the thread to decide on `params`: all of its
    /// input, in order, and nothing that would change the thread's settings;
    /// to be started only in the expected directory, in a thread that is
    /// stored, and not in plan mode.
    pub open spec fn submits(
        self,
        params: TurnStartIfIdleParams,
        thread_id: String,
        trace: Option<W3cTraceContext>,
    ) -> bool {
        &&& self.state == (StartIfIdleState::Submitting {
            thread_id,
            turn_has_input: params.input@.len() > 0,
        })
        &&& self.effects@ == Seq::<StartIfIdleEffect>::empty()
        &&& self.action matches StartIfIdleAction::StartTurnIfIdle { request, preconditions } && {
            &&& request.is_plain()
            &&& request.trace == trace
            &&& request.input matches TurnInput::UserInput { content, client_id } && {
                &&& content@ == core_items(params.input@)
                &&& client_id == params.client_user_message_id
            }
            &&& preconditions@ == (PreconditionsView {
                expected_cwd: Some(params.expected_cwd),
                require_persistence: true,
                disallow_plan_mode: true,
            })
        }
    }
}

/// `event` is the reply that `state` waits for.
pub open spec fn expects(state: StartIfIdleState, event: StartIfIdleEvent) -> bool {
    match state {
        StartIfIdleState::ValidatingImageUrls { .. } => event is ImageUrlsValidated,
        StartIfIdleState::LoadingThread { .. } => event is ThreadLoaded,
        StartIfIdleState::CheckingDirectInput { .. } => event is DirectInputChecked,
        StartIfIdleState::CheckingInputLimit { .. } => event is InputLimitValidated,
        StartIfIdleState::CollectingTrace { .. } => event is TraceCollected,
        StartIfIdleState::Submitting { .. } => event is TurnSubmitted,
        StartIfIdleState::Answered => false,
    }
}

/// Whether `event` is the reply that `state` waits for.
pub fn is_expected(state: &StartIfIdleState, event: &StartIfIdleEvent) -> (expected: bool)
    ensures
        expected == expects(*state, *event),
{
    match (state, event) {
        (StartIfIdleState::ValidatingImageUrls { .. }, StartIfIdleEvent::ImageUrlsValidated(_)) => true,
        (StartIfIdleState::LoadingThread { .. }, StartIfIdleEvent::ThreadLoaded(_)) => true,
        (StartIfIdleState::CheckingDirectInput { .. }, StartIfIdleEvent::DirectInputChecked(_)) => true,
        (StartIfIdleState::CheckingInputLimit { .. }, StartIfIdleEvent::InputLimitValidated(_)) => true,
        (StartIfIdleState::CollectingTrace { .. }, StartIfIdleEvent::TraceCollected(_)) => true,
        (StartIfIdleState::Submitting { .. }, StartIfIdleEvent::TurnSubmitted(_)) => true,
        _ => false,
    }
}

/// The error that answers a start which the thread refused for `reason`.
pub open spec fn rejection_error_view(
    reason: StartIfIdlePreconditionNotSubmittedReason,
) -> ErrorView {
    match reason {
        StartIfIdlePreconditionNotSubmittedReason::NotIdle => invalid_request_view("busy"@),
        StartIfIdlePreconditionNotSubmittedReason::PendingTriggerTurn => invalid_request_view(
            "pending trigger turn"@,
        ),
        StartIfIdlePreconditionNotSubmittedReason::PlanMode => invalid_request_view("plan mode"@),
        StartIfIdlePreconditionNotSubmittedReason::ExpectedCwdMismatch => invalid_request_view(
            "expectedCwd mismatch"@,
        ),
        StartIfIdlePreconditionNotSubmittedReason::PersistenceDisabled => invalid_request_view(
            "persistence disabled"@,
        ),
        StartIfIdlePreconditionNotSubmittedReason::ThreadSettingsUnsupported => internal_error_view(
            "idle-only admission unexpectedly rejected thread settings"@,
        ),
        StartIfIdlePreconditionNotSubmittedReason::EnvironmentNotReady => invalid_request_view(
            "environment not ready"@,
        ),
        StartIfIdlePreconditionNotSubmittedReason::Unrecognized { debug } => internal_error_view(
            "idle-only admission rejected for an unrecognized reason: "@ + debug@,
        ),
    }
}

/// The error that answers a start on which the thread itself failed: its own
/// words where it blames the request, its description otherwise.
pub open spec fn submission_error_view(error: CodexError) -> ErrorView {
    match error.details {
        CodexErrorDetails::InvalidRequest(message) => invalid_request_view(message@),
        CodexErrorDetails::Other => internal_error_view(
            "failed to start idle-only turn: "@ + error.description@,
        ),
    }
}

/// How the thread's decision is answered.
pub open spec fn submission_step(
    thread_id: String,
    turn_has_input: bool,
    submission: Result<StartIfIdlePreconditionSubmission, CodexError>,
    step: StartIfIdleStep,
) -> bool {
    match submission {
        Err(error) => step.fails_tracked(submission_error_view(error), None),
        Ok(StartIfIdlePreconditionSubmission::Started { turn_id }) => step.admits(
            thread_id,
            turn_has_input,
            turn_id,
        ),
        Ok(StartIfIdlePreconditionSubmission::NotSubmitted { reason }) => step.fails_tracked(
            rejection_error_view(reason),
            None,
        ),
        Ok(StartIfIdlePreconditionSubmission::Unrecognized) => step.fails_tracked(
            internal_error_view("idle-only admission returned an unrecognized result"@),
            None,
        ),
    }
}

/// `step` is what follows when `event` arrives in `state`.
pub open spec fn inner_step(
    state: StartIfIdleState,
    event: StartIfIdleEvent,
    step: StartIfIdleStep,
) -> bool {
    match (state, event) {
        (
            StartIfIdleState::ValidatingImageUrls { params },
            StartIfIdleEvent::ImageUrlsValidated(result),
        ) => match result {
            Ok(_) => step.awaits(
                StartIfIdleState::LoadingThread { params },
                StartIfIdleAction::LoadThread,
            ),
            Err(error) => step.fails(error@),
        },
        (StartIfIdleState::LoadingThread { params }, StartIfIdleEvent::ThreadLoaded(result)) => match result {
            Ok(thread_id) => step.awaits(
                StartIfIdleState::CheckingDirectInput { params, thread_id },
                StartIfIdleAction::EnsureDirectInputAllowed,
            ),
            Err(error) => step.fails_tracked(error@, None),
        },
        (
            StartIfIdleState::CheckingDirectInput { params, thread_id },
            StartIfIdleEvent::DirectInputChecked(result),
        ) => match result {
            Ok(_) => step.awaits(
                StartIfIdleState::CheckingInputLimit { params, thread_id },
                StartIfIdleAction::ValidateInputLimit,
            ),
            Err(error) => step.fails(error@),
        },
        (
            StartIfIdleState::CheckingInputLimit { params, thread_id },
            StartIfIdleEvent::InputLimitValidated(result),
        ) => match result {
            Ok(_) => step.awaits(
                StartIfIdleState::CollectingTrace { params, thread_id },
                StartIfIdleAction::CollectTrace,
            ),
            Err(error) => step.fails_tracked(error@, Some(AnalyticsJsonRpcError::InputTooLarge)),
        },
        (
            StartIfIdleState::CollectingTrace { params, thread_id },
            StartIfIdleEvent::TraceCollected(trace),
        ) => step.submits(params, thread_id, trace),
        (
            StartIfIdleState::Submitting { thread_id, turn_has_input },
            StartIfIdleEvent::TurnSubmitted(submission),
        ) => submission_step(thread_id, turn_has_input, submission, step),
        _ => false,
    }
}

/// Waits in `state` for the reply to `action`.
fn await_reply(state: StartIfIdleState, action: StartIfIdleAction) -> (step: StartIfIdleStep)
    ensures
        step.awaits(state, action),
{
    StartIfIdleStep { state, effects: Vec::new(), action }
}

/// Ends the handling with an error that nothing records.
fn fail(error: JSONRPCErrorError) -> (step: StartIfIdleStep)
    ensures
        step.fails(error@),
{
    StartIfIdleStep {
        state: StartIfIdleState::Answered,
        effects: Vec::new(),
        action: StartIfIdleAction::Respond(Err(error)),
    }
}

/// Ends the handling with an error that is recorded as `error_type`.
fn fail_tracked(error: JSONRPCErrorError, error_type: Option<AnalyticsJsonRpcError>) -> (step:
    StartIfIdleStep)
    ensures
        step.fails_tracked(error@, error_type),
{
    let mut effects: Vec<StartIfIdleEffect> = Vec::new();
    effects.push(StartIfIdleEffect::TrackErrorResponse { error: error.clone(), error_type });
    assert(effects@ =~= seq![StartIfIdleEffect::TrackErrorResponse { error, error_type }]);
    StartIfIdleStep {
        state: StartIfIdleState::Answered,
        effects,
        action: StartIfIdleAction::Respond(Err(error)),
    }
}

/// The handler of turn requests.
pub struct TurnRequestProcessor {}

impl TurnRequestProcessor {
    /// Takes up a request: the URLs of its images are validated first.
    pub fn turn_start_if_idle(params: TurnStartIfIdleParams) -> (step: StartIfIdleStep)
        ensures
            step.awaits(
                StartIfIdleState::ValidatingImageUrls { params },
                StartIfIdleAction::ValidateImageUrls,
            ),
    {
        await_reply(
            StartIfIdleState::ValidatingImageUrls { params },
            StartIfIdleAction::ValidateImageUrls,
        )
    }

    /// Goes on with a request when the reply that it waits for has come.
    pub fn turn_start_if_idle_inner(state: StartIfIdleState, event: StartIfIdleEvent) -> (step:
        StartIfIdleStep)
        requires
            expects(state, event),
        ensures
            inner_step(state, event, step),
    {
        match (state, event) {
            (
                StartIfIdleState::ValidatingImageUrls { params },
                StartIfIdleEvent::ImageUrlsValidated(result),
            ) => match result {
                Ok(_) => await_reply(
                    StartIfIdleState::LoadingThread { params },
                    StartIfIdleAction::LoadThread,
                ),
                Err(error) => fail(error),
            },
            (StartIfIdleState::LoadingThread { params }, StartIfIdleEvent::ThreadLoaded(result)) => match result {
                Ok(thread_id) => await_reply(
                    StartIfIdleState::CheckingDirectInput { params, thread_id },
                    StartIfIdleAction::EnsureDirectInputAllowed,
                ),
                Err(error) => fail_tracked(error, None),
            },
            (
                StartIfIdleState::CheckingDirectInput { params, thread_id },
                StartIfIdleEvent::DirectInputChecked(result),
            ) => match result {
                Ok(_) => await_reply(
                    StartIfIdleState::CheckingInputLimit { params, thread_id },
                    StartIfIdleAction::ValidateInputLimit,
                ),
                Err(error) => fail(error),
            },
            (
                StartIfIdleState::CheckingInputLimit { params, thread_id },
                StartIfIdleEvent::InputLimitValidated(result),
            ) => match result {
                Ok(_) => await_reply(
                    StartIfIdleState::CollectingTrace { params, thread_id },
                    StartIfIdleAction::CollectTrace,
                ),
                Err(error) => fail_tracked(error, Some(AnalyticsJsonRpcError::InputTooLarge)),
            },
            (
                StartIfIdleState::CollectingTrace { params, thread_id },
                StartIfIdleEvent::TraceCollected(trace),
            ) => Self::submit(params, thread_id, trace),
            (
                StartIfIdleState::Submitting { thread_id, turn_has_input },
                StartIfIdleEvent::TurnSubmitted(submission),
            ) => Self::answer_submission(thread_id, turn_has_input, submission),
            _ => unreached(),
        }
    }

    /// Hands a request that passed all checks to the thread.
    fn submit(
        params: TurnStartIfIdleParams,
        thread_id: String,
        trace: Option<W3cTraceContext>,
    ) -> (step: StartIfIdleStep)
        ensures
            step.submits(params, thread_id, trace),
    {
        let content = into_core_items(params.input);
        let turn_has_input = content.len() > 0;
        let preconditions = StartIfIdlePreconditions::default().with_expected_cwd(
            params.expected_cwd,
        ).require_persistence().disallow_plan_mode();
        let request = TurnInputRequest::new(
            TurnInput::UserInput { content, client_id: params.client_user_message_id },
        ).with_trace(trace);
        StartIfIdleStep {
            state: StartIfIdleState::Submitting { thread_id, turn_has_input },
            effects: Vec::new(),
            action: StartIfIdleAction::StartTurnIfIdle { request, preconditions },
        }
    }

    /// Answers a request on which the thread decided.
    fn answer_submission(
        thread_id: String,
        turn_has_input: bool,
        submission: Result<StartIfIdlePreconditionSubmission, CodexError>,
    ) -> (step: StartIfIdleStep)
        ensures
            submission_step(thread_id, turn_has_input, submission, step),
    {
        let turn_id = match submission {
            Err(error) => {
                return fail_tracked(Self::submission_error(error), None);
            },
            Ok(StartIfIdlePreconditionSubmission::Started { turn_id }) => turn_id,
            Ok(StartIfIdlePreconditionSubmission::NotSubmitted { reason }) => {
                return fail_tracked(Self::start_if_idle_rejection_error(reason), None);
            },
            Ok(StartIfIdlePreconditionSubmission::Unrecognized) => {
                return fail_tracked(
                    internal_error(
                        "idle-only admission returned an unrecognized result".to_string(),
                    ),
                    None,
                );
            },
        };
        let mut effects: Vec<StartIfIdleEffect> = Vec::new();
        if turn_has_input {
            effects.push(StartIfIdleEffect::StartMemoriesStartupTask { thread_id });
        }
        effects.push(StartIfIdleEffect::RecordRequestTurnId { turn_id: turn_id.clone() });
        proof {
            let recorded = StartIfIdleEffect::RecordRequestTurnId { turn_id };
            if turn_has_input {
                assert(effects@ =~= seq![
                    StartIfIdleEffect::StartMemoriesStartupTask { thread_id },
                    recorded,
                ]);
            } else {
                assert(effects@ =~= seq![recorded]);
            }
        }
        StartIfIdleStep {
            state: StartIfIdleState::Answered,
            effects,
            action: StartIfIdleAction::Respond(
                Ok(
                    Some(
                        ClientResponsePayload::TurnStartIfIdle(
                            Self::in_progress_turn_response(turn_id),
                        ),
                    ),
                ),
            ),
        }
    }

    /// The answer to a request that started the turn `turn_id`.
    pub fn in_progress_turn_response(turn_id: String) -> (response: TurnStartResponse)
        ensures
            response == (TurnStartResponse { turn: in_progress_turn(turn_id) }),
    {
        TurnStartResponse {
            turn: Turn {
                id: turn_id,
                status: TurnStatus::InProgress,
                error: None,
                started_at: None,
                completed_at: None,
                duration_ms: None,
            },
        }
    }

    /// The error that answers a start on which the thread itself failed.
    pub fn submission_error(error: CodexError) -> (answer: JSONRPCErrorError)
        ensures
            answer@ == submission_error_view(error),
    {
        match error.details {
            CodexErrorDetails::InvalidRequest(message) => invalid_request(message),
            CodexErrorDetails::Other => internal_error(
                "failed to start idle-only turn: ".to_string().concat(error.description.as_str()),
            ),
        }
    }

    /// The error that answers a start which the thread refused. Every reason
    /// that has a name gets an answer of its own; none of the preconditions
    /// that a request sets can lead to `ThreadSettingsUnsupported`.
    pub fn start_if_idle_rejection_error(reason: StartIfIdlePreconditionNotSubmittedReason) -> (error:
        JSONRPCErrorError)
        ensures
            error@ == rejection_error_view(reason),
    {
        match reason {
            StartIfIdlePreconditionNotSubmittedReason::NotIdle => invalid_request(
                "busy".to_string(),
            ),
            StartIfIdlePreconditionNotSubmittedReason::PendingTriggerTurn => invalid_request(
                "pending trigger turn".to_string(),
            ),
            StartIfIdlePreconditionNotSubmittedReason::PlanMode => invalid_request(
                "plan mode".to_string(),
            ),
            StartIfIdlePreconditionNotSubmittedReason::ExpectedCwdMismatch => invalid_request(
                "expectedCwd mismatch".to_string(),
            ),
            StartIfIdlePreconditionNotSubmittedReason::PersistenceDisabled => invalid_request(
                "persistence disabled".to_string(),
            ),
            StartIfIdlePreconditionNotSubmittedReason::ThreadSettingsUnsupported => internal_error(
                "idle-only admission unexpectedly rejected thread settings".to_string(),
            ),
            StartIfIdlePreconditionNotSubmittedReason::EnvironmentNotReady => invalid_request(
                "environment not ready".to_string(),
            ),
            StartIfIdlePreconditionNotSubmittedReason::Unrecognized { debug } => internal_error(
                "idle-only admission rejected for an unrecognized reason: ".to_string().concat(
                    debug.as_str(),
                ),
            ),
        }
    }
}

} // verus!
