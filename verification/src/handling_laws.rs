//! What each step of the handling of a request does, in terms of what it is given
//! and what it leads to.

use vstd::prelude::*;

use crate::absolute_path::AbsolutePathBuf;
use crate::error_code::JSONRPCErrorError;
use crate::request_laws::{is_run, request_is_submitted_after_all_checks};
use crate::session::Session;
use crate::turn::{ClientResponsePayload, TurnStartResponse};
use crate::turn_input::{
    StartIfIdlePreconditionNotSubmittedReason, StartIfIdlePreconditionSubmission,
    StartIfIdlePreconditions, TurnInput, TurnInputRequest, UserInput, V2UserInput, W3cTraceContext,
};
use crate::turn_processor::{
    is_expected, AnalyticsJsonRpcError, CodexError, CodexErrorDetails, StartIfIdleAction,
    StartIfIdleEffect, StartIfIdleEvent, StartIfIdleState, StartIfIdleStep, TurnRequestProcessor,
    TurnStartIfIdleParams,
};

verus! {

/// A request is taken up as it came, with nothing told to anyone, and the URLs of its
/// images are looked at first.
pub proof fn request_is_taken_up_as_it_came(
    params: TurnStartIfIdleParams,
    step: StartIfIdleStep,
)
    requires
        call_ensures(TurnRequestProcessor::turn_start_if_idle, (params,), step),
    ensures
        step.state == (StartIfIdleState::ValidatingImageUrls { params }),
        step.action is ValidateImageUrls,
        step.effects@.len() == 0,
{
}

/// After the images the thread is looked up, for the same request.
pub proof fn thread_is_looked_up_after_the_images(
    params: TurnStartIfIdleParams,
    step: StartIfIdleStep,
)
    requires
        call_ensures(
            TurnRequestProcessor::turn_start_if_idle_inner,
            (
                StartIfIdleState::ValidatingImageUrls { params },
                StartIfIdleEvent::ImageUrlsValidated(Ok(())),
            ),
            step,
        ),
    ensures
        step.state == (StartIfIdleState::LoadingThread { params }),
        step.action is LoadThread,
        step.effects@.len() == 0,
{
}

/// Images that are refused end the request with the error that they were refused for.
/// Nothing records it.
pub proof fn refused_images_end_the_request(
    params: TurnStartIfIdleParams,
    error: JSONRPCErrorError,
    step: StartIfIdleStep,
)
    requires
        call_ensures(
            TurnRequestProcessor::turn_start_if_idle_inner,
            (
                StartIfIdleState::ValidatingImageUrls { params },
                StartIfIdleEvent::ImageUrlsValidated(Err(error)),
            ),
            step,
        ),
    ensures
        step.state is Answered,
        step.action matches StartIfIdleAction::Respond(Err(answer)) && {
            &&& answer.code == error.code
            &&& answer.message@ == error.message@
            &&& answer.data is Some == error.data is Some
            &&& answer.data matches Some(data) ==> data@ == error.data->0@
        },
        step.effects@.len() == 0,
{
}

/// A thread that was found is asked whether clients may write to it. From here on it
/// is the one that was found.
pub proof fn found_thread_is_asked(
    params: TurnStartIfIdleParams,
    thread_id: String,
    step: StartIfIdleStep,
)
    requires
        call_ensures(
            TurnRequestProcessor::turn_start_if_idle_inner,
            (
                StartIfIdleState::LoadingThread { params },
                StartIfIdleEvent::ThreadLoaded(Ok(thread_id)),
            ),
            step,
        ),
    ensures
        step.state == (StartIfIdleState::CheckingDirectInput { params, thread_id }),
        step.action is EnsureDirectInputAllowed,
        step.effects@.len() == 0,
{
}

/// A thread that was not found ends the request with the error of the search, and
/// that is recorded.
pub proof fn missing_thread_ends_the_request(
    params: TurnStartIfIdleParams,
    error: JSONRPCErrorError,
    step: StartIfIdleStep,
)
    requires
        call_ensures(
            TurnRequestProcessor::turn_start_if_idle_inner,
            (
                StartIfIdleState::LoadingThread { params },
                StartIfIdleEvent::ThreadLoaded(Err(error)),
            ),
            step,
        ),
    ensures
        step.state is Answered,
        step.action matches StartIfIdleAction::Respond(Err(answer)) && {
            &&& answer.code == error.code
            &&& answer.message@ == error.message@
            &&& answer.data is Some == error.data is Some
            &&& answer.data matches Some(data) ==> data@ == error.data->0@
            &&& step.effects@.len() == 1
            &&& step.effects@[0] == (StartIfIdleEffect::TrackErrorResponse {
                error: answer,
                error_type: None,
            })
        },
{
}

/// A thread that clients may write to has the size of the input looked at.
pub proof fn size_is_looked_at_after_the_permission(
    params: TurnStartIfIdleParams,
    thread_id: String,
    step: StartIfIdleStep,
)
    requires
        call_ensures(
            TurnRequestProcessor::turn_start_if_idle_inner,
            (
                StartIfIdleState::CheckingDirectInput { params, thread_id },
                StartIfIdleEvent::DirectInputChecked(Ok(())),
            ),
            step,
        ),
    ensures
        step.state == (StartIfIdleState::CheckingInputLimit { params, thread_id }),
        step.action is ValidateInputLimit,
        step.effects@.len() == 0,
{
}

/// A thread that clients may not write to ends the request with its own error, which
/// is not recorded again.
pub proof fn missing_permission_ends_the_request(
    params: TurnStartIfIdleParams,
    thread_id: String,
    error: JSONRPCErrorError,
    step: StartIfIdleStep,
)
    requires
        call_ensures(
            TurnRequestProcessor::turn_start_if_idle_inner,
            (
                StartIfIdleState::CheckingDirectInput { params, thread_id },
                StartIfIdleEvent::DirectInputChecked(Err(error)),
            ),
            step,
        ),
    ensures
        step.state is Answered,
        step.action matches StartIfIdleAction::Respond(Err(answer)) && {
            &&& answer.code == error.code
            &&& answer.message@ == error.message@
            &&& answer.data is Some == error.data is Some
            &&& answer.data matches Some(data) ==> data@ == error.data->0@
        },
        step.effects@.len() == 0,
{
}

/// Input that is not too large has the trace of its request looked up.
pub proof fn trace_is_looked_up_after_the_size(
    params: TurnStartIfIdleParams,
    thread_id: String,
    step: StartIfIdleStep,
)
    requires
        call_ensures(
            TurnRequestProcessor::turn_start_if_idle_inner,
            (
                StartIfIdleState::CheckingInputLimit { params, thread_id },
                StartIfIdleEvent::InputLimitValidated(Ok(())),
            ),
            step,
        ),
    ensures
        step.state == (StartIfIdleState::CollectingTrace { params, thread_id }),
        step.action is CollectTrace,
        step.effects@.len() == 0,
{
}

/// Input that is too large ends the request with the error of the size check, and is
/// recorded as too large.
pub proof fn large_input_ends_the_request(
    params: TurnStartIfIdleParams,
    thread_id: String,
    error: JSONRPCErrorError,
    step: StartIfIdleStep,
)
    requires
        call_ensures(
            TurnRequestProcessor::turn_start_if_idle_inner,
            (
                StartIfIdleState::CheckingInputLimit { params, thread_id },
                StartIfIdleEvent::InputLimitValidated(Err(error)),
            ),
            step,
        ),
    ensures
        step.state is Answered,
        step.action matches StartIfIdleAction::Respond(Err(answer)) && {
            &&& answer.code == error.code
            &&& answer.message@ == error.message@
            &&& answer.data is Some == error.data is Some
            &&& answer.data matches Some(data) ==> data@ == error.data->0@
            &&& step.effects@.len() == 1
            &&& step.effects@[0] == (StartIfIdleEffect::TrackErrorResponse {
                error: answer,
                error_type: Some(AnalyticsJsonRpcError::InputTooLarge),
            })
        },
{
}

/// The thread is handed all of the client's input, item for item and in order, under
/// the client's own id for it.
pub proof fn thread_is_handed_all_input(
    params: TurnStartIfIdleParams,
    thread_id: String,
    trace: Option<W3cTraceContext>,
    step: StartIfIdleStep,
)
    requires
        call_ensures(
            TurnRequestProcessor::turn_start_if_idle_inner,
            (
                StartIfIdleState::CollectingTrace { params, thread_id },
                StartIfIdleEvent::TraceCollected(trace),
            ),
            step,
        ),
    ensures
        step.action matches StartIfIdleAction::StartTurnIfIdle { request, .. }
            && request.input matches TurnInput::UserInput { content, client_id } && {
            &&& client_id == params.client_user_message_id
            &&& content@.len() == params.input@.len()
            &&& forall|i: int|
                0 <= i < params.input@.len() ==> match #[trigger] params.input@[i] {
                    V2UserInput::Text { text, text_elements } => content@[i] == (
                    UserInput::Text { text, text_elements }),
                    V2UserInput::Other { json } => content@[i] == (UserInput::Other { json }),
                }
        },
{
}

/// The thread is handed nothing besides the input and the trace of the request: no
/// settings, no context and no metadata.
pub proof fn thread_is_handed_nothing_else(
    params: TurnStartIfIdleParams,
    thread_id: String,
    trace: Option<W3cTraceContext>,
    step: StartIfIdleStep,
)
    requires
        call_ensures(
            TurnRequestProcessor::turn_start_if_idle_inner,
            (
                StartIfIdleState::CollectingTrace { params, thread_id },
                StartIfIdleEvent::TraceCollected(trace),
            ),
            step,
        ),
    ensures
        step.action matches StartIfIdleAction::StartTurnIfIdle { request, .. } && {
            &&& request.trace == trace
            &&& request.thread_settings.environments is None
            &&& request.thread_settings.approval_policy is None
            &&& request.thread_settings.approvals_reviewer is None
            &&& request.thread_settings.sandbox_policy is None
            &&& request.thread_settings.permission_profile is None
            &&& request.thread_settings.summary is None
            &&& request.thread_settings.personality is None
            &&& request.thread_settings.collaboration_mode is None
            &&& request.additional_context@.dom() == Set::<String>::empty()
            &&& request.responsesapi_client_metadata is None
        },
{
}

/// The thread is held to the directory that the client expects, to being stored, and
/// to not being in plan mode; the getters of the demands say so.
pub proof fn thread_is_held_to_all_demands(
    params: TurnStartIfIdleParams,
    thread_id: String,
    trace: Option<W3cTraceContext>,
    step: StartIfIdleStep,
    preconditions: StartIfIdlePreconditions,
    request: TurnInputRequest,
    directory: Option<&AbsolutePathBuf>,
    persistence: bool,
    plan_mode: bool,
)
    requires
        call_ensures(
            TurnRequestProcessor::turn_start_if_idle_inner,
            (
                StartIfIdleState::CollectingTrace { params, thread_id },
                StartIfIdleEvent::TraceCollected(trace),
            ),
            step,
        ),
        step.action == (StartIfIdleAction::StartTurnIfIdle { request, preconditions }),
        call_ensures(StartIfIdlePreconditions::expected_cwd, (&preconditions,), directory),
        call_ensures(
            StartIfIdlePreconditions::requires_persistence,
            (&preconditions,),
            persistence,
        ),
        call_ensures(StartIfIdlePreconditions::disallows_plan_mode, (&preconditions,), plan_mode),
    ensures
        directory matches Some(directory) && *directory == params.expected_cwd,
        persistence,
        plan_mode,
{
}

/// While the thread decides, nothing is told to anyone, and what is kept is which
/// thread it is and whether there was any input.
pub proof fn deciding_thread_is_remembered(
    params: TurnStartIfIdleParams,
    thread_id: String,
    trace: Option<W3cTraceContext>,
    step: StartIfIdleStep,
)
    requires
        call_ensures(
            TurnRequestProcessor::turn_start_if_idle_inner,
            (
                StartIfIdleState::CollectingTrace { params, thread_id },
                StartIfIdleEvent::TraceCollected(trace),
            ),
            step,
        ),
    ensures
        step.state matches StartIfIdleState::Submitting { thread_id: kept, turn_has_input } && {
            &&& kept == thread_id
            &&& turn_has_input <==> params.input@.len() > 0
        },
        step.action is StartTurnIfIdle,
        step.effects@.len() == 0,
{
}

/// A turn that was started is the answer, in progress and without an error or times.
pub proof fn started_turn_is_the_answer(
    thread_id: String,
    turn_has_input: bool,
    turn_id: String,
    step: StartIfIdleStep,
)
    requires
        call_ensures(
            TurnRequestProcessor::turn_start_if_idle_inner,
            (
                StartIfIdleState::Submitting { thread_id, turn_has_input },
                StartIfIdleEvent::TurnSubmitted(
                    Ok(StartIfIdlePreconditionSubmission::Started { turn_id }),
                ),
            ),
            step,
        ),
    ensures
        step.state is Answered,
        step.action matches StartIfIdleAction::Respond(
            Ok(Some(ClientResponsePayload::TurnStartIfIdle(response))),
        ) && {
            &&& response.turn.id == turn_id
            &&& response.turn.status is InProgress
            &&& response.turn.error is None
            &&& response.turn.started_at is None
            &&& response.turn.completed_at is None
            &&& response.turn.duration_ms is None
        },
{
}

/// A turn that was started is recorded for its request. The memories of the thread
/// are written first, and exactly when there was input.
pub proof fn started_turn_is_recorded(
    thread_id: String,
    turn_has_input: bool,
    turn_id: String,
    step: StartIfIdleStep,
)
    requires
        call_ensures(
            TurnRequestProcessor::turn_start_if_idle_inner,
            (
                StartIfIdleState::Submitting { thread_id, turn_has_input },
                StartIfIdleEvent::TurnSubmitted(
                    Ok(StartIfIdlePreconditionSubmission::Started { turn_id }),
                ),
            ),
            step,
        ),
    ensures
        step.effects@.len() == if turn_has_input {
            2int
        } else {
            1int
        },
        step.effects@.last() == (StartIfIdleEffect::RecordRequestTurnId { turn_id }),
        turn_has_input ==> step.effects@[0] == (StartIfIdleEffect::StartMemoriesStartupTask {
            thread_id,
        }),
{
}

/// A refusal is answered in the words of its reason, as the request's own fault unless
/// the reason is one that no request leads to, and is recorded as it is answered.
pub proof fn refusal_is_answered_in_its_own_words(
    thread_id: String,
    turn_has_input: bool,
    reason: StartIfIdlePreconditionNotSubmittedReason,
    step: StartIfIdleStep,
)
    requires
        call_ensures(
            TurnRequestProcessor::turn_start_if_idle_inner,
            (
                StartIfIdleState::Submitting { thread_id, turn_has_input },
                StartIfIdleEvent::TurnSubmitted(
                    Ok(StartIfIdlePreconditionSubmission::NotSubmitted { reason }),
                ),
            ),
            step,
        ),
    ensures
        step.state is Answered,
        step.action matches StartIfIdleAction::Respond(Err(answer)) && {
            &&& answer.data is None
            &&& step.effects@.len() == 1
            &&& step.effects@[0] == (StartIfIdleEffect::TrackErrorResponse {
                error: answer,
                error_type: None,
            })
            &&& answer.code == if reason is ThreadSettingsUnsupported || reason is Unrecognized {
                -32603int
            } else {
                -32600int
            }
            &&& reason is NotIdle ==> answer.message@
                == "busy"@
            &&& reason is PendingTriggerTurn ==> answer.message@
                == "pending trigger turn"@
            &&& reason is PlanMode ==> answer.message@
                == "plan mode"@
            &&& reason is ExpectedCwdMismatch ==> answer.message@
                == "expectedCwd mismatch"@
            &&& reason is PersistenceDisabled ==> answer.message@
                == "persistence disabled"@
            &&& reason is EnvironmentNotReady ==> answer.message@
                == "environment not ready"@
            &&& reason is ThreadSettingsUnsupported ==> answer.message@
                == "idle-only admission unexpectedly rejected thread settings"@
            &&& reason matches StartIfIdlePreconditionNotSubmittedReason::Unrecognized { debug }
                ==> answer.message@
                == "idle-only admission rejected for an unrecognized reason: "@ + debug@
        },
{
}

/// A thread that blames the request is quoted, as the fault of the request.
pub proof fn blamed_request_is_answered_in_the_words_of_the_thread(
    thread_id: String,
    turn_has_input: bool,
    message: String,
    description: String,
    step: StartIfIdleStep,
)
    requires
        call_ensures(
            TurnRequestProcessor::turn_start_if_idle_inner,
            (
                StartIfIdleState::Submitting { thread_id, turn_has_input },
                StartIfIdleEvent::TurnSubmitted(Err(
                    CodexError {
                        details: CodexErrorDetails::InvalidRequest(message),
                        description,
                    },
                )),
            ),
            step,
        ),
    ensures
        step.state is Answered,
        step.action matches StartIfIdleAction::Respond(Err(answer)) && {
            &&& answer.code == -32600
            &&& answer.message@ == message@
            &&& answer.data is None
            &&& step.effects@.len() == 1
            &&& step.effects@[0] == (StartIfIdleEffect::TrackErrorResponse {
                error: answer,
                error_type: None,
            })
        },
{
}

/// A thread that failed otherwise is answered with its description, as the fault of
/// the server.
pub proof fn failed_thread_is_answered_with_its_description(
    thread_id: String,
    turn_has_input: bool,
    description: String,
    step: StartIfIdleStep,
)
    requires
        call_ensures(
            TurnRequestProcessor::turn_start_if_idle_inner,
            (
                StartIfIdleState::Submitting { thread_id, turn_has_input },
                StartIfIdleEvent::TurnSubmitted(
                    Err(CodexError { details: CodexErrorDetails::Other, description }),
                ),
            ),
            step,
        ),
    ensures
        step.state is Answered,
        step.action matches StartIfIdleAction::Respond(Err(answer)) && {
            &&& answer.code == -32603
            &&& answer.message@ == "failed to start idle-only turn: "@ + description@
            &&& answer.data is None
            &&& step.effects@.len() == 1
            &&& step.effects@[0] == (StartIfIdleEffect::TrackErrorResponse {
                error: answer,
                error_type: None,
            })
        },
{
}

/// An outcome without a name is answered as the fault of the server.
pub proof fn outcome_without_a_name_is_answered(
    thread_id: String,
    turn_has_input: bool,
    step: StartIfIdleStep,
)
    requires
        call_ensures(
            TurnRequestProcessor::turn_start_if_idle_inner,
            (
                StartIfIdleState::Submitting { thread_id, turn_has_input },
                StartIfIdleEvent::TurnSubmitted(
                    Ok(StartIfIdlePreconditionSubmission::Unrecognized),
                ),
            ),
            step,
        ),
    ensures
        step.state is Answered,
        step.action matches StartIfIdleAction::Respond(Err(answer)) && {
            &&& answer.code == -32603
            &&& answer.message@ == "idle-only admission returned an unrecognized result"@
            &&& answer.data is None
            &&& step.effects@.len() == 1
            &&& step.effects@[0] == (StartIfIdleEffect::TrackErrorResponse {
                error: answer,
                error_type: None,
            })
        },
{
}

/// Each reason has the words and the code of its own.
pub proof fn reasons_have_their_own_words(
    reason: StartIfIdlePreconditionNotSubmittedReason,
    error: JSONRPCErrorError,
)
    requires
        call_ensures(TurnRequestProcessor::start_if_idle_rejection_error, (reason,), error),
    ensures
        reason is NotIdle ==> error.code == -32600 && error.message@
            == "busy"@,
        reason is PendingTriggerTurn ==> error.code == -32600 && error.message@
            == "pending trigger turn"@,
        reason is PlanMode ==> error.code == -32600 && error.message@
            == "plan mode"@,
        reason is ExpectedCwdMismatch ==> error.code == -32600 && error.message@
            == "expectedCwd mismatch"@,
        reason is PersistenceDisabled ==> error.code == -32600 && error.message@
            == "persistence disabled"@,
        reason is EnvironmentNotReady ==> error.code == -32600 && error.message@
            == "environment not ready"@,
        reason is ThreadSettingsUnsupported ==> error.code == -32603 && error.message@
            == "idle-only admission unexpectedly rejected thread settings"@,
        reason matches StartIfIdlePreconditionNotSubmittedReason::Unrecognized { debug }
            ==> error.code == -32603 && error.message@
            == "idle-only admission rejected for an unrecognized reason: "@ + debug@,
        error.data is None,
{
}

/// A thread's error is answered in its own words where it blames the request, and with
/// its description otherwise.
pub proof fn errors_of_the_thread_have_their_words(
    failure: CodexError,
    error: JSONRPCErrorError,
)
    requires
        call_ensures(TurnRequestProcessor::submission_error, (failure,), error),
    ensures
        failure.details matches CodexErrorDetails::InvalidRequest(message) ==> error.code == -32600
            && error.message@ == message@,
        failure.details is Other ==> error.code == -32603 && error.message@
            == "failed to start idle-only turn: "@ + failure.description@,
        error.data is None,
{
}

/// The answer to a request that started a turn is that turn, in progress.
pub proof fn answered_turn_is_in_progress(
    turn_id: String,
    response: TurnStartResponse,
)
    requires
        call_ensures(TurnRequestProcessor::in_progress_turn_response, (turn_id,), response),
    ensures
        response.turn.id == turn_id,
        response.turn.status is InProgress,
        response.turn.error is None,
        response.turn.started_at is None,
        response.turn.completed_at is None,
        response.turn.duration_ms is None,
{
}

/// A reply is expected exactly where it was asked for, whatever it says.
pub proof fn replies_are_expected_where_asked_for(
    state: StartIfIdleState,
    event: StartIfIdleEvent,
    expected: bool,
)
    requires
        call_ensures(is_expected, (&state, &event), expected),
    ensures
        state is ValidatingImageUrls ==> expected == event is ImageUrlsValidated,
        state is LoadingThread ==> expected == event is ThreadLoaded,
        state is CheckingDirectInput ==> expected == event is DirectInputChecked,
        state is CheckingInputLimit ==> expected == event is InputLimitValidated,
        state is CollectingTrace ==> expected == event is TraceCollected,
        state is Submitting ==> expected == event is TurnSubmitted,
        state is Answered ==> !expected,
{
}

/// In every handling, what is handed to the thread is all of the client's input, item
/// for item and in order.
pub proof fn handled_request_submits_all_input(
    params: TurnStartIfIdleParams,
    events: Seq<StartIfIdleEvent>,
    steps: Seq<StartIfIdleStep>,
    at: int,
)
    requires
        is_run(params, events, steps),
        0 <= at < steps.len(),
        steps[at].action is StartTurnIfIdle,
    ensures
        steps[at].action matches StartIfIdleAction::StartTurnIfIdle { request, .. }
            && request.input matches TurnInput::UserInput { content, client_id } && {
            &&& client_id == params.client_user_message_id
            &&& content@.len() == params.input@.len()
            &&& forall|i: int|
                0 <= i < params.input@.len() ==> match #[trigger] params.input@[i] {
                    V2UserInput::Text { text, text_elements } => content@[i] == (
                    UserInput::Text { text, text_elements }),
                    V2UserInput::Other { json } => content@[i] == (UserInput::Other { json }),
                }
        },
{
    request_is_submitted_after_all_checks(params, events, steps, at);
}

/// A turn that is admitted for a client's request starts with all of the client's
/// input, item for item and in order, under the trace of the request, in the directory
/// that the client expects.
pub proof fn admitted_turn_starts_with_all_input(
    params: TurnStartIfIdleParams,
    thread_id: String,
    trace: Option<W3cTraceContext>,
    step: StartIfIdleStep,
    session: &mut Session,
    request: TurnInputRequest,
    preconditions: StartIfIdlePreconditions,
    turn_id: String,
    submission: StartIfIdlePreconditionSubmission,
)
    requires
        call_ensures(
            TurnRequestProcessor::turn_start_if_idle_inner,
            (
                StartIfIdleState::CollectingTrace { params, thread_id },
                StartIfIdleEvent::TraceCollected(trace),
            ),
            step,
        ),
        step.action == (StartIfIdleAction::StartTurnIfIdle { request, preconditions }),
        call_ensures(
            Session::start_if_idle_with_preconditions,
            (session, request, preconditions, turn_id),
            submission,
        ),
        submission is Started,
    ensures
        final(session).active_turn matches Some(active) && active.task matches Some(task) && {
            &&& task.input@.len() == 1
            &&& task.input@[0] matches TurnInput::UserInput { content, client_id } && {
                &&& client_id == params.client_user_message_id
                &&& content@.len() == params.input@.len()
                &&& forall|i: int|
                    0 <= i < params.input@.len() ==> match #[trigger] params.input@[i] {
                        V2UserInput::Text { text, text_elements } => content@[i] == (
                        UserInput::Text { text, text_elements }),
                        V2UserInput::Other { json } => content@[i] == (UserInput::Other { json }),
                    }
            }
            &&& task.context matches Some(context) && context.trace == trace
            &&& task.cwd matches Some(cwd) && cwd@ == params.expected_cwd@
        },
{
    assert(seq![request.input][0] == request.input);
}

/// The same holds of a turn that is admitted after a second look.
pub proof fn late_turn_starts_with_all_input(
    params: TurnStartIfIdleParams,
    thread_id: String,
    trace: Option<W3cTraceContext>,
    step: StartIfIdleStep,
    session: &mut Session,
    request: TurnInputRequest,
    preconditions: StartIfIdlePreconditions,
    turn_id: String,
    trigger_turn_id: String,
    submission: StartIfIdlePreconditionSubmission,
)
    requires
        call_ensures(
            TurnRequestProcessor::turn_start_if_idle_inner,
            (
                StartIfIdleState::CollectingTrace { params, thread_id },
                StartIfIdleEvent::TraceCollected(trace),
            ),
            step,
        ),
        step.action == (StartIfIdleAction::StartTurnIfIdle { request, preconditions }),
        call_ensures(
            Session::reserve_and_start,
            (session, request, preconditions, turn_id, trigger_turn_id),
            submission,
        ),
        submission is Started,
    ensures
        final(session).active_turn matches Some(active) && active.task matches Some(task) && {
            &&& task.input@.len() == 1
            &&& task.input@[0] matches TurnInput::UserInput { content, client_id } && {
                &&& client_id == params.client_user_message_id
                &&& content@.len() == params.input@.len()
                &&& forall|i: int|
                    0 <= i < params.input@.len() ==> match #[trigger] params.input@[i] {
                        V2UserInput::Text { text, text_elements } => content@[i] == (
                        UserInput::Text { text, text_elements }),
                        V2UserInput::Other { json } => content@[i] == (UserInput::Other { json }),
                    }
            }
            &&& task.context matches Some(context) && context.trace == trace
            &&& task.cwd matches Some(cwd) && cwd@ == params.expected_cwd@
        },
{
    assert(seq![request.input][0] == request.input);
}

/// A client's request starts a turn only in a thread that is idle, stored and not in
/// plan mode, and in which no message waits to start one; whatever the thread is
/// like, a refusal leaves it as it was.
pub proof fn client_starts_no_turn_elsewhere(
    params: TurnStartIfIdleParams,
    thread_id: String,
    trace: Option<W3cTraceContext>,
    step: StartIfIdleStep,
    session: &mut Session,
    request: TurnInputRequest,
    preconditions: StartIfIdlePreconditions,
    turn_id: String,
    submission: StartIfIdlePreconditionSubmission,
)
    requires
        call_ensures(
            TurnRequestProcessor::turn_start_if_idle_inner,
            (
                StartIfIdleState::CollectingTrace { params, thread_id },
                StartIfIdleEvent::TraceCollected(trace),
            ),
            step,
        ),
        step.action == (StartIfIdleAction::StartTurnIfIdle { request, preconditions }),
        call_ensures(
            Session::start_if_idle_with_preconditions,
            (session, request, preconditions, turn_id),
            submission,
        ),
    ensures
        submission is Started ==> {
            &&& old(session).active_turn is None
            &&& old(session).persistent
            &&& old(session).configuration.collaboration_mode is Default
            &&& forall|i: int|
                0 <= i < old(session).mailbox@.len() ==> !(
                #[trigger] old(session).mailbox@[i]).communication.trigger_turn
        },
        !(submission is Started) ==> *final(session) == *old(session),
{
}

} // verus!
