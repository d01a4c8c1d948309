use turn_admission::absolute_path::AbsolutePathBuf;
use turn_admission::completion::{CompletionAction, ThreadCompletion, TurnEnd};
use turn_admission::environment::{EnvironmentReadiness, TurnEnvironment};
use turn_admission::error_code::{
    internal_error, invalid_request, JSONRPCErrorError, INTERNAL_ERROR_CODE,
    INVALID_REQUEST_ERROR_CODE,
};
use turn_admission::outgoing::{ConnectionId, Received, TurnCompletedNotification};
use turn_admission::session::{Session, SessionConfiguration, SessionEvent};
use turn_admission::turn::{ClientResponsePayload, Turn, TurnStartResponse, TurnStatus};
use turn_admission::turn_input::{
    ApprovalsReviewer, AskForApproval, ModeKind, StartIfIdlePreconditionNotSubmittedReason,
    StartIfIdlePreconditionSubmission, TurnInput, TurnInputMode, TurnInputRequest, UserInput,
    V2UserInput, W3cTraceContext,
};
use turn_admission::turn_processor::{
    is_expected, AnalyticsJsonRpcError, CodexError, CodexErrorDetails, StartIfIdleAction,
    StartIfIdleEffect, StartIfIdleEvent, StartIfIdleState, StartIfIdleStep, TurnRequestProcessor,
    TurnStartIfIdleParams,
};

const INVALID_REQUEST: i64 = -32600;

type Answer = Result<Option<ClientResponsePayload>, JSONRPCErrorError>;

fn path(text: &str) -> AbsolutePathBuf {
    AbsolutePathBuf::from_absolute_path(text).expect("absolute cwd")
}

/// An idle, stored session that works in `/workspace`.
fn make_session() -> Session {
    Session {
        configuration: SessionConfiguration {
            environments: vec![TurnEnvironment {
                environment_id: "local".to_string(),
                cwd: path("/workspace"),
                workspace_roots: Vec::new(),
                readiness: EnvironmentReadiness::Ready,
            }],
            approval_policy: AskForApproval::OnRequest,
            approvals_reviewer: ApprovalsReviewer::User,
            sandbox_policy: "\"workspace-write\"".to_string(),
            permission_profile: "\"default\"".to_string(),
            summary: None,
            personality: None,
            collaboration_mode: ModeKind::Default,
        },
        persistent: true,
        active_turn: None,
        mailbox: Vec::new(),
        connector_selection: Vec::new(),
        mcp_refresh_pending: false,
        events: Vec::new(),
    }
}

fn text_input(text: &str) -> V2UserInput {
    V2UserInput::Text {
        text: text.to_string(),
        text_elements: Vec::new(),
    }
}

fn params(expected_cwd: &str, text: &str) -> TurnStartIfIdleParams {
    TurnStartIfIdleParams {
        thread_id: "thread-1".to_string(),
        expected_cwd: path(expected_cwd),
        client_user_message_id: Some(format!("client-{text}")),
        input: vec![text_input(text)],
    }
}

fn go_on(step: StartIfIdleStep, event: StartIfIdleEvent) -> StartIfIdleStep {
    assert!(is_expected(&step.state, &event));
    assert!(step.effects.is_empty());
    TurnRequestProcessor::turn_start_if_idle_inner(step.state, event)
}

/// Handles a request up to the point where the thread is to decide.
fn submit(params: TurnStartIfIdleParams) -> StartIfIdleStep {
    let step = TurnRequestProcessor::turn_start_if_idle(params);
    assert_eq!(step.action, StartIfIdleAction::ValidateImageUrls);
    let step = go_on(step, StartIfIdleEvent::ImageUrlsValidated(Ok(())));
    assert_eq!(step.action, StartIfIdleAction::LoadThread);
    let step = go_on(step, StartIfIdleEvent::ThreadLoaded(Ok("thread-1".to_string())));
    assert_eq!(step.action, StartIfIdleAction::EnsureDirectInputAllowed);
    let step = go_on(step, StartIfIdleEvent::DirectInputChecked(Ok(())));
    assert_eq!(step.action, StartIfIdleAction::ValidateInputLimit);
    let step = go_on(step, StartIfIdleEvent::InputLimitValidated(Ok(())));
    assert_eq!(step.action, StartIfIdleAction::CollectTrace);
    go_on(step, StartIfIdleEvent::TraceCollected(None))
}

fn finish(step: StartIfIdleStep) -> (Vec<StartIfIdleEffect>, Answer) {
    assert_eq!(step.state, StartIfIdleState::Answered);
    match step.action {
        StartIfIdleAction::Respond(answer) => (step.effects, answer),
        action => panic!("unanswered: {action:?}"),
    }
}

/// Handles a request with `session` deciding on it.
fn serve(
    session: &mut Session,
    params: TurnStartIfIdleParams,
    turn_id: &str,
) -> (Vec<StartIfIdleEffect>, Answer) {
    let step = submit(params);
    let submission = match step.action {
        StartIfIdleAction::StartTurnIfIdle {
            request,
            preconditions,
        } => session.start_if_idle_with_preconditions(request, preconditions, turn_id.to_string()),
        action => panic!("not submitted: {action:?}"),
    };
    finish(TurnRequestProcessor::turn_start_if_idle_inner(
        step.state,
        StartIfIdleEvent::TurnSubmitted(Ok(submission)),
    ))
}

fn turn_of(answer: Answer) -> Turn {
    match answer {
        Ok(Some(ClientResponsePayload::TurnStartIfIdle(TurnStartResponse { turn }))) => turn,
        other => panic!("no turn: {other:?}"),
    }
}

fn recorded(error: &JSONRPCErrorError) -> Vec<StartIfIdleEffect> {
    vec![StartIfIdleEffect::TrackErrorResponse {
        error: error.clone(),
        error_type: None,
    }]
}

/// Ends the turn that `session` runs, flushes the thread, and reads what the
/// client is told of it.
fn complete(session: &mut Session) -> TurnCompletedNotification {
    let end = TurnEnd {
        started_at: None,
        last_agent_message: Some("done".to_string()),
        error: None,
        completed_at: None,
        duration_ms: None,
        time_to_first_token_ms: None,
    };
    let event = session.complete_turn(end).expect("a turn is running");
    let mut thread =
        ThreadCompletion::new("thread-1".to_string(), false, vec![ConnectionId(1)]);
    thread.turn_started(event.turn_id.clone(), None);
    match thread.turn_complete(event) {
        CompletionAction::FlushThread(pending) => thread.flush_finished(pending, Ok(())),
        CompletionAction::Done => panic!("the thread is stored"),
    }
    assert_eq!(thread.outgoing.len(), 1);
    Received::Envelope(thread.outgoing.remove(0))
        .recv_terminal()
        .expect("the end of the turn")
}

#[test]
fn environment_not_ready_is_an_invalid_request() {
    let error = TurnRequestProcessor::start_if_idle_rejection_error(
        StartIfIdlePreconditionNotSubmittedReason::EnvironmentNotReady,
    );

    assert_eq!(
        error,
        JSONRPCErrorError {
            code: INVALID_REQUEST_ERROR_CODE,
            message: "environment not ready".to_string(),
            data: None,
        }
    );
}

#[test]
fn every_reason_has_its_own_answer() {
    assert_eq!(INVALID_REQUEST_ERROR_CODE, INVALID_REQUEST);
    assert_eq!(INTERNAL_ERROR_CODE, -32603);
    let answers = [
        (StartIfIdlePreconditionNotSubmittedReason::NotIdle, -32600, "busy"),
        (
            StartIfIdlePreconditionNotSubmittedReason::PendingTriggerTurn,
            -32600,
            "pending trigger turn",
        ),
        (StartIfIdlePreconditionNotSubmittedReason::PlanMode, -32600, "plan mode"),
        (
            StartIfIdlePreconditionNotSubmittedReason::ExpectedCwdMismatch,
            -32600,
            "expectedCwd mismatch",
        ),
        (
            StartIfIdlePreconditionNotSubmittedReason::PersistenceDisabled,
            -32600,
            "persistence disabled",
        ),
        (
            StartIfIdlePreconditionNotSubmittedReason::ThreadSettingsUnsupported,
            -32603,
            "idle-only admission unexpectedly rejected thread settings",
        ),
        (
            StartIfIdlePreconditionNotSubmittedReason::EnvironmentNotReady,
            -32600,
            "environment not ready",
        ),
        (
            StartIfIdlePreconditionNotSubmittedReason::Unrecognized {
                debug: "Frozen { until: 3 }".to_string(),
            },
            -32603,
            "idle-only admission rejected for an unrecognized reason: Frozen { until: 3 }",
        ),
    ];
    for (reason, code, message) in answers {
        let error = TurnRequestProcessor::start_if_idle_rejection_error(reason);
        assert_eq!(
            error,
            JSONRPCErrorError {
                code,
                message: message.to_string(),
                data: None,
            }
        );
    }
}

#[test]
fn wrong_cwd_rejects_then_matching_cwd_admits_exact_turn() {
    let mut session = make_session();

    let (effects, rejected) = serve(&mut session, params("/wrong", "wrong-cwd"), "turn-1");
    let error = rejected.expect_err("the directory is wrong");
    assert_eq!(error.code, INVALID_REQUEST);
    assert_eq!(error.message, "expectedCwd mismatch");
    assert_eq!(effects, recorded(&error));
    assert_eq!(session, make_session());

    let (_, admitted) = serve(&mut session, params("/workspace", "accepted"), "turn-2");
    let turn = turn_of(admitted);
    assert_eq!(turn.id, "turn-2");
    assert_eq!(turn.status, TurnStatus::InProgress);
    assert_eq!(
        session.events,
        vec![SessionEvent::TurnStarted {
            turn_id: turn.id.clone(),
        }]
    );
    let task = session
        .active_turn
        .as_ref()
        .and_then(|active_turn| active_turn.task.as_ref())
        .expect("the turn is running");
    assert_eq!(task.turn_id, turn.id);
    assert_eq!(
        task.input,
        vec![TurnInput::UserInput {
            content: vec![UserInput::Text {
                text: "accepted".to_string(),
                text_elements: Vec::new(),
            }],
            client_id: Some("client-accepted".to_string()),
        }]
    );
    let completed = complete(&mut session);
    assert_eq!(completed.turn.id, turn.id);
    assert_eq!(completed.turn.status, TurnStatus::Completed);
    assert!(session.active_turn.is_none());
}

#[test]
fn ordinary_turn_queued_first_wins_and_conditional_input_is_not_sent() {
    let mut session = make_session();
    session.handle(
        TurnInputRequest::user_input(vec![UserInput::Text {
            text: "ordinary-first".to_string(),
            text_elements: Vec::new(),
        }]),
        TurnInputMode::StartOrSteer,
        "ordinary".to_string(),
    );

    let (_, answer) = serve(
        &mut session,
        params("/workspace", "conditional-must-not-steer"),
        "conditional",
    );
    let error = answer.expect_err("a turn is running");
    assert_eq!(error.code, INVALID_REQUEST);
    assert_eq!(error.message, "busy");

    let active_turn = session.active_turn.as_ref().expect("the turn is running");
    assert!(active_turn.pending_input.is_empty());
    let task = active_turn.task.as_ref().expect("the turn has a task");
    assert_eq!(task.turn_id, "ordinary");
    assert_eq!(
        task.input,
        vec![TurnInput::UserInput {
            content: vec![UserInput::Text {
                text: "ordinary-first".to_string(),
                text_elements: Vec::new(),
            }],
            client_id: None,
        }]
    );

    let completed = complete(&mut session);
    assert_eq!(completed.turn.id, "ordinary");
    assert!(session.active_turn.is_none());
}

#[test]
fn plan_mode_rejects_without_provider_work() {
    let mut session = make_session();
    session.configuration.collaboration_mode = ModeKind::Plan;

    let (_, answer) = serve(&mut session, params("/workspace", "not-in-plan"), "turn-1");
    let error = answer.expect_err("plan mode");
    assert_eq!(error.code, INVALID_REQUEST);
    assert_eq!(error.message, "plan mode");
    assert!(session.active_turn.is_none());
    assert!(session.events.is_empty());
}

#[test]
fn ephemeral_thread_rejects_without_provider_work() {
    let mut session = make_session();
    session.persistent = false;

    let (_, answer) = serve(&mut session, params("/workspace", "ephemeral"), "turn-1");
    let error = answer.expect_err("the thread is not stored");
    assert_eq!(error.code, INVALID_REQUEST);
    assert_eq!(error.message, "persistence disabled");
    assert!(session.active_turn.is_none());
    assert!(session.events.is_empty());
}

#[test]
fn admitted_turn_starts_memory_pipeline() {
    let mut session = make_session();
    let (effects, answer) = serve(&mut session, params("/workspace", "remember-this"), "turn-1");
    assert_eq!(turn_of(answer).id, "turn-1");
    assert_eq!(
        effects,
        vec![
            StartIfIdleEffect::StartMemoriesStartupTask {
                thread_id: "thread-1".to_string(),
            },
            StartIfIdleEffect::RecordRequestTurnId {
                turn_id: "turn-1".to_string(),
            },
        ]
    );
}

#[test]
fn turn_without_input_starts_no_memory_pipeline() {
    let mut session = make_session();
    let mut empty = params("/workspace", "nothing");
    empty.input = Vec::new();
    let (effects, answer) = serve(&mut session, empty, "turn-1");
    assert_eq!(turn_of(answer).id, "turn-1");
    assert_eq!(
        effects,
        vec![StartIfIdleEffect::RecordRequestTurnId {
            turn_id: "turn-1".to_string(),
        }]
    );
}

#[test]
fn thread_gets_the_input_under_all_preconditions() {
    let trace = W3cTraceContext {
        traceparent: Some("00-1-2-01".to_string()),
        tracestate: None,
    };
    let step = TurnRequestProcessor::turn_start_if_idle_inner(
        StartIfIdleState::CollectingTrace {
            params: params("/workspace", "hello"),
            thread_id: "thread-1".to_string(),
        },
        StartIfIdleEvent::TraceCollected(Some(trace.clone())),
    );
    assert_eq!(
        step.state,
        StartIfIdleState::Submitting {
            thread_id: "thread-1".to_string(),
            turn_has_input: true,
        }
    );
    match step.action {
        StartIfIdleAction::StartTurnIfIdle {
            request,
            preconditions,
        } => {
            assert_eq!(
                request,
                TurnInputRequest::new(TurnInput::UserInput {
                    content: vec![UserInput::Text {
                        text: "hello".to_string(),
                        text_elements: Vec::new(),
                    }],
                    client_id: Some("client-hello".to_string()),
                })
                .with_trace(Some(trace))
            );
            assert_eq!(preconditions.expected_cwd(), Some(&path("/workspace")));
            assert!(preconditions.requires_persistence());
            assert!(preconditions.disallows_plan_mode());
        }
        action => panic!("not submitted: {action:?}"),
    }
}

#[test]
fn failed_checks_answer_with_their_own_error() {
    let error = || invalid_request("no such thing".to_string());
    let params = || params("/workspace", "hello");
    let thread_id = || "thread-1".to_string();

    let (effects, answer) = finish(TurnRequestProcessor::turn_start_if_idle_inner(
        StartIfIdleState::ValidatingImageUrls { params: params() },
        StartIfIdleEvent::ImageUrlsValidated(Err(error())),
    ));
    assert_eq!(answer, Err(error()));
    assert!(effects.is_empty());

    let (effects, answer) = finish(TurnRequestProcessor::turn_start_if_idle_inner(
        StartIfIdleState::LoadingThread { params: params() },
        StartIfIdleEvent::ThreadLoaded(Err(error())),
    ));
    assert_eq!(answer, Err(error()));
    assert_eq!(effects, recorded(&error()));

    let (effects, answer) = finish(TurnRequestProcessor::turn_start_if_idle_inner(
        StartIfIdleState::CheckingDirectInput {
            params: params(),
            thread_id: thread_id(),
        },
        StartIfIdleEvent::DirectInputChecked(Err(error())),
    ));
    assert_eq!(answer, Err(error()));
    assert!(effects.is_empty());

    let (effects, answer) = finish(TurnRequestProcessor::turn_start_if_idle_inner(
        StartIfIdleState::CheckingInputLimit {
            params: params(),
            thread_id: thread_id(),
        },
        StartIfIdleEvent::InputLimitValidated(Err(error())),
    ));
    assert_eq!(answer, Err(error()));
    assert_eq!(
        effects,
        vec![StartIfIdleEffect::TrackErrorResponse {
            error: error(),
            error_type: Some(AnalyticsJsonRpcError::InputTooLarge),
        }]
    );
}

#[test]
fn failures_of_the_thread_are_answered_and_recorded() {
    let failing = |submission| {
        finish(TurnRequestProcessor::turn_start_if_idle_inner(
            submit(params("/workspace", "hello")).state,
            StartIfIdleEvent::TurnSubmitted(submission),
        ))
    };

    let blamed = invalid_request("unknown model".to_string());
    let (effects, answer) = failing(Err(CodexError {
        details: CodexErrorDetails::InvalidRequest("unknown model".to_string()),
        description: "invalid request: unknown model".to_string(),
    }));
    assert_eq!(effects, recorded(&blamed));
    assert_eq!(answer, Err(blamed));

    let internal = internal_error("failed to start idle-only turn: channel closed".to_string());
    let (effects, answer) = failing(Err(CodexError {
        details: CodexErrorDetails::Other,
        description: "channel closed".to_string(),
    }));
    assert_eq!(effects, recorded(&internal));
    assert_eq!(answer, Err(internal));

    let unrecognized =
        internal_error("idle-only admission returned an unrecognized result".to_string());
    let (effects, answer) = failing(Ok(StartIfIdlePreconditionSubmission::Unrecognized));
    assert_eq!(effects, recorded(&unrecognized));
    assert_eq!(answer, Err(unrecognized));
}

#[test]
fn only_the_awaited_reply_is_expected() {
    let waiting = StartIfIdleState::LoadingThread {
        params: params("/workspace", "hello"),
    };
    assert!(is_expected(
        &waiting,
        &StartIfIdleEvent::ThreadLoaded(Ok("thread-1".to_string()))
    ));
    assert!(!is_expected(
        &waiting,
        &StartIfIdleEvent::DirectInputChecked(Ok(()))
    ));
    assert!(!is_expected(
        &StartIfIdleState::Answered,
        &StartIfIdleEvent::TraceCollected(None)
    ));
}
