use turn_admission::absolute_path::AbsolutePathBuf;
use turn_admission::completion::{TurnCompleteEvent, TurnEnd};
use turn_admission::environment::{
    first_ready_cwd, has_starting_first, EnvironmentReadiness, TurnEnvironment,
};
use turn_admission::session::{
    AgentPath, InterAgentCommunication, MailboxItem, Session, SessionConfiguration, SessionEvent,
    TaskKind,
};
use turn_admission::turn_input::{
    ApprovalsReviewer, AskForApproval, ModeKind, NonSteerableTurnKind, NotSubmittedReason,
    ResponseItem, StartIfIdlePreconditionNotSubmittedReason, StartIfIdlePreconditionSubmission,
    StartIfIdlePreconditions, SubmissionContext, ThreadSettingsOverrides, TurnInput, TurnInputMode,
    TurnInputRequest, TurnInputSubmission, TurnStartOptions, UserInput, W3cTraceContext,
};

fn path(text: &str) -> AbsolutePathBuf {
    AbsolutePathBuf::from_absolute_path(text).expect("absolute cwd")
}

fn environment(id: &str, cwd: &str, readiness: EnvironmentReadiness) -> TurnEnvironment {
    TurnEnvironment {
        environment_id: id.to_string(),
        cwd: path(cwd),
        workspace_roots: Vec::new(),
        readiness,
    }
}

/// An idle session that is not stored and works in `/workspace`.
fn make_session() -> Session {
    Session {
        configuration: SessionConfiguration {
            environments: vec![environment("local", "/workspace", EnvironmentReadiness::Ready)],
            approval_policy: AskForApproval::OnRequest,
            approvals_reviewer: ApprovalsReviewer::User,
            sandbox_policy: "\"workspace-write\"".to_string(),
            permission_profile: "\"default\"".to_string(),
            summary: None,
            personality: None,
            collaboration_mode: ModeKind::Default,
        },
        persistent: false,
        active_turn: None,
        mailbox: Vec::new(),
        connector_selection: Vec::new(),
        mcp_refresh_pending: false,
        events: Vec::new(),
    }
}

fn text(text: &str) -> UserInput {
    UserInput::Text {
        text: text.to_string(),
        text_elements: Vec::new(),
    }
}

fn user_input(content: &str) -> TurnInput {
    TurnInput::UserInput {
        content: vec![text(content)],
        client_id: None,
    }
}

fn user_message(text: &str) -> TurnInput {
    TurnInput::ResponseItem(ResponseItem::user_message(text))
}

fn submit_start_only(session: &mut Session, input: TurnInput) -> TurnInputSubmission {
    session.handle(
        TurnInputRequest::new(input),
        TurnInputMode::StartIfIdle,
        "test-submission".to_string(),
    )
}

fn submit_start_only_request_with_preconditions(
    session: &mut Session,
    request: TurnInputRequest,
    preconditions: StartIfIdlePreconditions,
) -> StartIfIdlePreconditionSubmission {
    session.start_if_idle_with_preconditions(request, preconditions, "test-submission".to_string())
}

fn submit_start_only_with_preconditions(
    session: &mut Session,
    input: TurnInput,
    preconditions: StartIfIdlePreconditions,
) -> StartIfIdlePreconditionSubmission {
    submit_start_only_request_with_preconditions(session, TurnInputRequest::new(input), preconditions)
}

fn submit_steer_only(
    session: &mut Session,
    content: Vec<UserInput>,
    expected_turn_id: &str,
) -> TurnInputSubmission {
    session.handle(
        TurnInputRequest::user_input(content),
        TurnInputMode::Steer {
            expected_turn_id: expected_turn_id.to_string(),
        },
        "test-submission".to_string(),
    )
}

fn enqueue_pending_trigger_turn(session: &mut Session, message: &str) {
    session.enqueue_mailbox_communication(
        InterAgentCommunication::new(
            AgentPath::root(),
            AgentPath::root(),
            Vec::new(),
            message.to_string(),
            /*trigger_turn*/ true,
        ),
        /*parent_turn_id*/ None,
        /*root_turn_id*/ None,
    );
}

fn turn_end() -> TurnEnd {
    TurnEnd {
        started_at: Some(7),
        last_agent_message: Some("done".to_string()),
        error: None,
        completed_at: Some(9),
        duration_ms: Some(2_000),
        time_to_first_token_ms: Some(120),
    }
}

/// A remote environment that is still connecting is selected before a local one
/// that is ready.
fn configure_remote_starting_before_local_ready(session: &mut Session) -> AbsolutePathBuf {
    session.configuration.environments = vec![
        environment("remote", "/workspace/starting", EnvironmentReadiness::Starting),
        environment("local", "/workspace/ready", EnvironmentReadiness::Ready),
    ];
    path("/workspace/ready")
}

fn not_submitted(reason: NotSubmittedReason) -> TurnInputSubmission {
    TurnInputSubmission::NotSubmitted { reason }
}

fn refused(
    reason: StartIfIdlePreconditionNotSubmittedReason,
) -> StartIfIdlePreconditionSubmission {
    StartIfIdlePreconditionSubmission::NotSubmitted { reason }
}

fn admitted() -> StartIfIdlePreconditionSubmission {
    StartIfIdlePreconditionSubmission::Started {
        turn_id: "test-submission".to_string(),
    }
}

fn assert_untouched(session: &Session) {
    assert!(session.active_turn.is_none());
    assert!(!session.has_pending_input());
    assert!(session.events.is_empty());
}

#[test]
fn accepted_input_applies_thread_settings() {
    let mut session = make_session();
    let submission = session.handle(
        TurnInputRequest::user_input(vec![text("hello")]).with_thread_settings(
            ThreadSettingsOverrides {
                environments: Some(vec![environment(
                    "local",
                    "/workspace",
                    EnvironmentReadiness::Ready,
                )]),
                approval_policy: Some(AskForApproval::OnRequest),
                approvals_reviewer: Some(ApprovalsReviewer::AutoReview),
                sandbox_policy: Some("\"workspace-write\"".to_string()),
                collaboration_mode: Some(ModeKind::Default),
                ..Default::default()
            },
        ),
        TurnInputMode::StartOrSteer,
        "sub-1".to_string(),
    );
    assert_eq!(
        submission,
        TurnInputSubmission::Started {
            turn_id: "sub-1".to_string(),
        },
        "submit user turn"
    );
    assert_eq!(
        session.configuration.approvals_reviewer,
        ApprovalsReviewer::AutoReview
    );
    assert!(
        session.mcp_refresh_pending,
        "server elicitation authority changes must refresh MCP state"
    );
}

#[test]
fn unchanged_reviewer_needs_no_refresh() {
    let mut session = make_session();
    session.handle(
        TurnInputRequest::user_input(vec![text("hello")]).with_thread_settings(
            ThreadSettingsOverrides {
                approval_policy: Some(AskForApproval::Never),
                summary: Some("\"concise\"".to_string()),
                ..Default::default()
            },
        ),
        TurnInputMode::StartOrSteer,
        "sub-1".to_string(),
    );
    assert_eq!(session.configuration.approval_policy, AskForApproval::Never);
    assert_eq!(session.configuration.summary, Some("\"concise\"".to_string()));
    assert_eq!(session.configuration.permission_profile, "\"default\"");
    assert!(!session.mcp_refresh_pending);
}

#[test]
fn start_only_rejects_active_turn_without_injecting() {
    let mut session = make_session();
    session.spawn_task("running".to_string(), None, Vec::new(), TaskKind::Regular);

    let submission = submit_start_only(&mut session, user_message("synthetic idle input"));

    assert_eq!(not_submitted(NotSubmittedReason::NotIdle), submission);
    assert!(!session.has_pending_input());

    session.abort_all_tasks();
}

#[test]
fn recovery_rejects_active_turn_without_injecting_or_applying_settings() {
    let mut session = make_session();
    let original_approval_policy = session.configuration.approval_policy;
    session.spawn_task("running".to_string(), None, Vec::new(), TaskKind::Regular);

    let submission = session.handle_recovery(
        ThreadSettingsOverrides {
            approval_policy: Some(AskForApproval::Never),
            ..Default::default()
        },
        "recovered-turn".to_string(),
    );

    assert_eq!(
        submission,
        not_submitted(NotSubmittedReason::NotIdle),
        "recovery should return a typed rejection"
    );
    assert_eq!(session.configuration.approval_policy, original_approval_policy);
    assert!(!session.has_pending_input());

    session.abort_all_tasks();
    assert_eq!(
        session.handle_recovery(ThreadSettingsOverrides::default(), "recovered-turn".to_string()),
        TurnInputSubmission::Started {
            turn_id: "recovered-turn".to_string(),
        }
    );
}

#[test]
fn start_only_rejects_plan_mode_without_injecting() {
    let mut session = make_session();
    session.configuration.collaboration_mode = ModeKind::Plan;

    let submission = submit_start_only(&mut session, user_message("synthetic idle input"));

    assert_eq!(not_submitted(NotSubmittedReason::PlanMode), submission);
    assert_untouched(&session);
}

#[test]
fn start_only_accepts_user_input_in_plan_mode() {
    let mut session = make_session();
    session.configuration.collaboration_mode = ModeKind::Plan;
    session.connector_selection = vec!["calendar".to_string()];

    let submission = submit_start_only(
        &mut session,
        TurnInput::UserInput {
            content: vec![text("queued user input")],
            client_id: Some("queued-user-message".to_string()),
        },
    );
    assert!(matches!(submission, TurnInputSubmission::Started { .. }));
    assert!(session.connector_selection.is_empty());

    session.abort_all_tasks();
}

#[test]
fn synthetic_input_leaves_the_connector_selection() {
    let mut session = make_session();
    session.connector_selection = vec!["calendar".to_string()];
    let submission = submit_start_only(&mut session, user_message("synthetic idle input"));
    assert!(matches!(submission, TurnInputSubmission::Started { .. }));
    assert_eq!(session.connector_selection, vec!["calendar".to_string()]);
}

#[test]
fn start_only_with_preconditions_defaults_preserve_idle_user_input_admission() {
    let mut session = make_session();

    let submission = submit_start_only_with_preconditions(
        &mut session,
        user_input("default preconditions admit user input"),
        StartIfIdlePreconditions::default(),
    );

    assert_eq!(admitted(), submission);
    assert_eq!(
        session.events,
        vec![SessionEvent::TurnStarted {
            turn_id: "test-submission".to_string(),
        }]
    );

    session.abort_all_tasks();
}

#[test]
fn start_only_requires_persistence_without_reserving_or_injecting() {
    let mut session = make_session();

    let submission = submit_start_only_with_preconditions(
        &mut session,
        user_input("persistence required"),
        StartIfIdlePreconditions::default().require_persistence(),
    );

    assert_eq!(
        refused(StartIfIdlePreconditionNotSubmittedReason::PersistenceDisabled),
        submission
    );
    assert_untouched(&session);
}

#[test]
fn start_only_disallows_plan_mode_for_user_input_without_reserving_or_injecting() {
    let mut session = make_session();
    session.configuration.collaboration_mode = ModeKind::Plan;

    let submission = submit_start_only_with_preconditions(
        &mut session,
        user_input("plan mode is disallowed"),
        StartIfIdlePreconditions::default().disallow_plan_mode(),
    );

    assert_eq!(
        refused(StartIfIdlePreconditionNotSubmittedReason::PlanMode),
        submission
    );
    assert_untouched(&session);
}

#[test]
fn start_only_clears_cwd_mismatch_reservation_before_matching_request() {
    let mut session = make_session();
    let matching_cwd = path("/workspace");
    let mismatched_cwd = path("/tmp/other-cwd");

    let rejected = submit_start_only_with_preconditions(
        &mut session,
        user_input("wrong cwd"),
        StartIfIdlePreconditions::default().with_expected_cwd(mismatched_cwd),
    );

    assert_eq!(
        refused(StartIfIdlePreconditionNotSubmittedReason::ExpectedCwdMismatch),
        rejected
    );
    assert!(session.active_turn.is_none());

    let accepted = submit_start_only_with_preconditions(
        &mut session,
        user_input("matching cwd"),
        StartIfIdlePreconditions::default().with_expected_cwd(matching_cwd),
    );

    assert_eq!(admitted(), accepted);

    session.abort_all_tasks();
}

#[test]
fn start_only_rejects_unknown_first_environment_when_ready_primary_cwd_differs() {
    let mut session = make_session();
    let selections = || {
        vec![
            environment(
                "unknown-first-environment",
                "/workspace/unknown",
                EnvironmentReadiness::Unknown,
            ),
            environment("local", "/workspace/ready", EnvironmentReadiness::Ready),
        ]
    };
    session.configuration.environments = selections();

    let rejected = submit_start_only_request_with_preconditions(
        &mut session,
        TurnInputRequest::user_input(vec![text(
            "the unknown selection must not be treated as primary",
        )]),
        StartIfIdlePreconditions::default().with_expected_cwd(path("/workspace/unknown")),
    );

    assert_eq!(
        refused(StartIfIdlePreconditionNotSubmittedReason::ExpectedCwdMismatch),
        rejected
    );
    assert_untouched(&session);
    assert_eq!(selections(), session.configuration.environments);

    let accepted = submit_start_only_request_with_preconditions(
        &mut session,
        TurnInputRequest::user_input(vec![text(
            "the ready selection must become the turn primary",
        )]),
        StartIfIdlePreconditions::default().with_expected_cwd(path("/workspace/ready")),
    );

    assert_eq!(admitted(), accepted);
    let task = session
        .active_turn
        .as_ref()
        .and_then(|active_turn| active_turn.task.as_ref())
        .expect("accepted turn should be active");
    assert_eq!(Some(path("/workspace/ready")), task.cwd);
    assert_eq!(
        task.input,
        vec![user_input("the ready selection must become the turn primary")]
    );
}

#[test]
fn start_only_rejects_starting_primary_environment_before_admission() {
    let mut session = make_session();
    let ready_cwd = configure_remote_starting_before_local_ready(&mut session);

    let submission = submit_start_only_with_preconditions(
        &mut session,
        user_input("a pending primary must not admit the ready secondary cwd"),
        StartIfIdlePreconditions::default().with_expected_cwd(ready_cwd),
    );

    assert_eq!(
        refused(StartIfIdlePreconditionNotSubmittedReason::EnvironmentNotReady),
        submission
    );
    assert_untouched(&session);
}

#[test]
fn start_only_rejects_starting_primary_environment_for_default_preconditions() {
    let mut session = make_session();
    configure_remote_starting_before_local_ready(&mut session);

    let submission = submit_start_only_with_preconditions(
        &mut session,
        user_input("no expected_cwd should still fail closed on ambiguity"),
        StartIfIdlePreconditions::default(),
    );

    assert_eq!(
        refused(StartIfIdlePreconditionNotSubmittedReason::EnvironmentNotReady),
        submission
    );
    assert_untouched(&session);
}

#[test]
fn start_only_with_preconditions_rejects_thread_settings_before_reserving_or_injecting() {
    let mut session = make_session();

    let submission = submit_start_only_request_with_preconditions(
        &mut session,
        TurnInputRequest::user_input(vec![text(
            "preconditioned starts do not apply thread settings",
        )])
        .with_thread_settings(ThreadSettingsOverrides {
            permission_profile: Some("\"read-only\"".to_string()),
            ..Default::default()
        }),
        StartIfIdlePreconditions::default(),
    );

    assert_eq!(
        refused(StartIfIdlePreconditionNotSubmittedReason::ThreadSettingsUnsupported),
        submission
    );
    assert_untouched(&session);
    assert_eq!(session, make_session());
}

#[test]
fn start_only_with_preconditions_prioritizes_thread_settings_over_persistence_violation() {
    let mut session = make_session();

    let submission = submit_start_only_request_with_preconditions(
        &mut session,
        TurnInputRequest::user_input(vec![text("both violations must resolve to thread settings")])
            .with_thread_settings(ThreadSettingsOverrides {
                permission_profile: Some("\"read-only\"".to_string()),
                ..Default::default()
            }),
        StartIfIdlePreconditions::default().require_persistence(),
    );

    assert_eq!(
        refused(StartIfIdlePreconditionNotSubmittedReason::ThreadSettingsUnsupported),
        submission
    );
    assert_untouched(&session);
}

#[test]
fn start_only_rejects_empty_user_input_in_plan_mode() {
    let mut session = make_session();
    session.configuration.collaboration_mode = ModeKind::Plan;

    let submission = submit_start_only(
        &mut session,
        TurnInput::UserInput {
            content: Vec::new(),
            client_id: Some("empty-queued-user-message".to_string()),
        },
    );

    assert_eq!(not_submitted(NotSubmittedReason::PlanMode), submission);
    assert!(session.active_turn.is_none());
}

#[test]
fn start_only_rejects_pending_trigger_turn_without_injecting() {
    let mut session = make_session();
    enqueue_pending_trigger_turn(&mut session, "pending trigger");

    let submission = submit_start_only(&mut session, user_message("synthetic idle input"));

    assert_eq!(
        not_submitted(NotSubmittedReason::PendingTriggerTurn),
        submission
    );
    assert!(session.active_turn.is_none());
    assert!(session.has_trigger_turn_mailbox_items());
}

#[test]
fn message_that_triggers_nothing_does_not_keep_a_turn_from_starting() {
    let mut session = make_session();
    session.enqueue_mailbox_communication(
        InterAgentCommunication::new(
            AgentPath::root(),
            AgentPath::root(),
            Vec::new(),
            "for your information".to_string(),
            false,
        ),
        None,
        None,
    );
    assert!(!session.has_trigger_turn_mailbox_items());
    let submission = submit_start_only_with_preconditions(
        &mut session,
        user_input("go on"),
        StartIfIdlePreconditions::default(),
    );
    assert_eq!(admitted(), submission);
}

#[test]
fn start_only_with_preconditions_rejects_active_turn_without_injecting() {
    let mut session = make_session();
    session.spawn_task("running".to_string(), None, Vec::new(), TaskKind::Regular);

    let submission = submit_start_only_with_preconditions(
        &mut session,
        user_message("synthetic idle input"),
        StartIfIdlePreconditions::default(),
    );

    assert_eq!(
        refused(StartIfIdlePreconditionNotSubmittedReason::NotIdle),
        submission
    );
    assert!(!session.has_pending_input());

    session.abort_all_tasks();
}

#[test]
fn start_only_with_preconditions_rejects_pending_trigger_turn_before_reservation() {
    let mut session = make_session();
    enqueue_pending_trigger_turn(&mut session, "pending trigger");

    let submission = submit_start_only_with_preconditions(
        &mut session,
        user_message("synthetic idle input"),
        StartIfIdlePreconditions::default(),
    );

    assert_eq!(
        refused(StartIfIdlePreconditionNotSubmittedReason::PendingTriggerTurn),
        submission
    );
    assert!(session.active_turn.is_none());
    assert!(session.has_trigger_turn_mailbox_items());
    assert!(session.events.is_empty());
}

#[test]
fn start_only_with_preconditions_rejects_pending_trigger_turn_after_reservation_race() {
    let mut session = make_session();
    let request = TurnInputRequest::new(user_message("synthetic idle input"));
    let preconditions = StartIfIdlePreconditions::default();
    assert_eq!(session.check_before_reservation(&request, &preconditions), None);
    assert!(session.reserve_idle_turn());
    enqueue_pending_trigger_turn(&mut session, "race trigger");

    let outcome =
        session.finish_reserved_start(request, preconditions, "test-submission".to_string());

    assert_eq!(
        refused(StartIfIdlePreconditionNotSubmittedReason::PendingTriggerTurn),
        outcome.submission
    );
    assert!(outcome.start_pending_work);
    assert_untouched(&session);

    assert!(session.maybe_start_turn_for_pending_work("trigger-turn".to_string()));
    let task = session
        .active_turn
        .as_ref()
        .and_then(|active_turn| active_turn.task.as_ref())
        .expect("the pending trigger turn should have started its own turn");
    assert_eq!(task.turn_id, "trigger-turn");
    assert!(task.input.is_empty());
    assert!(!session.maybe_start_turn_for_pending_work("another".to_string()));

    session.abort_all_tasks();
}

#[test]
fn reserved_turn_keeps_others_out() {
    let mut session = make_session();
    assert!(session.reserve_idle_turn());
    assert!(!session.reserve_idle_turn());
    assert_eq!(
        submit_start_only(&mut session, user_input("late")),
        not_submitted(NotSubmittedReason::NotIdle)
    );
    let outcome = session.finish_reserved_start(
        TurnInputRequest::new(user_input("first")),
        StartIfIdlePreconditions::default().with_expected_cwd(path("/workspace")),
        "test-submission".to_string(),
    );
    assert_eq!(outcome.submission, admitted());
    assert!(!outcome.start_pending_work);
}

#[test]
fn steer_only_requires_active_turn() {
    let mut session = make_session();
    let submission = submit_steer_only(&mut session, vec![text("steer")], "missing-turn-id");

    assert_eq!(not_submitted(NotSubmittedReason::NoActiveTurn), submission);
}

#[test]
fn steer_only_enforces_expected_turn_id() {
    let mut session = make_session();
    session.spawn_task(
        "actual-turn-id".to_string(),
        None,
        vec![user_input("hello")],
        TaskKind::Regular,
    );

    let submission = submit_steer_only(&mut session, vec![text("steer")], "different-turn-id");
    assert_eq!(
        not_submitted(NotSubmittedReason::ExpectedTurnMismatch {
            expected: "different-turn-id".to_string(),
            actual: "actual-turn-id".to_string(),
        }),
        submission
    );
    assert!(!session.has_pending_input());
}

#[test]
fn steering_joins_the_turn_that_is_running() {
    let mut session = make_session();
    session.spawn_task("turn".to_string(), None, vec![user_input("hello")], TaskKind::Regular);
    let steered = TurnInputSubmission::Steered {
        turn_id: "turn".to_string(),
    };
    assert_eq!(submit_steer_only(&mut session, vec![text("one")], "turn"), steered);
    let submission = session.handle(
        TurnInputRequest::user_input(vec![text("two")]),
        TurnInputMode::StartOrSteer,
        "test-submission".to_string(),
    );
    assert_eq!(submission, steered);
    let active_turn = session.active_turn.as_ref().expect("the turn is running");
    let pending: Vec<&TurnInput> =
        active_turn.pending_input.iter().map(|pending| &pending.input).collect();
    assert_eq!(pending, vec![&user_input("one"), &user_input("two")]);
    assert_eq!(session.events.len(), 1);
}

#[test]
fn rejects_non_regular_turns() {
    for (task_kind, turn_kind) in [
        (TaskKind::Review, NonSteerableTurnKind::Review),
        (TaskKind::Compact, NonSteerableTurnKind::Compact),
    ] {
        let mut session = make_session();
        session.spawn_task(
            "incoming".to_string(),
            Some("incoming-root".to_string()),
            Vec::new(),
            TaskKind::Regular,
        );
        assert!(session.complete_turn(turn_end()).is_some());
        session.spawn_task(
            "turn".to_string(),
            Some("active-root".to_string()),
            vec![user_input("hello")],
            task_kind,
        );

        let steer_input = vec![text("steer")];
        let steer_submission = submit_steer_only(&mut session, steer_input.clone(), "turn");
        assert_eq!(
            not_submitted(NotSubmittedReason::ActiveTurnNotSteerable { turn_kind }),
            steer_submission
        );
        let start_or_steer_submission = session.handle(
            TurnInputRequest::user_input(steer_input),
            TurnInputMode::StartOrSteer,
            "test-submission".to_string(),
        );
        assert_eq!(
            not_submitted(NotSubmittedReason::ActiveTurnNotSteerable { turn_kind }),
            start_or_steer_submission
        );
        let task = session
            .active_turn
            .as_ref()
            .and_then(|active_turn| active_turn.task.as_ref())
            .expect("the turn is running");
        assert_eq!(task.root_turn_id.as_deref(), Some("active-root"));
        assert!(!session.has_pending_input());

        session.abort_all_tasks();
    }
}

#[test]
fn without_a_ready_environment_no_directory_is_met() {
    let mut session = make_session();
    session.configuration.environments = vec![environment(
        "gone",
        "/workspace",
        EnvironmentReadiness::Unknown,
    )];
    assert_eq!(first_ready_cwd(&session.configuration.environments), None);
    assert_eq!(
        submit_start_only_with_preconditions(
            &mut session,
            user_input("anywhere but here"),
            StartIfIdlePreconditions::default().with_expected_cwd(path("/workspace")),
        ),
        refused(StartIfIdlePreconditionNotSubmittedReason::ExpectedCwdMismatch)
    );
    assert_eq!(
        submit_start_only_with_preconditions(
            &mut session,
            user_input("anywhere"),
            StartIfIdlePreconditions::default(),
        ),
        admitted()
    );
}

#[test]
fn environment_that_starts_after_a_ready_one_is_not_waited_for() {
    let environments = vec![
        environment("unknown", "/a", EnvironmentReadiness::Unknown),
        environment("local", "/b", EnvironmentReadiness::Ready),
        environment("remote", "/c", EnvironmentReadiness::Starting),
    ];
    assert!(!has_starting_first(&environments));
    assert_eq!(first_ready_cwd(&environments), Some(path("/b")));

    let unsettled = vec![
        environment("unknown", "/a", EnvironmentReadiness::Unknown),
        environment("remote", "/c", EnvironmentReadiness::Starting),
    ];
    assert!(has_starting_first(&unsettled));
    assert_eq!(first_ready_cwd(&unsettled), None);
}

#[test]
fn what_is_admitted_under_all_preconditions_is_admitted_under_fewer() {
    let all = || {
        StartIfIdlePreconditions::default()
            .with_expected_cwd(path("/workspace"))
            .require_persistence()
            .disallow_plan_mode()
    };
    let fewer = || {
        vec![
            StartIfIdlePreconditions::default(),
            StartIfIdlePreconditions::default().with_expected_cwd(path("/workspace")),
            StartIfIdlePreconditions::default().require_persistence(),
            StartIfIdlePreconditions::default().disallow_plan_mode(),
        ]
    };
    let mut session = make_session();
    session.persistent = true;
    assert_eq!(
        submit_start_only_with_preconditions(&mut session, user_input("hello"), all()),
        admitted()
    );
    for preconditions in fewer() {
        let mut session = make_session();
        session.persistent = true;
        assert_eq!(
            submit_start_only_with_preconditions(&mut session, user_input("hello"), preconditions),
            admitted()
        );
    }
}

#[test]
fn unknown_environments_can_be_left_out() {
    let unknown = || environment("unknown", "/a", EnvironmentReadiness::Unknown);
    let starting = || environment("remote", "/c", EnvironmentReadiness::Starting);
    let ready = || environment("local", "/b", EnvironmentReadiness::Ready);
    let lists = [
        (vec![unknown(), ready()], vec![ready()]),
        (vec![starting(), unknown(), ready()], vec![starting(), ready()]),
        (vec![ready(), unknown(), starting()], vec![ready(), starting()]),
        (vec![unknown()], Vec::new()),
    ];
    for (with, without) in lists {
        assert_eq!(has_starting_first(&with), has_starting_first(&without));
        assert_eq!(first_ready_cwd(&with), first_ready_cwd(&without));
    }
}

#[test]
fn refusals_weigh_in_one_order() {
    let preconditions = || {
        StartIfIdlePreconditions::default()
            .with_expected_cwd(path("/elsewhere"))
            .require_persistence()
            .disallow_plan_mode()
    };
    let mut session = make_session();
    session.configuration.collaboration_mode = ModeKind::Plan;
    enqueue_pending_trigger_turn(&mut session, "pending trigger");
    session.spawn_task("running".to_string(), None, Vec::new(), TaskKind::Regular);
    configure_remote_starting_before_local_ready(&mut session);
    let next = |session: &mut Session| {
        submit_start_only_with_preconditions(session, user_input("hello"), preconditions())
    };
    assert_eq!(
        next(&mut session),
        refused(StartIfIdlePreconditionNotSubmittedReason::PersistenceDisabled)
    );
    session.persistent = true;
    assert_eq!(
        next(&mut session),
        refused(StartIfIdlePreconditionNotSubmittedReason::PlanMode)
    );
    session.configuration.collaboration_mode = ModeKind::Default;
    assert_eq!(
        next(&mut session),
        refused(StartIfIdlePreconditionNotSubmittedReason::PendingTriggerTurn)
    );
    session.mailbox.clear();
    assert_eq!(
        next(&mut session),
        refused(StartIfIdlePreconditionNotSubmittedReason::NotIdle)
    );
    session.abort_all_tasks();
    assert_eq!(
        next(&mut session),
        refused(StartIfIdlePreconditionNotSubmittedReason::EnvironmentNotReady)
    );
    session.configuration.environments.remove(0);
    assert_eq!(
        next(&mut session),
        refused(StartIfIdlePreconditionNotSubmittedReason::ExpectedCwdMismatch)
    );
    session.configuration.environments[0].cwd = path("/elsewhere");
    assert_eq!(next(&mut session), admitted());
}

#[test]
fn ended_turn_leaves_the_session_idle_and_is_named() {
    let mut session = make_session();
    assert_eq!(session.complete_turn(turn_end()), None);
    assert!(session.reserve_idle_turn());
    assert_eq!(session.complete_turn(turn_end()), None);
    assert!(session.active_turn.is_some(), "a reservation is not ended");
    session.abort_all_tasks();

    let submission = submit_start_only(&mut session, user_input("first"));
    assert!(matches!(submission, TurnInputSubmission::Started { .. }));
    submit_steer_only(&mut session, vec![text("second")], "test-submission");
    assert_eq!(
        session.complete_turn(turn_end()),
        Some(TurnCompleteEvent {
            turn_id: "test-submission".to_string(),
            started_at: Some(7),
            last_agent_message: Some("done".to_string()),
            error: None,
            completed_at: Some(9),
            duration_ms: Some(2_000),
            time_to_first_token_ms: Some(120),
        })
    );
    assert!(session.active_turn.is_none());
    assert_eq!(session.complete_turn(turn_end()), None);
    let submission = submit_start_only(&mut session, user_input("next"));
    assert!(matches!(submission, TurnInputSubmission::Started { .. }));
}

#[test]
fn turn_of_a_message_takes_it_and_opens_admission_again() {
    let mut session = make_session();
    session.enqueue_mailbox_communication(
        InterAgentCommunication::new(
            AgentPath {
                names: vec!["helper".to_string()],
            },
            AgentPath::root(),
            Vec::new(),
            "look at this".to_string(),
            true,
        ),
        Some("parent".to_string()),
        Some("root".to_string()),
    );
    assert_eq!(
        submit_start_only(&mut session, user_input("too early")),
        not_submitted(NotSubmittedReason::PendingTriggerTurn)
    );
    assert!(session.maybe_start_turn_for_pending_work("trigger-turn".to_string()));
    assert!(session.has_trigger_turn_mailbox_items());
    assert_eq!(
        session.take_mailbox_items(),
        vec![MailboxItem {
            communication: InterAgentCommunication {
                author: AgentPath {
                    names: vec!["helper".to_string()],
                },
                recipient: AgentPath { names: Vec::new() },
                other_recipients: Vec::new(),
                content: "look at this".to_string(),
                trigger_turn: true,
            },
            parent_turn_id: Some("parent".to_string()),
            root_turn_id: Some("root".to_string()),
        }]
    );
    assert!(session.mailbox.is_empty());
    assert!(session.take_mailbox_items().is_empty());
    let event = session.complete_turn(turn_end()).expect("the turn ran");
    assert_eq!(event.turn_id, "trigger-turn");

    assert_eq!(
        submit_start_only_with_preconditions(
            &mut session,
            user_input("now"),
            StartIfIdlePreconditions::default(),
        ),
        admitted()
    );
}

#[test]
fn turn_keeps_what_its_submissions_brought_along() {
    let trace = |traceparent: &str| W3cTraceContext {
        traceparent: Some(traceparent.to_string()),
        tracestate: None,
    };
    let request = |content: &str, traceparent: &str| {
        let mut request =
            TurnInputRequest::user_input(vec![text(content)]).with_trace(Some(trace(traceparent)));
        request
            .additional_context
            .insert("editor".to_string(), content.to_string());
        request
    };
    let context = |content: &str, traceparent: &str| {
        let mut additional_context = std::collections::BTreeMap::new();
        additional_context.insert("editor".to_string(), content.to_string());
        SubmissionContext {
            start: TurnStartOptions::default(),
            additional_context,
            responsesapi_client_metadata: None,
            trace: Some(trace(traceparent)),
        }
    };
    let mut session = make_session();
    assert_eq!(
        submit_start_only_request_with_preconditions(
            &mut session,
            request("start", "00-1-2-01"),
            StartIfIdlePreconditions::default(),
        ),
        admitted()
    );
    session.handle(
        request("steer", "00-3-4-01"),
        TurnInputMode::StartOrSteer,
        "unused".to_string(),
    );
    let active_turn = session.active_turn.as_ref().expect("the turn is running");
    let task = active_turn.task.as_ref().expect("the turn has a task");
    assert_eq!(task.context, Some(context("start", "00-1-2-01")));
    assert_eq!(task.root_turn_id, None);
    assert_eq!(active_turn.pending_input[0].input, user_input("steer"));
    assert_eq!(active_turn.pending_input[0].context, context("steer", "00-3-4-01"));
}

#[test]
fn start_that_takes_a_reservation_over_wins() {
    let mut session = make_session();
    assert!(session.reserve_idle_turn());
    assert_eq!(
        submit_steer_only(&mut session, vec![text("steer")], "anything"),
        not_submitted(NotSubmittedReason::NoActiveTurn)
    );
    let submission = session.handle(
        TurnInputRequest::user_input(vec![text("ordinary")]),
        TurnInputMode::StartOrSteer,
        "ordinary".to_string(),
    );
    assert_eq!(
        submission,
        TurnInputSubmission::Started {
            turn_id: "ordinary".to_string(),
        }
    );
    let outcome = session.finish_reserved_start(
        TurnInputRequest::new(user_input("overtaken")),
        StartIfIdlePreconditions::default(),
        "test-submission".to_string(),
    );
    assert_eq!(
        outcome.submission,
        refused(StartIfIdlePreconditionNotSubmittedReason::NotIdle)
    );
    assert!(!outcome.start_pending_work);
    assert_eq!(
        session
            .complete_turn(turn_end())
            .expect("the ordinary turn ran")
            .turn_id,
        "ordinary"
    );
}

fn reserve_and_start(
    session: &mut Session,
    preconditions: StartIfIdlePreconditions,
) -> StartIfIdlePreconditionSubmission {
    session.reserve_and_start(
        TurnInputRequest::new(user_input("conditional")),
        preconditions,
        "test-submission".to_string(),
        "trigger-turn".to_string(),
    )
}

#[test]
fn reservation_looks_again_at_what_may_have_changed() {
    let mut busy = make_session();
    busy.spawn_task("running".to_string(), None, Vec::new(), TaskKind::Regular);
    assert_eq!(
        reserve_and_start(&mut busy, StartIfIdlePreconditions::default()),
        refused(StartIfIdlePreconditionNotSubmittedReason::NotIdle)
    );
    assert!(!busy.has_pending_input());

    let mut triggered = make_session();
    enqueue_pending_trigger_turn(&mut triggered, "race trigger");
    assert_eq!(
        reserve_and_start(&mut triggered, StartIfIdlePreconditions::default()),
        refused(StartIfIdlePreconditionNotSubmittedReason::PendingTriggerTurn)
    );
    assert_eq!(
        triggered.events,
        vec![SessionEvent::TurnStarted {
            turn_id: "trigger-turn".to_string(),
        }]
    );
    let task = triggered
        .active_turn
        .as_ref()
        .and_then(|active_turn| active_turn.task.as_ref())
        .expect("the message got its turn");
    assert!(task.input.is_empty());

    let mut unsettled = make_session();
    configure_remote_starting_before_local_ready(&mut unsettled);
    assert_eq!(
        reserve_and_start(&mut unsettled, StartIfIdlePreconditions::default()),
        refused(StartIfIdlePreconditionNotSubmittedReason::EnvironmentNotReady)
    );
    assert_untouched(&unsettled);

    let mut moved = make_session();
    assert_eq!(
        reserve_and_start(
            &mut moved,
            StartIfIdlePreconditions::default().with_expected_cwd(path("/elsewhere")),
        ),
        refused(StartIfIdlePreconditionNotSubmittedReason::ExpectedCwdMismatch)
    );
    assert_untouched(&moved);
}

#[test]
fn reservation_does_not_look_again_at_persistence_and_mode() {
    let preconditions = || {
        StartIfIdlePreconditions::default()
            .require_persistence()
            .disallow_plan_mode()
    };
    let mut session = make_session();
    session.persistent = true;
    let request = TurnInputRequest::new(user_input("conditional"));
    assert_eq!(session.check_before_reservation(&request, &preconditions()), None);
    session.persistent = false;
    session.configuration.collaboration_mode = ModeKind::Plan;
    assert_eq!(reserve_and_start(&mut session, preconditions()), admitted());
}
