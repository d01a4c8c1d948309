//! What each operation of a session does, in terms of what it is given and what
//! it leaves.

use vstd::prelude::*;

use crate::completion::{TurnCompleteEvent, TurnEnd};
use crate::environment::{is_first_ready, primary_cwd, primary_cwd_is_first_ready};
use crate::session::{
    ActiveTurn, AgentPath, InterAgentCommunication, MailboxItem, RunningTask, Session,
    SessionConfiguration, SessionEvent, TaskKind,
};
use crate::turn_input::{
    NonSteerableTurnKind, NotSubmittedReason, ThreadSettingsOverrides, TurnInput, TurnInputMode,
    TurnInputRequest, TurnInputSubmission,
};

verus! {

/// A submission that starts a turn starts the one that it was given, with all that
/// it brought and nothing else.
pub proof fn submission_starts_its_turn(
    session: &mut Session,
    request: TurnInputRequest,
    mode: TurnInputMode,
    turn_id: String,
    submission: TurnInputSubmission,
)
    requires
        call_ensures(Session::handle, (session, request, mode, turn_id), submission),
        submission is Started,
    ensures
        submission == (TurnInputSubmission::Started { turn_id }),
        final(session).active_turn matches Some(active) && {
            &&& active.pending_input@.len() == 0
            &&& active.task matches Some(task) && {
                &&& task.turn_id == turn_id
                &&& task.root_turn_id is None
                &&& task.kind is Regular
                &&& task.input@.len() == 1
                &&& task.input@[0] == request.input
                &&& task.context matches Some(context) && {
                    &&& context.start == request.start
                    &&& context.additional_context == request.additional_context
                    &&& context.responsesapi_client_metadata
                        == request.responsesapi_client_metadata
                    &&& context.trace == request.trace
                }
            }
        },
{
}

/// A turn that a submission starts works in the first environment that is ready,
/// as the thread then has them, and nowhere if none is.
pub proof fn submission_starts_in_the_first_ready_environment(
    session: &mut Session,
    request: TurnInputRequest,
    mode: TurnInputMode,
    turn_id: String,
    submission: TurnInputSubmission,
)
    requires
        call_ensures(Session::handle, (session, request, mode, turn_id), submission),
        submission is Started,
    ensures
        final(session).active_turn matches Some(active) && active.task matches Some(task) && {
            let environments = final(session).configuration.environments@;
            &&& forall|p: int|
                0 <= p < environments.len() && environments[p].readiness is Ready && (forall|j: int|
                    0 <= j < p ==> !(#[trigger] environments[j].readiness is Ready)) ==> task.cwd
                    == Some(#[trigger] environments[p].cwd)
            &&& (forall|j: int|
                0 <= j < environments.len() ==> !(#[trigger] environments[j].readiness is Ready))
                ==> task.cwd is None
        },
{
    let environments = final(session).configuration.environments@;
    primary_cwd_is_first_ready(environments);
    assert forall|p: int|
        0 <= p < environments.len() && environments[p].readiness is Ready && (forall|j: int|
            0 <= j < p ==> !(#[trigger] environments[j].readiness is Ready)) implies primary_cwd(
        environments,
    ) == Some(#[trigger] environments[p].cwd) by {
        assert(is_first_ready(environments, p));
    }
}

/// A turn that a submission starts is announced, and the user's own input uses up
/// the connectors that were selected for it.
pub proof fn submission_announces_its_turn(
    session: &mut Session,
    request: TurnInputRequest,
    mode: TurnInputMode,
    turn_id: String,
    submission: TurnInputSubmission,
)
    requires
        call_ensures(Session::handle, (session, request, mode, turn_id), submission),
        submission is Started,
    ensures
        final(session).events@ == old(session).events@.push(
            SessionEvent::TurnStarted { turn_id: turn_id },
        ),
        final(session).mailbox == old(session).mailbox,
        final(session).persistent == old(session).persistent,
        request.input is UserInput ==> final(session).connector_selection@.len() == 0,
        request.input is ResponseItem ==> final(session).connector_selection
            == old(session).connector_selection,
{
    assert(seq![request.input][0] == request.input);
}

/// A submission that joins a turn is the last thing that waits in it, with all that
/// it brought; the turn itself, and what waited before, is as it was.
pub proof fn submission_joins_the_running_turn(
    session: &mut Session,
    request: TurnInputRequest,
    mode: TurnInputMode,
    turn_id: String,
    submission: TurnInputSubmission,
)
    requires
        call_ensures(Session::handle, (session, request, mode, turn_id), submission),
        submission is Steered,
    ensures
        old(session).active_turn matches Some(active) && active.task matches Some(task) && {
            &&& submission == (TurnInputSubmission::Steered { turn_id: task.turn_id })
            &&& task.kind is Regular
            &&& final(session).active_turn matches Some(joined) && {
                &&& joined.task == active.task
                &&& joined.pending_input@.len() == active.pending_input@.len() + 1
                &&& forall|i: int|
                    0 <= i < active.pending_input@.len() ==> joined.pending_input@[i]
                        == #[trigger] active.pending_input@[i]
                &&& joined.pending_input@.last().input == request.input
                &&& joined.pending_input@.last().context.start == request.start
                &&& joined.pending_input@.last().context.additional_context
                    == request.additional_context
                &&& joined.pending_input@.last().context.responsesapi_client_metadata
                    == request.responsesapi_client_metadata
                &&& joined.pending_input@.last().context.trace == request.trace
            }
        },
        final(session).events == old(session).events,
        final(session).mailbox == old(session).mailbox,
        final(session).persistent == old(session).persistent,
        final(session).connector_selection == old(session).connector_selection,
        !(mode is StartIfIdle),
{
}

/// A submission that is taken changes the settings that it names, to what it says,
/// and no others; the MCP servers have to be told if someone else now answers for
/// the user.
pub proof fn accepted_settings_take_effect(
    session: &mut Session,
    request: TurnInputRequest,
    mode: TurnInputMode,
    turn_id: String,
    submission: TurnInputSubmission,
)
    requires
        call_ensures(Session::handle, (session, request, mode, turn_id), submission),
        !(submission is NotSubmitted),
    ensures
        request.thread_settings.environments matches Some(value)
            ==> final(session).configuration.environments == value,
        request.thread_settings.environments is None
            ==> final(session).configuration.environments
            == old(session).configuration.environments,
        request.thread_settings.approval_policy matches Some(value)
            ==> final(session).configuration.approval_policy == value,
        request.thread_settings.approval_policy is None
            ==> final(session).configuration.approval_policy
            == old(session).configuration.approval_policy,
        request.thread_settings.approvals_reviewer matches Some(value)
            ==> final(session).configuration.approvals_reviewer == value,
        request.thread_settings.approvals_reviewer is None
            ==> final(session).configuration.approvals_reviewer
            == old(session).configuration.approvals_reviewer,
        request.thread_settings.sandbox_policy matches Some(value)
            ==> final(session).configuration.sandbox_policy == value,
        request.thread_settings.sandbox_policy is None
            ==> final(session).configuration.sandbox_policy
            == old(session).configuration.sandbox_policy,
        request.thread_settings.permission_profile matches Some(value)
            ==> final(session).configuration.permission_profile == value,
        request.thread_settings.permission_profile is None
            ==> final(session).configuration.permission_profile
            == old(session).configuration.permission_profile,
        request.thread_settings.summary matches Some(value)
            ==> final(session).configuration.summary == Some(value),
        request.thread_settings.summary is None
            ==> final(session).configuration.summary
            == old(session).configuration.summary,
        request.thread_settings.personality matches Some(value)
            ==> final(session).configuration.personality == Some(value),
        request.thread_settings.personality is None
            ==> final(session).configuration.personality
            == old(session).configuration.personality,
        request.thread_settings.collaboration_mode matches Some(value)
            ==> final(session).configuration.collaboration_mode == value,
        request.thread_settings.collaboration_mode is None
            ==> final(session).configuration.collaboration_mode
            == old(session).configuration.collaboration_mode,
        final(session).mcp_refresh_pending == (old(session).mcp_refresh_pending || (
        request.thread_settings.approvals_reviewer matches Some(reviewer) && reviewer
            != old(session).configuration.approvals_reviewer)),
{
}

/// A submission that is refused leaves nothing behind.
pub proof fn refused_submission_leaves_nothing(
    session: &mut Session,
    request: TurnInputRequest,
    mode: TurnInputMode,
    turn_id: String,
    submission: TurnInputSubmission,
)
    requires
        call_ensures(Session::handle, (session, request, mode, turn_id), submission),
        submission is NotSubmitted,
    ensures
        *final(session) == *old(session),
{
}

/// Steering reaches the turn that the client expects, or none: the texts of the ids
/// are the same.
pub proof fn steering_reaches_the_expected_turn(
    session: &mut Session,
    request: TurnInputRequest,
    expected_turn_id: String,
    turn_id: String,
    submission: TurnInputSubmission,
)
    requires
        call_ensures(
            Session::handle,
            (session, request, TurnInputMode::Steer { expected_turn_id }, turn_id),
            submission,
        ),
    ensures
        !(submission is Started),
        submission matches TurnInputSubmission::Steered { turn_id: steered } ==> steered@
            == expected_turn_id@,
{
}

/// A client that expects another turn than the one that is running is told of both,
/// whatever kind of turn that is, and nothing is put into it.
pub proof fn other_turn_is_not_steered(
    session: &mut Session,
    request: TurnInputRequest,
    expected_turn_id: String,
    turn_id: String,
    submission: TurnInputSubmission,
    active: ActiveTurn,
    task: RunningTask,
)
    requires
        call_ensures(
            Session::handle,
            (session, request, TurnInputMode::Steer { expected_turn_id }, turn_id),
            submission,
        ),
        old(session).active_turn == Some(active),
        active.task == Some(task),
        task.turn_id@ != expected_turn_id@,
    ensures
        submission == (TurnInputSubmission::NotSubmitted {
            reason: NotSubmittedReason::ExpectedTurnMismatch {
                expected: expected_turn_id,
                actual: task.turn_id,
            },
        }),
        *final(session) == *old(session),
{
}

/// The expected turn takes what is submitted to it exactly when it is a regular one;
/// the other kinds are named in the refusal.
pub proof fn expected_turn_is_steered_if_regular(
    session: &mut Session,
    request: TurnInputRequest,
    expected_turn_id: String,
    turn_id: String,
    submission: TurnInputSubmission,
    active: ActiveTurn,
    task: RunningTask,
)
    requires
        call_ensures(
            Session::handle,
            (session, request, TurnInputMode::Steer { expected_turn_id }, turn_id),
            submission,
        ),
        old(session).active_turn == Some(active),
        active.task == Some(task),
        task.turn_id@ == expected_turn_id@,
    ensures
        task.kind is Regular ==> submission == (TurnInputSubmission::Steered {
            turn_id: task.turn_id,
        }),
        task.kind is Review ==> submission == (TurnInputSubmission::NotSubmitted {
            reason: NotSubmittedReason::ActiveTurnNotSteerable {
                turn_kind: NonSteerableTurnKind::Review,
            },
        }),
        task.kind is Compact ==> submission == (TurnInputSubmission::NotSubmitted {
            reason: NotSubmittedReason::ActiveTurnNotSteerable {
                turn_kind: NonSteerableTurnKind::Compact,
            },
        }),
{
}

/// Without a turn that is running there is nothing to steer.
pub proof fn steering_needs_a_running_turn(
    session: &mut Session,
    request: TurnInputRequest,
    expected_turn_id: String,
    turn_id: String,
    submission: TurnInputSubmission,
)
    requires
        call_ensures(
            Session::handle,
            (session, request, TurnInputMode::Steer { expected_turn_id }, turn_id),
            submission,
        ),
        old(session).active_turn matches Some(active) ==> active.task is None,
    ensures
        submission == (TurnInputSubmission::NotSubmitted {
            reason: NotSubmittedReason::NoActiveTurn,
        }),
{
}

/// A submission that may start or steer always starts a turn where none is running,
/// in plan mode and with messages waiting too.
pub proof fn start_or_steer_starts_where_none_runs(
    session: &mut Session,
    request: TurnInputRequest,
    turn_id: String,
    submission: TurnInputSubmission,
)
    requires
        call_ensures(
            Session::handle,
            (session, request, TurnInputMode::StartOrSteer, turn_id),
            submission,
        ),
        old(session).active_turn matches Some(active) ==> active.task is None,
    ensures
        submission == (TurnInputSubmission::Started { turn_id }),
{
}

/// A submission that may start or steer never starts a second turn: it joins a
/// regular one and is refused by the others.
pub proof fn start_or_steer_joins_what_runs(
    session: &mut Session,
    request: TurnInputRequest,
    turn_id: String,
    submission: TurnInputSubmission,
    active: ActiveTurn,
    task: RunningTask,
)
    requires
        call_ensures(
            Session::handle,
            (session, request, TurnInputMode::StartOrSteer, turn_id),
            submission,
        ),
        old(session).active_turn == Some(active),
        active.task == Some(task),
    ensures
        task.kind is Regular ==> submission == (TurnInputSubmission::Steered {
            turn_id: task.turn_id,
        }),
        task.kind is Review ==> submission == (TurnInputSubmission::NotSubmitted {
            reason: NotSubmittedReason::ActiveTurnNotSteerable {
                turn_kind: NonSteerableTurnKind::Review,
            },
        }),
        task.kind is Compact ==> submission == (TurnInputSubmission::NotSubmitted {
            reason: NotSubmittedReason::ActiveTurnNotSteerable {
                turn_kind: NonSteerableTurnKind::Compact,
            },
        }),
{
}

/// Plan mode keeps everything out but what the user typed, before anything else is
/// looked at.
pub proof fn plan_mode_takes_typed_input_alone(
    session: &mut Session,
    request: TurnInputRequest,
    turn_id: String,
    submission: TurnInputSubmission,
)
    requires
        call_ensures(
            Session::handle,
            (session, request, TurnInputMode::StartIfIdle, turn_id),
            submission,
        ),
        old(session).configuration.collaboration_mode is Plan,
        request.input matches TurnInput::UserInput { content, .. } ==> content@.len() == 0,
    ensures
        submission == (TurnInputSubmission::NotSubmitted {
            reason: NotSubmittedReason::PlanMode,
        }),
{
}

/// A message that is to start a turn keeps every start-only submission out, wherever
/// it stands in the mailbox.
pub proof fn waiting_message_keeps_start_only_out(
    session: &mut Session,
    request: TurnInputRequest,
    turn_id: String,
    submission: TurnInputSubmission,
    i: int,
)
    requires
        call_ensures(
            Session::handle,
            (session, request, TurnInputMode::StartIfIdle, turn_id),
            submission,
        ),
        old(session).configuration.collaboration_mode is Plan ==> (
        request.input matches TurnInput::UserInput { content, .. } && content@.len() > 0),
        0 <= i < old(session).mailbox@.len(),
        old(session).mailbox@[i].communication.trigger_turn,
    ensures
        submission == (TurnInputSubmission::NotSubmitted {
            reason: NotSubmittedReason::PendingTriggerTurn,
        }),
{
}

/// A turn that is running or reserved keeps every start-only submission out.
pub proof fn active_turn_keeps_start_only_out(
    session: &mut Session,
    request: TurnInputRequest,
    turn_id: String,
    submission: TurnInputSubmission,
)
    requires
        call_ensures(
            Session::handle,
            (session, request, TurnInputMode::StartIfIdle, turn_id),
            submission,
        ),
        old(session).configuration.collaboration_mode is Plan ==> (
        request.input matches TurnInput::UserInput { content, .. } && content@.len() > 0),
        forall|i: int|
            0 <= i < old(session).mailbox@.len() ==> !(
            #[trigger] old(session).mailbox@[i]).communication.trigger_turn,
        old(session).active_turn is Some,
    ensures
        submission == (TurnInputSubmission::NotSubmitted { reason: NotSubmittedReason::NotIdle }),
{
}

/// Nothing else keeps a start-only submission out.
pub proof fn idle_thread_takes_start_only(
    session: &mut Session,
    request: TurnInputRequest,
    turn_id: String,
    submission: TurnInputSubmission,
)
    requires
        call_ensures(
            Session::handle,
            (session, request, TurnInputMode::StartIfIdle, turn_id),
            submission,
        ),
        old(session).configuration.collaboration_mode is Plan ==> (
        request.input matches TurnInput::UserInput { content, .. } && content@.len() > 0),
        forall|i: int|
            0 <= i < old(session).mailbox@.len() ==> !(
            #[trigger] old(session).mailbox@[i]).communication.trigger_turn,
        old(session).active_turn is None,
    ensures
        submission == (TurnInputSubmission::Started { turn_id }),
{
}

/// Recovery starts the turn again in an idle thread, without input and under the
/// settings that it names.
pub proof fn recovery_starts_the_turn_again(
    session: &mut Session,
    overrides: ThreadSettingsOverrides,
    turn_id: String,
    submission: TurnInputSubmission,
)
    requires
        call_ensures(Session::handle_recovery, (session, overrides, turn_id), submission),
        old(session).active_turn is None,
    ensures
        submission == (TurnInputSubmission::Started { turn_id }),
        final(session).active_turn matches Some(active) && {
            &&& active.pending_input@.len() == 0
            &&& active.task matches Some(task) && {
                &&& task.turn_id == turn_id
                &&& task.root_turn_id is None
                &&& task.kind is Regular
                &&& task.input@.len() == 0
                &&& task.context is None
            }
        },
        final(session).events@ == old(session).events@.push(
            SessionEvent::TurnStarted { turn_id: turn_id },
        ),
        final(session).mailbox == old(session).mailbox,
        final(session).persistent == old(session).persistent,
        final(session).connector_selection == old(session).connector_selection,
        overrides.environments matches Some(value)
            ==> final(session).configuration.environments == value,
        overrides.environments is None
            ==> final(session).configuration.environments
            == old(session).configuration.environments,
        overrides.approval_policy matches Some(value)
            ==> final(session).configuration.approval_policy == value,
        overrides.approval_policy is None
            ==> final(session).configuration.approval_policy
            == old(session).configuration.approval_policy,
        overrides.approvals_reviewer matches Some(value)
            ==> final(session).configuration.approvals_reviewer == value,
        overrides.approvals_reviewer is None
            ==> final(session).configuration.approvals_reviewer
            == old(session).configuration.approvals_reviewer,
        overrides.sandbox_policy matches Some(value)
            ==> final(session).configuration.sandbox_policy == value,
        overrides.sandbox_policy is None
            ==> final(session).configuration.sandbox_policy
            == old(session).configuration.sandbox_policy,
        overrides.permission_profile matches Some(value)
            ==> final(session).configuration.permission_profile == value,
        overrides.permission_profile is None
            ==> final(session).configuration.permission_profile
            == old(session).configuration.permission_profile,
        overrides.summary matches Some(value)
            ==> final(session).configuration.summary == Some(value),
        overrides.summary is None
            ==> final(session).configuration.summary
            == old(session).configuration.summary,
        overrides.personality matches Some(value)
            ==> final(session).configuration.personality == Some(value),
        overrides.personality is None
            ==> final(session).configuration.personality
            == old(session).configuration.personality,
        overrides.collaboration_mode matches Some(value)
            ==> final(session).configuration.collaboration_mode == value,
        overrides.collaboration_mode is None
            ==> final(session).configuration.collaboration_mode
            == old(session).configuration.collaboration_mode,
        final(session).mcp_refresh_pending == (old(session).mcp_refresh_pending || (
        overrides.approvals_reviewer matches Some(reviewer) && reviewer
            != old(session).configuration.approvals_reviewer)),
{
}

/// A recovered turn works in the first environment that is ready, and nowhere if
/// none is.
pub proof fn recovery_works_in_the_first_ready_environment(
    session: &mut Session,
    overrides: ThreadSettingsOverrides,
    turn_id: String,
    submission: TurnInputSubmission,
)
    requires
        call_ensures(Session::handle_recovery, (session, overrides, turn_id), submission),
        old(session).active_turn is None,
    ensures
        final(session).active_turn matches Some(active) && active.task matches Some(task) && {
            let environments = final(session).configuration.environments@;
            &&& forall|p: int|
                0 <= p < environments.len() && environments[p].readiness is Ready && (forall|j: int|
                    0 <= j < p ==> !(#[trigger] environments[j].readiness is Ready)) ==> task.cwd
                    == Some(#[trigger] environments[p].cwd)
            &&& (forall|j: int|
                0 <= j < environments.len() ==> !(#[trigger] environments[j].readiness is Ready))
                ==> task.cwd is None
        },
{
    let environments = final(session).configuration.environments@;
    primary_cwd_is_first_ready(environments);
    assert forall|p: int|
        0 <= p < environments.len() && environments[p].readiness is Ready && (forall|j: int|
            0 <= j < p ==> !(#[trigger] environments[j].readiness is Ready)) implies primary_cwd(
        environments,
    ) == Some(#[trigger] environments[p].cwd) by {
        assert(is_first_ready(environments, p));
    }
}

/// Recovery does not touch a thread that is busy.
pub proof fn recovery_leaves_a_busy_thread(
    session: &mut Session,
    overrides: ThreadSettingsOverrides,
    turn_id: String,
    submission: TurnInputSubmission,
)
    requires
        call_ensures(Session::handle_recovery, (session, overrides, turn_id), submission),
        old(session).active_turn is Some,
    ensures
        submission == (TurnInputSubmission::NotSubmitted { reason: NotSubmittedReason::NotIdle }),
        *final(session) == *old(session),
{
}

/// A message that is to start a turn gets one in an idle thread, wherever it stands
/// in the mailbox. The turn has no input of its own, and the message stays for it to
/// take.
pub proof fn waiting_message_gets_its_turn(
    session: &mut Session,
    turn_id: String,
    started: bool,
    i: int,
)
    requires
        call_ensures(Session::maybe_start_turn_for_pending_work, (session, turn_id), started),
        old(session).active_turn is None,
        0 <= i < old(session).mailbox@.len(),
        old(session).mailbox@[i].communication.trigger_turn,
    ensures
        started,
        final(session).active_turn matches Some(active) && {
            &&& active.pending_input@.len() == 0
            &&& active.task matches Some(task) && {
                &&& task.turn_id == turn_id
                &&& task.root_turn_id is None
                &&& task.kind is Regular
                &&& task.input@.len() == 0
                &&& task.context is None
            }
        },
        final(session).events@ == old(session).events@.push(
            SessionEvent::TurnStarted { turn_id: turn_id },
        ),
        final(session).mailbox == old(session).mailbox,
        final(session).persistent == old(session).persistent,
        final(session).connector_selection == old(session).connector_selection,
        final(session).configuration == old(session).configuration,
        final(session).mcp_refresh_pending == old(session).mcp_refresh_pending,
{
}

/// The turn of a message works in the first environment that is ready, and nowhere
/// if none is.
pub proof fn turn_of_a_message_works_in_the_first_ready_environment(
    session: &mut Session,
    turn_id: String,
    started: bool,
)
    requires
        call_ensures(Session::maybe_start_turn_for_pending_work, (session, turn_id), started),
        started,
    ensures
        final(session).active_turn matches Some(active) && active.task matches Some(task) && {
            let environments = final(session).configuration.environments@;
            &&& forall|p: int|
                0 <= p < environments.len() && environments[p].readiness is Ready && (forall|j: int|
                    0 <= j < p ==> !(#[trigger] environments[j].readiness is Ready)) ==> task.cwd
                    == Some(#[trigger] environments[p].cwd)
            &&& (forall|j: int|
                0 <= j < environments.len() ==> !(#[trigger] environments[j].readiness is Ready))
                ==> task.cwd is None
        },
{
    let environments = final(session).configuration.environments@;
    primary_cwd_is_first_ready(environments);
    assert forall|p: int|
        0 <= p < environments.len() && environments[p].readiness is Ready && (forall|j: int|
            0 <= j < p ==> !(#[trigger] environments[j].readiness is Ready)) implies primary_cwd(
        environments,
    ) == Some(#[trigger] environments[p].cwd) by {
        assert(is_first_ready(environments, p));
    }
}

/// No turn starts for messages where none asks for one, or where a turn is active.
pub proof fn no_turn_without_a_waiting_message(
    session: &mut Session,
    turn_id: String,
    started: bool,
)
    requires
        call_ensures(Session::maybe_start_turn_for_pending_work, (session, turn_id), started),
        old(session).active_turn is Some || (forall|i: int|
            0 <= i < old(session).mailbox@.len() ==> !(
            #[trigger] old(session).mailbox@[i]).communication.trigger_turn),
    ensures
        !started,
        *final(session) == *old(session),
{
}

/// A message that is to start a turn is found wherever it stands in the mailbox.
pub proof fn waiting_message_is_found(
    session: Session,
    found: bool,
    i: int,
)
    requires
        call_ensures(Session::has_trigger_turn_mailbox_items, (&session,), found),
        0 <= i < session.mailbox@.len(),
        session.mailbox@[i].communication.trigger_turn,
    ensures
        found,
{
}

/// Messages that start nothing are not taken for ones that do.
pub proof fn idle_messages_are_not_found(
    session: Session,
    found: bool,
)
    requires
        call_ensures(Session::has_trigger_turn_mailbox_items, (&session,), found),
        forall|i: int|
            0 <= i < session.mailbox@.len() ==> !(
            #[trigger] session.mailbox@[i]).communication.trigger_turn,
    ensures
        !found,
{
}

/// A new message comes last, with the turns that it comes from; those before it stay
/// where they are, and nothing else changes.
pub proof fn message_is_put_last(
    session: &mut Session,
    communication: InterAgentCommunication,
    parent_turn_id: Option<String>,
    root_turn_id: Option<String>,
)
    requires
        call_ensures(
            Session::enqueue_mailbox_communication,
            (session, communication, parent_turn_id, root_turn_id),
            (),
        ),
    ensures
        final(session).mailbox@.len() == old(session).mailbox@.len() + 1,
        forall|i: int|
            0 <= i < old(session).mailbox@.len() ==> final(session).mailbox@[i]
                == #[trigger] old(session).mailbox@[i],
        final(session).mailbox@.last().communication == communication,
        final(session).mailbox@.last().parent_turn_id == parent_turn_id,
        final(session).mailbox@.last().root_turn_id == root_turn_id,
        *final(session) == (Session { mailbox: final(session).mailbox, ..*old(session) }),
{
}

/// No further message makes one that waits disappear: what was found before is found
/// after.
pub proof fn further_message_hides_none(
    session: &mut Session,
    communication: InterAgentCommunication,
    parent_turn_id: Option<String>,
    root_turn_id: Option<String>,
    before: bool,
    after: bool,
)
    requires
        call_ensures(
            Session::enqueue_mailbox_communication,
            (session, communication, parent_turn_id, root_turn_id),
            (),
        ),
        call_ensures(Session::has_trigger_turn_mailbox_items, (old(session),), before),
        call_ensures(Session::has_trigger_turn_mailbox_items, (final(session),), after),
    ensures
        after == (before || communication.trigger_turn),
{
    let held = old(session).mailbox@;
    let grown = final(session).mailbox@;
    assert(grown.last().communication == communication);
    if before {
        let i = choose|i: int|
            0 <= i < held.len() && (#[trigger] held[i]).communication.trigger_turn;
        assert(grown[i] == held[i]);
    }
    if after {
        let i = choose|i: int|
            0 <= i < grown.len() && (#[trigger] grown[i]).communication.trigger_turn;
        if i < held.len() {
            assert(grown[i] == held[i]);
        }
    }
}

/// Taking the messages hands out every one of them, in order, leaves none, and
/// changes nothing else.
pub proof fn messages_are_taken_once(
    session: &mut Session,
    items: Vec<MailboxItem>,
)
    requires
        call_ensures(Session::take_mailbox_items, (session,), items),
    ensures
        items@.len() == old(session).mailbox@.len(),
        forall|i: int|
            0 <= i < items@.len() ==> items@[i] == #[trigger] old(session).mailbox@[i],
        final(session).mailbox@.len() == 0,
        *final(session) == (Session { mailbox: final(session).mailbox, ..*old(session) }),
{
}

/// A task that is spawned becomes the one that runs, with the input, the kind and the
/// root that it was given, and is announced; nothing else changes.
pub proof fn spawned_task_runs(
    session: &mut Session,
    turn_id: String,
    root_turn_id: Option<String>,
    input: Vec<TurnInput>,
    kind: TaskKind,
)
    requires
        call_ensures(Session::spawn_task, (session, turn_id, root_turn_id, input, kind), ()),
    ensures
        final(session).active_turn matches Some(active) && {
            &&& active.pending_input@.len() == 0
            &&& active.task matches Some(task) && {
                &&& task.turn_id == turn_id
                &&& task.root_turn_id == root_turn_id
                &&& task.kind == kind
                &&& task.input@ == input@
                &&& task.context is None
            }
        },
        final(session).events@ == old(session).events@.push(
            SessionEvent::TurnStarted { turn_id: turn_id },
        ),
        final(session).mailbox == old(session).mailbox,
        final(session).persistent == old(session).persistent,
        final(session).connector_selection == old(session).connector_selection,
        final(session).configuration == old(session).configuration,
        final(session).mcp_refresh_pending == old(session).mcp_refresh_pending,
{
}

/// A task that is spawned works in the first environment that is ready, and nowhere
/// if none is.
pub proof fn spawned_task_works_in_the_first_ready_environment(
    session: &mut Session,
    turn_id: String,
    root_turn_id: Option<String>,
    input: Vec<TurnInput>,
    kind: TaskKind,
)
    requires
        call_ensures(Session::spawn_task, (session, turn_id, root_turn_id, input, kind), ()),
    ensures
        final(session).active_turn matches Some(active) && active.task matches Some(task) && {
            let environments = final(session).configuration.environments@;
            &&& forall|p: int|
                0 <= p < environments.len() && environments[p].readiness is Ready && (forall|j: int|
                    0 <= j < p ==> !(#[trigger] environments[j].readiness is Ready)) ==> task.cwd
                    == Some(#[trigger] environments[p].cwd)
            &&& (forall|j: int|
                0 <= j < environments.len() ==> !(#[trigger] environments[j].readiness is Ready))
                ==> task.cwd is None
        },
{
    let environments = final(session).configuration.environments@;
    primary_cwd_is_first_ready(environments);
    assert forall|p: int|
        0 <= p < environments.len() && environments[p].readiness is Ready && (forall|j: int|
            0 <= j < p ==> !(#[trigger] environments[j].readiness is Ready)) implies primary_cwd(
        environments,
    ) == Some(#[trigger] environments[p].cwd) by {
        assert(is_first_ready(environments, p));
    }
}

/// To end the turn that is running names that turn, says how it ended, and leaves the
/// thread idle and otherwise as it was.
pub proof fn ended_turn_is_the_running_one(
    session: &mut Session,
    end: TurnEnd,
    event: Option<TurnCompleteEvent>,
    active: ActiveTurn,
    task: RunningTask,
)
    requires
        call_ensures(Session::complete_turn, (session, end), event),
        old(session).active_turn == Some(active),
        active.task == Some(task),
    ensures
        event matches Some(event) && {
            &&& event.turn_id == task.turn_id
            &&& event.started_at == end.started_at
            &&& event.last_agent_message == end.last_agent_message
            &&& event.error == end.error
            &&& event.completed_at == end.completed_at
            &&& event.duration_ms == end.duration_ms
            &&& event.time_to_first_token_ms == end.time_to_first_token_ms
        },
        final(session).active_turn is None,
        *final(session) == (Session { active_turn: None, ..*old(session) }),
{
}

/// Without a turn that is running nothing ends: a reservation stays.
pub proof fn nothing_ends_without_a_running_turn(
    session: &mut Session,
    end: TurnEnd,
    event: Option<TurnCompleteEvent>,
)
    requires
        call_ensures(Session::complete_turn, (session, end), event),
        old(session).active_turn matches Some(active) ==> active.task is None,
    ensures
        event is None,
        *final(session) == *old(session),
{
}

/// To abort leaves the thread idle and otherwise as it was.
pub proof fn abort_leaves_the_thread_idle(
    session: &mut Session,
)
    requires
        call_ensures(Session::abort_all_tasks, (session,), ()),
    ensures
        final(session).active_turn is None,
        *final(session) == (Session { active_turn: None, ..*old(session) }),
{
}

/// Something is pending exactly when the active turn holds what was submitted since
/// it started.
pub proof fn pending_input_is_seen(
    session: Session,
    found: bool,
)
    requires
        call_ensures(Session::has_pending_input, (&session,), found),
    ensures
        found <==> (session.active_turn matches Some(active) && active.pending_input@.len() > 0),
{
}

/// Settings change where the overrides name them, to what they say, and nowhere else.
pub proof fn settings_change_where_named(
    configuration: &mut SessionConfiguration,
    overrides: ThreadSettingsOverrides,
)
    requires
        call_ensures(SessionConfiguration::apply, (configuration, overrides), ()),
    ensures
        overrides.environments matches Some(value)
            ==> final(configuration).environments == value,
        overrides.environments is None
            ==> final(configuration).environments
            == old(configuration).environments,
        overrides.approval_policy matches Some(value)
            ==> final(configuration).approval_policy == value,
        overrides.approval_policy is None
            ==> final(configuration).approval_policy
            == old(configuration).approval_policy,
        overrides.approvals_reviewer matches Some(value)
            ==> final(configuration).approvals_reviewer == value,
        overrides.approvals_reviewer is None
            ==> final(configuration).approvals_reviewer
            == old(configuration).approvals_reviewer,
        overrides.sandbox_policy matches Some(value)
            ==> final(configuration).sandbox_policy == value,
        overrides.sandbox_policy is None
            ==> final(configuration).sandbox_policy
            == old(configuration).sandbox_policy,
        overrides.permission_profile matches Some(value)
            ==> final(configuration).permission_profile == value,
        overrides.permission_profile is None
            ==> final(configuration).permission_profile
            == old(configuration).permission_profile,
        overrides.summary matches Some(value)
            ==> final(configuration).summary == Some(value),
        overrides.summary is None
            ==> final(configuration).summary
            == old(configuration).summary,
        overrides.personality matches Some(value)
            ==> final(configuration).personality == Some(value),
        overrides.personality is None
            ==> final(configuration).personality
            == old(configuration).personality,
        overrides.collaboration_mode matches Some(value)
            ==> final(configuration).collaboration_mode == value,
        overrides.collaboration_mode is None
            ==> final(configuration).collaboration_mode
            == old(configuration).collaboration_mode,
{
}

/// A message says what it was made of, and the first agent has no names on its way.
pub proof fn message_says_what_it_was_made_of(
    author: AgentPath,
    recipient: AgentPath,
    other_recipients: Vec<AgentPath>,
    content: String,
    trigger_turn: bool,
    message: InterAgentCommunication,
    root: AgentPath,
)
    requires
        call_ensures(
            InterAgentCommunication::new,
            (author, recipient, other_recipients, content, trigger_turn),
            message,
        ),
        call_ensures(AgentPath::root, (), root),
    ensures
        message.author == author,
        message.recipient == recipient,
        message.other_recipients == other_recipients,
        message.content == content,
        message.trigger_turn == trigger_turn,
        root.names@.len() == 0,
{
}

} // verus!
