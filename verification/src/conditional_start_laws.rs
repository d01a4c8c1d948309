//! What each step of a conditional start does, in terms of what it is given and
//! what it leaves.

use vstd::prelude::*;

use crate::absolute_path::AbsolutePathBuf;
use crate::environment::{is_first_ready, primary_cwd, primary_cwd_is_first_ready};
use crate::session::{ReservedStart, Session, SessionEvent};
use crate::turn_input::{
    StartIfIdlePreconditionNotSubmittedReason, StartIfIdlePreconditionSubmission,
    StartIfIdlePreconditions, TurnInput, TurnInputRequest,
};

verus! {

/// A conditional start that names any setting is refused for that, before anything
/// else is looked at.
pub proof fn conditional_start_takes_no_settings(
    session: &mut Session,
    request: TurnInputRequest,
    preconditions: StartIfIdlePreconditions,
    turn_id: String,
    submission: StartIfIdlePreconditionSubmission,
)
    requires
        call_ensures(
            Session::start_if_idle_with_preconditions,
            (session, request, preconditions, turn_id),
            submission,
        ),
        request.thread_settings.environments is Some
            || request.thread_settings.approval_policy is Some
            || request.thread_settings.approvals_reviewer is Some
            || request.thread_settings.sandbox_policy is Some
            || request.thread_settings.permission_profile is Some
            || request.thread_settings.summary is Some
            || request.thread_settings.personality is Some
            || request.thread_settings.collaboration_mode is Some,
    ensures
        submission == (StartIfIdlePreconditionSubmission::NotSubmitted {
            reason: StartIfIdlePreconditionNotSubmittedReason::ThreadSettingsUnsupported,
        }),
        *final(session) == *old(session),
{
}

/// A thread that is not stored refuses a start that demands it.
pub proof fn conditional_start_needs_the_persistence_it_demands(
    session: &mut Session,
    request: TurnInputRequest,
    preconditions: StartIfIdlePreconditions,
    turn_id: String,
    submission: StartIfIdlePreconditionSubmission,
)
    requires
        call_ensures(
            Session::start_if_idle_with_preconditions,
            (session, request, preconditions, turn_id),
            submission,
        ),
        request.thread_settings.environments is None,
        request.thread_settings.approval_policy is None,
        request.thread_settings.approvals_reviewer is None,
        request.thread_settings.sandbox_policy is None,
        request.thread_settings.permission_profile is None,
        request.thread_settings.summary is None,
        request.thread_settings.personality is None,
        request.thread_settings.collaboration_mode is None,
        preconditions@.require_persistence,
        !old(session).persistent,
    ensures
        submission == (StartIfIdlePreconditionSubmission::NotSubmitted {
            reason: StartIfIdlePreconditionNotSubmittedReason::PersistenceDisabled,
        }),
        *final(session) == *old(session),
{
}

/// Plan mode refuses a start that rules it out, and any that is not what the user
/// typed.
pub proof fn conditional_start_gives_way_to_plan_mode(
    session: &mut Session,
    request: TurnInputRequest,
    preconditions: StartIfIdlePreconditions,
    turn_id: String,
    submission: StartIfIdlePreconditionSubmission,
)
    requires
        call_ensures(
            Session::start_if_idle_with_preconditions,
            (session, request, preconditions, turn_id),
            submission,
        ),
        request.thread_settings.environments is None,
        request.thread_settings.approval_policy is None,
        request.thread_settings.approvals_reviewer is None,
        request.thread_settings.sandbox_policy is None,
        request.thread_settings.permission_profile is None,
        request.thread_settings.summary is None,
        request.thread_settings.personality is None,
        request.thread_settings.collaboration_mode is None,
        preconditions@.require_persistence ==> old(session).persistent,
        old(session).configuration.collaboration_mode is Plan,
        preconditions@.disallow_plan_mode || (request.input matches TurnInput::UserInput {
            content,
            ..
        } ==> content@.len() == 0),
    ensures
        submission == (StartIfIdlePreconditionSubmission::NotSubmitted {
            reason: StartIfIdlePreconditionNotSubmittedReason::PlanMode,
        }),
        *final(session) == *old(session),
{
}

/// A message that is to start a turn keeps every conditional start out, wherever it
/// stands in the mailbox.
pub proof fn conditional_start_gives_way_to_a_message(
    session: &mut Session,
    request: TurnInputRequest,
    preconditions: StartIfIdlePreconditions,
    turn_id: String,
    submission: StartIfIdlePreconditionSubmission,
    i: int,
)
    requires
        call_ensures(
            Session::start_if_idle_with_preconditions,
            (session, request, preconditions, turn_id),
            submission,
        ),
        request.thread_settings.environments is None,
        request.thread_settings.approval_policy is None,
        request.thread_settings.approvals_reviewer is None,
        request.thread_settings.sandbox_policy is None,
        request.thread_settings.permission_profile is None,
        request.thread_settings.summary is None,
        request.thread_settings.personality is None,
        request.thread_settings.collaboration_mode is None,
        preconditions@.require_persistence ==> old(session).persistent,
        old(session).configuration.collaboration_mode is Plan ==> {
            &&& !preconditions@.disallow_plan_mode
            &&& request.input matches TurnInput::UserInput { content, .. }
            &&& content@.len() > 0
        },
        0 <= i < old(session).mailbox@.len(),
        old(session).mailbox@[i].communication.trigger_turn,
    ensures
        submission == (StartIfIdlePreconditionSubmission::NotSubmitted {
            reason: StartIfIdlePreconditionNotSubmittedReason::PendingTriggerTurn,
        }),
        *final(session) == *old(session),
{
}

/// A turn that is running or reserved keeps every conditional start out, and nothing
/// is put into it.
pub proof fn conditional_start_gives_way_to_a_turn(
    session: &mut Session,
    request: TurnInputRequest,
    preconditions: StartIfIdlePreconditions,
    turn_id: String,
    submission: StartIfIdlePreconditionSubmission,
)
    requires
        call_ensures(
            Session::start_if_idle_with_preconditions,
            (session, request, preconditions, turn_id),
            submission,
        ),
        request.thread_settings.environments is None,
        request.thread_settings.approval_policy is None,
        request.thread_settings.approvals_reviewer is None,
        request.thread_settings.sandbox_policy is None,
        request.thread_settings.permission_profile is None,
        request.thread_settings.summary is None,
        request.thread_settings.personality is None,
        request.thread_settings.collaboration_mode is None,
        preconditions@.require_persistence ==> old(session).persistent,
        old(session).configuration.collaboration_mode is Plan ==> {
            &&& !preconditions@.disallow_plan_mode
            &&& request.input matches TurnInput::UserInput { content, .. }
            &&& content@.len() > 0
        },
        forall|i: int|
            0 <= i < old(session).mailbox@.len() ==> !(
            #[trigger] old(session).mailbox@[i]).communication.trigger_turn,
        old(session).active_turn is Some,
    ensures
        submission == (StartIfIdlePreconditionSubmission::NotSubmitted {
            reason: StartIfIdlePreconditionNotSubmittedReason::NotIdle,
        }),
        *final(session) == *old(session),
{
}

/// As long as an environment is starting with no ready one before it, no conditional
/// start is taken, whether or not it names a directory.
pub proof fn conditional_start_waits_for_no_environment(
    session: &mut Session,
    request: TurnInputRequest,
    preconditions: StartIfIdlePreconditions,
    turn_id: String,
    submission: StartIfIdlePreconditionSubmission,
    i: int,
)
    requires
        call_ensures(
            Session::start_if_idle_with_preconditions,
            (session, request, preconditions, turn_id),
            submission,
        ),
        request.thread_settings.environments is None,
        request.thread_settings.approval_policy is None,
        request.thread_settings.approvals_reviewer is None,
        request.thread_settings.sandbox_policy is None,
        request.thread_settings.permission_profile is None,
        request.thread_settings.summary is None,
        request.thread_settings.personality is None,
        request.thread_settings.collaboration_mode is None,
        preconditions@.require_persistence ==> old(session).persistent,
        old(session).configuration.collaboration_mode is Plan ==> {
            &&& !preconditions@.disallow_plan_mode
            &&& request.input matches TurnInput::UserInput { content, .. }
            &&& content@.len() > 0
        },
        forall|i: int|
            0 <= i < old(session).mailbox@.len() ==> !(
            #[trigger] old(session).mailbox@[i]).communication.trigger_turn,
        old(session).active_turn is None,
        0 <= i < old(session).configuration.environments@.len(),
        old(session).configuration.environments@[i].readiness is Starting,
        forall|j: int|
            0 <= j < i ==> !(#[trigger] old(session).configuration.environments@[j].readiness
                is Ready),
    ensures
        submission == (StartIfIdlePreconditionSubmission::NotSubmitted {
            reason: StartIfIdlePreconditionNotSubmittedReason::EnvironmentNotReady,
        }),
        *final(session) == *old(session),
{
    assert(old(session).configuration.environments@[i].readiness is Starting);
}

/// A start that demands another directory than that of the first ready environment
/// is refused for it, and so is one where no environment is ready.
pub proof fn conditional_start_needs_the_directory_it_demands(
    session: &mut Session,
    request: TurnInputRequest,
    preconditions: StartIfIdlePreconditions,
    turn_id: String,
    submission: StartIfIdlePreconditionSubmission,
    r: int,
    expected: AbsolutePathBuf,
)
    requires
        call_ensures(
            Session::start_if_idle_with_preconditions,
            (session, request, preconditions, turn_id),
            submission,
        ),
        request.thread_settings.environments is None,
        request.thread_settings.approval_policy is None,
        request.thread_settings.approvals_reviewer is None,
        request.thread_settings.sandbox_policy is None,
        request.thread_settings.permission_profile is None,
        request.thread_settings.summary is None,
        request.thread_settings.personality is None,
        request.thread_settings.collaboration_mode is None,
        preconditions@.require_persistence ==> old(session).persistent,
        old(session).configuration.collaboration_mode is Plan ==> {
            &&& !preconditions@.disallow_plan_mode
            &&& request.input matches TurnInput::UserInput { content, .. }
            &&& content@.len() > 0
        },
        forall|i: int|
            0 <= i < old(session).mailbox@.len() ==> !(
            #[trigger] old(session).mailbox@[i]).communication.trigger_turn,
        old(session).active_turn is None,
        0 <= r <= old(session).configuration.environments@.len(),
        forall|j: int|
            0 <= j < r
                ==> (#[trigger] old(session).configuration.environments@[j]).readiness
                is Unknown,
        r < old(session).configuration.environments@.len()
            ==> old(session).configuration.environments@[r].readiness is Ready,
        preconditions@.expected_cwd == Some(expected),
        r < old(session).configuration.environments@.len()
            ==> old(session).configuration.environments@[r].cwd@ != expected@,
    ensures
        submission == (StartIfIdlePreconditionSubmission::NotSubmitted {
            reason: StartIfIdlePreconditionNotSubmittedReason::ExpectedCwdMismatch,
        }),
        *final(session) == *old(session),
{
    let environments = old(session).configuration.environments@;
    primary_cwd_is_first_ready(environments);
    if r < environments.len() {
        assert(is_first_ready(environments, r));
        assert(primary_cwd(environments) == Some(environments[r].cwd));
    }
}

/// Nothing else keeps a conditional start out.
pub proof fn conditional_start_is_taken_otherwise(
    session: &mut Session,
    request: TurnInputRequest,
    preconditions: StartIfIdlePreconditions,
    turn_id: String,
    submission: StartIfIdlePreconditionSubmission,
    r: int,
)
    requires
        call_ensures(
            Session::start_if_idle_with_preconditions,
            (session, request, preconditions, turn_id),
            submission,
        ),
        request.thread_settings.environments is None,
        request.thread_settings.approval_policy is None,
        request.thread_settings.approvals_reviewer is None,
        request.thread_settings.sandbox_policy is None,
        request.thread_settings.permission_profile is None,
        request.thread_settings.summary is None,
        request.thread_settings.personality is None,
        request.thread_settings.collaboration_mode is None,
        preconditions@.require_persistence ==> old(session).persistent,
        old(session).configuration.collaboration_mode is Plan ==> {
            &&& !preconditions@.disallow_plan_mode
            &&& request.input matches TurnInput::UserInput { content, .. }
            &&& content@.len() > 0
        },
        forall|i: int|
            0 <= i < old(session).mailbox@.len() ==> !(
            #[trigger] old(session).mailbox@[i]).communication.trigger_turn,
        old(session).active_turn is None,
        0 <= r <= old(session).configuration.environments@.len(),
        forall|j: int|
            0 <= j < r
                ==> (#[trigger] old(session).configuration.environments@[j]).readiness
                is Unknown,
        r < old(session).configuration.environments@.len()
            ==> old(session).configuration.environments@[r].readiness is Ready,
        preconditions@.expected_cwd matches Some(expected) ==> {
            &&& r < old(session).configuration.environments@.len()
            &&& old(session).configuration.environments@[r].cwd@ == expected@
        },
    ensures
        submission == (StartIfIdlePreconditionSubmission::Started { turn_id }),
{
    let environments = old(session).configuration.environments@;
    primary_cwd_is_first_ready(environments);
    if r < environments.len() {
        assert(is_first_ready(environments, r));
        assert(primary_cwd(environments) == Some(environments[r].cwd));
    }
}

/// A conditional start that is taken starts the turn that it was given, with all that
/// it brought and nothing else, and announces it; the settings stay as they were.
pub proof fn conditional_start_starts_its_turn(
    session: &mut Session,
    request: TurnInputRequest,
    preconditions: StartIfIdlePreconditions,
    turn_id: String,
    submission: StartIfIdlePreconditionSubmission,
)
    requires
        call_ensures(
            Session::start_if_idle_with_preconditions,
            (session, request, preconditions, turn_id),
            submission,
        ),
        submission is Started,
    ensures
        submission == (StartIfIdlePreconditionSubmission::Started { turn_id }),
        final(session).active_turn matches Some(active) && {
            &&& active.pending_input@.len() == 0
            &&& active.task matches Some(task) && {
                &&& task.turn_id == turn_id
                &&& task.root_turn_id is None
                &&& task.kind is Regular
                &&& task.input@.len() == 1
                &&& task.input@[0] == request.input
                &&& task.context matches Some(context) && {
                    &&& context.start == request.start
                    &&& context.additional_context == request.additional_context
                    &&& context.responsesapi_client_metadata
                        == request.responsesapi_client_metadata
                    &&& context.trace == request.trace
                }
            }
        },
        final(session).events@ == old(session).events@.push(
            SessionEvent::TurnStarted { turn_id: turn_id },
        ),
        final(session).mailbox == old(session).mailbox,
        final(session).persistent == old(session).persistent,
        request.input is UserInput ==> final(session).connector_selection@.len() == 0,
        request.input is ResponseItem ==> final(session).connector_selection
            == old(session).connector_selection,
        final(session).configuration == old(session).configuration,
        final(session).mcp_refresh_pending == old(session).mcp_refresh_pending,
{
    assert(seq![request.input][0] == request.input);
}

/// The turn of a conditional start works in the first environment that is ready, and
/// nowhere if none is; if a directory was demanded, it works there.
pub proof fn conditional_start_works_where_it_demands(
    session: &mut Session,
    request: TurnInputRequest,
    preconditions: StartIfIdlePreconditions,
    turn_id: String,
    submission: StartIfIdlePreconditionSubmission,
)
    requires
        call_ensures(
            Session::start_if_idle_with_preconditions,
            (session, request, preconditions, turn_id),
            submission,
        ),
        submission is Started,
    ensures
        final(session).active_turn matches Some(active) && active.task matches Some(task) && {
            let environments = final(session).configuration.environments@;
            &&& forall|p: int|
                0 <= p < environments.len() && environments[p].readiness is Ready && (forall|j: int|
                    0 <= j < p ==> !(#[trigger] environments[j].readiness is Ready)) ==> task.cwd
                    == Some(#[trigger] environments[p].cwd)
            &&& (forall|j: int|
                0 <= j < environments.len() ==> !(#[trigger] environments[j].readiness is Ready))
                ==> task.cwd is None
        },
        preconditions@.expected_cwd matches Some(expected) ==> (
        final(session).active_turn matches Some(active) && active.task matches Some(task)
            && task.cwd matches Some(cwd) && cwd@ == expected@),
{
    let environments = final(session).configuration.environments@;
    primary_cwd_is_first_ready(environments);
    assert forall|p: int|
        0 <= p < environments.len() && environments[p].readiness is Ready && (forall|j: int|
            0 <= j < p ==> !(#[trigger] environments[j].readiness is Ready)) implies primary_cwd(
        environments,
    ) == Some(#[trigger] environments[p].cwd) by {
        assert(is_first_ready(environments, p));
    }
}

/// The directory that is named when the demands are put together is the one that the
/// turn works in.
pub proof fn named_directory_is_worked_in(
    session: &mut Session,
    request: TurnInputRequest,
    preconditions: StartIfIdlePreconditions,
    turn_id: String,
    submission: StartIfIdlePreconditionSubmission,
    others: StartIfIdlePreconditions,
    expected: AbsolutePathBuf,
)
    requires
        call_ensures(
            StartIfIdlePreconditions::with_expected_cwd,
            (others, expected),
            preconditions,
        ),
        call_ensures(
            Session::start_if_idle_with_preconditions,
            (session, request, preconditions, turn_id),
            submission,
        ),
        submission is Started,
    ensures
        final(session).active_turn matches Some(active) && active.task matches Some(task)
            && task.cwd matches Some(cwd) && cwd@ == expected@,
{
}

/// A conditional start that is refused leaves nothing behind.
pub proof fn refused_conditional_start_leaves_nothing(
    session: &mut Session,
    request: TurnInputRequest,
    preconditions: StartIfIdlePreconditions,
    turn_id: String,
    submission: StartIfIdlePreconditionSubmission,
)
    requires
        call_ensures(
            Session::start_if_idle_with_preconditions,
            (session, request, preconditions, turn_id),
            submission,
        ),
        !(submission is Started),
    ensures
        submission is NotSubmitted,
        *final(session) == *old(session),
{
}

/// The first look refuses a start that names any setting, before anything else.
pub proof fn first_look_takes_no_settings(
    session: Session,
    request: TurnInputRequest,
    preconditions: StartIfIdlePreconditions,
    reason: Option<StartIfIdlePreconditionNotSubmittedReason>,
)
    requires
        call_ensures(
            Session::check_before_reservation,
            (&session, &request, &preconditions),
            reason,
        ),
        request.thread_settings.environments is Some
            || request.thread_settings.approval_policy is Some
            || request.thread_settings.approvals_reviewer is Some
            || request.thread_settings.sandbox_policy is Some
            || request.thread_settings.permission_profile is Some
            || request.thread_settings.summary is Some
            || request.thread_settings.personality is Some
            || request.thread_settings.collaboration_mode is Some,
    ensures
        reason == Some(StartIfIdlePreconditionNotSubmittedReason::ThreadSettingsUnsupported),
{
}

/// The first look refuses a start that demands a stored thread where it is not.
pub proof fn first_look_needs_the_persistence_it_demands(
    session: Session,
    request: TurnInputRequest,
    preconditions: StartIfIdlePreconditions,
    reason: Option<StartIfIdlePreconditionNotSubmittedReason>,
)
    requires
        call_ensures(
            Session::check_before_reservation,
            (&session, &request, &preconditions),
            reason,
        ),
        request.thread_settings.environments is None,
        request.thread_settings.approval_policy is None,
        request.thread_settings.approvals_reviewer is None,
        request.thread_settings.sandbox_policy is None,
        request.thread_settings.permission_profile is None,
        request.thread_settings.summary is None,
        request.thread_settings.personality is None,
        request.thread_settings.collaboration_mode is None,
        preconditions@.require_persistence,
        !session.persistent,
    ensures
        reason == Some(StartIfIdlePreconditionNotSubmittedReason::PersistenceDisabled),
{
}

/// The first look gives way to plan mode.
pub proof fn first_look_gives_way_to_plan_mode(
    session: Session,
    request: TurnInputRequest,
    preconditions: StartIfIdlePreconditions,
    reason: Option<StartIfIdlePreconditionNotSubmittedReason>,
)
    requires
        call_ensures(
            Session::check_before_reservation,
            (&session, &request, &preconditions),
            reason,
        ),
        request.thread_settings.environments is None,
        request.thread_settings.approval_policy is None,
        request.thread_settings.approvals_reviewer is None,
        request.thread_settings.sandbox_policy is None,
        request.thread_settings.permission_profile is None,
        request.thread_settings.summary is None,
        request.thread_settings.personality is None,
        request.thread_settings.collaboration_mode is None,
        preconditions@.require_persistence ==> session.persistent,
        session.configuration.collaboration_mode is Plan,
        preconditions@.disallow_plan_mode || (request.input matches TurnInput::UserInput {
            content,
            ..
        } ==> content@.len() == 0),
    ensures
        reason == Some(StartIfIdlePreconditionNotSubmittedReason::PlanMode),
{
}

/// The first look gives way to a message that is to start a turn, wherever it stands.
pub proof fn first_look_gives_way_to_a_message(
    session: Session,
    request: TurnInputRequest,
    preconditions: StartIfIdlePreconditions,
    reason: Option<StartIfIdlePreconditionNotSubmittedReason>,
    i: int,
)
    requires
        call_ensures(
            Session::check_before_reservation,
            (&session, &request, &preconditions),
            reason,
        ),
        request.thread_settings.environments is None,
        request.thread_settings.approval_policy is None,
        request.thread_settings.approvals_reviewer is None,
        request.thread_settings.sandbox_policy is None,
        request.thread_settings.permission_profile is None,
        request.thread_settings.summary is None,
        request.thread_settings.personality is None,
        request.thread_settings.collaboration_mode is None,
        preconditions@.require_persistence ==> session.persistent,
        session.configuration.collaboration_mode is Plan ==> {
            &&& !preconditions@.disallow_plan_mode
            &&& request.input matches TurnInput::UserInput { content, .. }
            &&& content@.len() > 0
        },
        0 <= i < session.mailbox@.len(),
        session.mailbox@[i].communication.trigger_turn,
    ensures
        reason == Some(StartIfIdlePreconditionNotSubmittedReason::PendingTriggerTurn),
{
}

/// The first look lets everything else pass, in a busy thread too.
pub proof fn first_look_passes_otherwise(
    session: Session,
    request: TurnInputRequest,
    preconditions: StartIfIdlePreconditions,
    reason: Option<StartIfIdlePreconditionNotSubmittedReason>,
)
    requires
        call_ensures(
            Session::check_before_reservation,
            (&session, &request, &preconditions),
            reason,
        ),
        request.thread_settings.environments is None,
        request.thread_settings.approval_policy is None,
        request.thread_settings.approvals_reviewer is None,
        request.thread_settings.sandbox_policy is None,
        request.thread_settings.permission_profile is None,
        request.thread_settings.summary is None,
        request.thread_settings.personality is None,
        request.thread_settings.collaboration_mode is None,
        preconditions@.require_persistence ==> session.persistent,
        session.configuration.collaboration_mode is Plan ==> {
            &&& !preconditions@.disallow_plan_mode
            &&& request.input matches TurnInput::UserInput { content, .. }
            &&& content@.len() > 0
        },
        forall|i: int|
            0 <= i < session.mailbox@.len() ==> !(
            #[trigger] session.mailbox@[i]).communication.trigger_turn,
    ensures
        reason is None,
{
}

/// An idle thread can be reserved, which leaves a turn without a task and changes
/// nothing else; any other stays as it was.
pub proof fn only_an_idle_thread_is_reserved(
    session: &mut Session,
    reserved: bool,
)
    requires
        call_ensures(Session::reserve_idle_turn, (session,), reserved),
    ensures
        reserved == (old(session).active_turn is None),
        reserved ==> (final(session).active_turn matches Some(active) && active.task is None
            && active.pending_input@.len() == 0),
        reserved ==> *final(session) == (Session {
            active_turn: final(session).active_turn,
            ..*old(session)
        }),
        !reserved ==> *final(session) == *old(session),
{
}

/// A reservation that is gone, because a turn took it over or it was ended, is not
/// renewed.
pub proof fn lost_reservation_is_not_renewed(
    session: &mut Session,
    request: TurnInputRequest,
    preconditions: StartIfIdlePreconditions,
    turn_id: String,
    outcome: ReservedStart,
)
    requires
        call_ensures(
            Session::finish_reserved_start,
            (session, request, preconditions, turn_id),
            outcome,
        ),
        old(session).active_turn matches Some(active) ==> active.task is Some,
    ensures
        outcome.submission == (StartIfIdlePreconditionSubmission::NotSubmitted {
            reason: StartIfIdlePreconditionNotSubmittedReason::NotIdle,
        }),
        !outcome.start_pending_work,
        *final(session) == *old(session),
{
}

/// A message that came after the reservation goes first, wherever it stands: the
/// reservation is given up for it.
pub proof fn reservation_gives_way_to_a_message(
    session: &mut Session,
    request: TurnInputRequest,
    preconditions: StartIfIdlePreconditions,
    turn_id: String,
    outcome: ReservedStart,
    i: int,
)
    requires
        call_ensures(
            Session::finish_reserved_start,
            (session, request, preconditions, turn_id),
            outcome,
        ),
        old(session).active_turn matches Some(active) && active.task is None,
        0 <= i < old(session).mailbox@.len(),
        old(session).mailbox@[i].communication.trigger_turn,
    ensures
        outcome.submission == (StartIfIdlePreconditionSubmission::NotSubmitted {
            reason: StartIfIdlePreconditionNotSubmittedReason::PendingTriggerTurn,
        }),
        outcome.start_pending_work,
        *final(session) == (Session { active_turn: None, ..*old(session) }),
{
}

/// A reservation is given up as long as an environment is starting with no ready one
/// before it.
pub proof fn reservation_waits_for_no_environment(
    session: &mut Session,
    request: TurnInputRequest,
    preconditions: StartIfIdlePreconditions,
    turn_id: String,
    outcome: ReservedStart,
    i: int,
)
    requires
        call_ensures(
            Session::finish_reserved_start,
            (session, request, preconditions, turn_id),
            outcome,
        ),
        old(session).active_turn matches Some(active) && active.task is None,
        forall|i: int|
            0 <= i < old(session).mailbox@.len() ==> !(
            #[trigger] old(session).mailbox@[i]).communication.trigger_turn,
        0 <= i < old(session).configuration.environments@.len(),
        old(session).configuration.environments@[i].readiness is Starting,
        forall|j: int|
            0 <= j < i ==> !(#[trigger] old(session).configuration.environments@[j].readiness
                is Ready),
    ensures
        outcome.submission == (StartIfIdlePreconditionSubmission::NotSubmitted {
            reason: StartIfIdlePreconditionNotSubmittedReason::EnvironmentNotReady,
        }),
        !outcome.start_pending_work,
        *final(session) == (Session { active_turn: None, ..*old(session) }),
{
    assert(old(session).configuration.environments@[i].readiness is Starting);
}

/// A reservation whose environments are settled is given up in another
/// directory than the one that is demanded.
pub proof fn reservation_needs_the_directory_it_demands(
    session: &mut Session,
    request: TurnInputRequest,
    preconditions: StartIfIdlePreconditions,
    turn_id: String,
    outcome: ReservedStart,
    r: int,
    expected: AbsolutePathBuf,
)
    requires
        call_ensures(
            Session::finish_reserved_start,
            (session, request, preconditions, turn_id),
            outcome,
        ),
        old(session).active_turn matches Some(active) && active.task is None,
        forall|i: int|
            0 <= i < old(session).mailbox@.len() ==> !(
            #[trigger] old(session).mailbox@[i]).communication.trigger_turn,
        0 <= r <= old(session).configuration.environments@.len(),
        forall|j: int|
            0 <= j < r
                ==> (#[trigger] old(session).configuration.environments@[j]).readiness
                is Unknown,
        r < old(session).configuration.environments@.len()
            ==> old(session).configuration.environments@[r].readiness is Ready,
        preconditions@.expected_cwd == Some(expected),
        r < old(session).configuration.environments@.len()
            ==> old(session).configuration.environments@[r].cwd@ != expected@,
    ensures
        outcome.submission == (StartIfIdlePreconditionSubmission::NotSubmitted {
            reason: StartIfIdlePreconditionNotSubmittedReason::ExpectedCwdMismatch,
        }),
        !outcome.start_pending_work,
        *final(session) == (Session { active_turn: None, ..*old(session) }),
{
    let environments = old(session).configuration.environments@;
    primary_cwd_is_first_ready(environments);
    if r < environments.len() {
        assert(is_first_ready(environments, r));
        assert(primary_cwd(environments) == Some(environments[r].cwd));
    }
}

/// A reservation becomes the turn that it was made for otherwise, with all that the
/// submission brought.
pub proof fn reservation_becomes_its_turn(
    session: &mut Session,
    request: TurnInputRequest,
    preconditions: StartIfIdlePreconditions,
    turn_id: String,
    outcome: ReservedStart,
    r: int,
)
    requires
        call_ensures(
            Session::finish_reserved_start,
            (session, request, preconditions, turn_id),
            outcome,
        ),
        old(session).active_turn matches Some(active) && active.task is None,
        forall|i: int|
            0 <= i < old(session).mailbox@.len() ==> !(
            #[trigger] old(session).mailbox@[i]).communication.trigger_turn,
        0 <= r <= old(session).configuration.environments@.len(),
        forall|j: int|
            0 <= j < r
                ==> (#[trigger] old(session).configuration.environments@[j]).readiness
                is Unknown,
        r < old(session).configuration.environments@.len()
            ==> old(session).configuration.environments@[r].readiness is Ready,
        preconditions@.expected_cwd matches Some(expected) ==> {
            &&& r < old(session).configuration.environments@.len()
            &&& old(session).configuration.environments@[r].cwd@ == expected@
        },
    ensures
        outcome.submission == (StartIfIdlePreconditionSubmission::Started { turn_id }),
        !outcome.start_pending_work,
        final(session).active_turn matches Some(active) && {
            &&& active.pending_input@.len() == 0
            &&& active.task matches Some(task) && {
                &&& task.turn_id == turn_id
                &&& task.root_turn_id is None
                &&& task.kind is Regular
                &&& task.input@.len() == 1
                &&& task.input@[0] == request.input
                &&& task.context matches Some(context) && {
                    &&& context.start == request.start
                    &&& context.additional_context == request.additional_context
                    &&& context.responsesapi_client_metadata
                        == request.responsesapi_client_metadata
                    &&& context.trace == request.trace
                }
            }
        },
        final(session).events@ == old(session).events@.push(
            SessionEvent::TurnStarted { turn_id: turn_id },
        ),
        final(session).mailbox == old(session).mailbox,
        final(session).persistent == old(session).persistent,
        request.input is UserInput ==> final(session).connector_selection@.len() == 0,
        request.input is ResponseItem ==> final(session).connector_selection
            == old(session).connector_selection,
        request.thread_settings.environments matches Some(value)
            ==> final(session).configuration.environments == value,
        request.thread_settings.environments is None
            ==> final(session).configuration.environments
            == old(session).configuration.environments,
        request.thread_settings.approval_policy matches Some(value)
            ==> final(session).configuration.approval_policy == value,
        request.thread_settings.approval_policy is None
            ==> final(session).configuration.approval_policy
            == old(session).configuration.approval_policy,
        request.thread_settings.approvals_reviewer matches Some(value)
            ==> final(session).configuration.approvals_reviewer == value,
        request.thread_settings.approvals_reviewer is None
            ==> final(session).configuration.approvals_reviewer
            == old(session).configuration.approvals_reviewer,
        request.thread_settings.sandbox_policy matches Some(value)
            ==> final(session).configuration.sandbox_policy == value,
        request.thread_settings.sandbox_policy is None
            ==> final(session).configuration.sandbox_policy
            == old(session).configuration.sandbox_policy,
        request.thread_settings.permission_profile matches Some(value)
            ==> final(session).configuration.permission_profile == value,
        request.thread_settings.permission_profile is None
            ==> final(session).configuration.permission_profile
            == old(session).configuration.permission_profile,
        request.thread_settings.summary matches Some(value)
            ==> final(session).configuration.summary == Some(value),
        request.thread_settings.summary is None
            ==> final(session).configuration.summary
            == old(session).configuration.summary,
        request.thread_settings.personality matches Some(value)
            ==> final(session).configuration.personality == Some(value),
        request.thread_settings.personality is None
            ==> final(session).configuration.personality
            == old(session).configuration.personality,
        request.thread_settings.collaboration_mode matches Some(value)
            ==> final(session).configuration.collaboration_mode == value,
        request.thread_settings.collaboration_mode is None
            ==> final(session).configuration.collaboration_mode
            == old(session).configuration.collaboration_mode,
        final(session).mcp_refresh_pending == (old(session).mcp_refresh_pending || (
        request.thread_settings.approvals_reviewer matches Some(reviewer) && reviewer
            != old(session).configuration.approvals_reviewer)),
{
    let environments = old(session).configuration.environments@;
    primary_cwd_is_first_ready(environments);
    if r < environments.len() {
        assert(is_first_ready(environments, r));
        assert(primary_cwd(environments) == Some(environments[r].cwd));
    }
    assert(seq![request.input][0] == request.input);
}

/// The turn of a reservation works in the first environment that is ready, and
/// nowhere if none is.
pub proof fn reservation_works_in_the_first_ready_environment(
    session: &mut Session,
    request: TurnInputRequest,
    preconditions: StartIfIdlePreconditions,
    turn_id: String,
    outcome: ReservedStart,
)
    requires
        call_ensures(
            Session::finish_reserved_start,
            (session, request, preconditions, turn_id),
            outcome,
        ),
        outcome.submission is Started,
    ensures
        final(session).active_turn matches Some(active) && active.task matches Some(task) && {
            let environments = final(session).configuration.environments@;
            &&& forall|p: int|
                0 <= p < environments.len() && environments[p].readiness is Ready && (forall|j: int|
                    0 <= j < p ==> !(#[trigger] environments[j].readiness is Ready)) ==> task.cwd
                    == Some(#[trigger] environments[p].cwd)
            &&& (forall|j: int|
                0 <= j < environments.len() ==> !(#[trigger] environments[j].readiness is Ready))
                ==> task.cwd is None
        },
{
    let environments = final(session).configuration.environments@;
    primary_cwd_is_first_ready(environments);
    assert forall|p: int|
        0 <= p < environments.len() && environments[p].readiness is Ready && (forall|j: int|
            0 <= j < p ==> !(#[trigger] environments[j].readiness is Ready)) implies primary_cwd(
        environments,
    ) == Some(#[trigger] environments[p].cwd) by {
        assert(is_first_ready(environments, p));
    }
}

/// A start that comes to a busy thread changes nothing.
pub proof fn late_start_gives_way_to_a_turn(
    session: &mut Session,
    request: TurnInputRequest,
    preconditions: StartIfIdlePreconditions,
    turn_id: String,
    trigger_turn_id: String,
    submission: StartIfIdlePreconditionSubmission,
)
    requires
        call_ensures(
            Session::reserve_and_start,
            (session, request, preconditions, turn_id, trigger_turn_id),
            submission,
        ),
        old(session).active_turn is Some,
    ensures
        submission == (StartIfIdlePreconditionSubmission::NotSubmitted {
            reason: StartIfIdlePreconditionNotSubmittedReason::NotIdle,
        }),
        *final(session) == *old(session),
{
}

/// A start that comes to a message gives way to it, wherever it stands: the message
/// gets its own turn, without any of the input, and stays for that turn to take.
pub proof fn late_start_gives_the_turn_to_a_message(
    session: &mut Session,
    request: TurnInputRequest,
    preconditions: StartIfIdlePreconditions,
    turn_id: String,
    trigger_turn_id: String,
    submission: StartIfIdlePreconditionSubmission,
    i: int,
)
    requires
        call_ensures(
            Session::reserve_and_start,
            (session, request, preconditions, turn_id, trigger_turn_id),
            submission,
        ),
        old(session).active_turn is None,
        0 <= i < old(session).mailbox@.len(),
        old(session).mailbox@[i].communication.trigger_turn,
    ensures
        submission == (StartIfIdlePreconditionSubmission::NotSubmitted {
            reason: StartIfIdlePreconditionNotSubmittedReason::PendingTriggerTurn,
        }),
        final(session).active_turn matches Some(active) && {
            &&& active.pending_input@.len() == 0
            &&& active.task matches Some(task) && {
                &&& task.turn_id == trigger_turn_id
                &&& task.root_turn_id is None
                &&& task.kind is Regular
                &&& task.input@.len() == 0
                &&& task.context is None
            }
        },
        final(session).events@ == old(session).events@.push(
            SessionEvent::TurnStarted { turn_id: trigger_turn_id },
        ),
        final(session).mailbox == old(session).mailbox,
        final(session).persistent == old(session).persistent,
        final(session).connector_selection == old(session).connector_selection,
        final(session).configuration == old(session).configuration,
        final(session).mcp_refresh_pending == old(session).mcp_refresh_pending,
{
}

/// A start that comes to environments that are not settled changes nothing.
pub proof fn late_start_waits_for_no_environment(
    session: &mut Session,
    request: TurnInputRequest,
    preconditions: StartIfIdlePreconditions,
    turn_id: String,
    trigger_turn_id: String,
    submission: StartIfIdlePreconditionSubmission,
    i: int,
)
    requires
        call_ensures(
            Session::reserve_and_start,
            (session, request, preconditions, turn_id, trigger_turn_id),
            submission,
        ),
        old(session).active_turn is None,
        forall|i: int|
            0 <= i < old(session).mailbox@.len() ==> !(
            #[trigger] old(session).mailbox@[i]).communication.trigger_turn,
        0 <= i < old(session).configuration.environments@.len(),
        old(session).configuration.environments@[i].readiness is Starting,
        forall|j: int|
            0 <= j < i ==> !(#[trigger] old(session).configuration.environments@[j].readiness
                is Ready),
    ensures
        submission == (StartIfIdlePreconditionSubmission::NotSubmitted {
            reason: StartIfIdlePreconditionNotSubmittedReason::EnvironmentNotReady,
        }),
        *final(session) == *old(session),
{
    assert(old(session).configuration.environments@[i].readiness is Starting);
}

/// A start that comes to another directory than it demands changes nothing.
pub proof fn late_start_needs_the_directory_it_demands(
    session: &mut Session,
    request: TurnInputRequest,
    preconditions: StartIfIdlePreconditions,
    turn_id: String,
    trigger_turn_id: String,
    submission: StartIfIdlePreconditionSubmission,
    r: int,
    expected: AbsolutePathBuf,
)
    requires
        call_ensures(
            Session::reserve_and_start,
            (session, request, preconditions, turn_id, trigger_turn_id),
            submission,
        ),
        old(session).active_turn is None,
        forall|i: int|
            0 <= i < old(session).mailbox@.len() ==> !(
            #[trigger] old(session).mailbox@[i]).communication.trigger_turn,
        0 <= r <= old(session).configuration.environments@.len(),
        forall|j: int|
            0 <= j < r
                ==> (#[trigger] old(session).configuration.environments@[j]).readiness
                is Unknown,
        r < old(session).configuration.environments@.len()
            ==> old(session).configuration.environments@[r].readiness is Ready,
        preconditions@.expected_cwd == Some(expected),
        r < old(session).configuration.environments@.len()
            ==> old(session).configuration.environments@[r].cwd@ != expected@,
    ensures
        submission == (StartIfIdlePreconditionSubmission::NotSubmitted {
            reason: StartIfIdlePreconditionNotSubmittedReason::ExpectedCwdMismatch,
        }),
        *final(session) == *old(session),
{
    let environments = old(session).configuration.environments@;
    primary_cwd_is_first_ready(environments);
    if r < environments.len() {
        assert(is_first_ready(environments, r));
        assert(primary_cwd(environments) == Some(environments[r].cwd));
    }
}

/// A start that comes to nothing of the kind is taken.
pub proof fn late_start_is_taken_otherwise(
    session: &mut Session,
    request: TurnInputRequest,
    preconditions: StartIfIdlePreconditions,
    turn_id: String,
    trigger_turn_id: String,
    submission: StartIfIdlePreconditionSubmission,
    r: int,
)
    requires
        call_ensures(
            Session::reserve_and_start,
            (session, request, preconditions, turn_id, trigger_turn_id),
            submission,
        ),
        old(session).active_turn is None,
        forall|i: int|
            0 <= i < old(session).mailbox@.len() ==> !(
            #[trigger] old(session).mailbox@[i]).communication.trigger_turn,
        0 <= r <= old(session).configuration.environments@.len(),
        forall|j: int|
            0 <= j < r
                ==> (#[trigger] old(session).configuration.environments@[j]).readiness
                is Unknown,
        r < old(session).configuration.environments@.len()
            ==> old(session).configuration.environments@[r].readiness is Ready,
        preconditions@.expected_cwd matches Some(expected) ==> {
            &&& r < old(session).configuration.environments@.len()
            &&& old(session).configuration.environments@[r].cwd@ == expected@
        },
    ensures
        submission == (StartIfIdlePreconditionSubmission::Started { turn_id }),
{
    let environments = old(session).configuration.environments@;
    primary_cwd_is_first_ready(environments);
    if r < environments.len() {
        assert(is_first_ready(environments, r));
        assert(primary_cwd(environments) == Some(environments[r].cwd));
    }
}

/// A late start that is taken starts the turn that it was given, with all that it
/// brought and nothing else, and announces it.
pub proof fn late_start_starts_its_turn(
    session: &mut Session,
    request: TurnInputRequest,
    preconditions: StartIfIdlePreconditions,
    turn_id: String,
    trigger_turn_id: String,
    submission: StartIfIdlePreconditionSubmission,
)
    requires
        call_ensures(
            Session::reserve_and_start,
            (session, request, preconditions, turn_id, trigger_turn_id),
            submission,
        ),
        submission is Started,
    ensures
        submission == (StartIfIdlePreconditionSubmission::Started { turn_id }),
        final(session).active_turn matches Some(active) && {
            &&& active.pending_input@.len() == 0
            &&& active.task matches Some(task) && {
                &&& task.turn_id == turn_id
                &&& task.root_turn_id is None
                &&& task.kind is Regular
                &&& task.input@.len() == 1
                &&& task.input@[0] == request.input
                &&& task.context matches Some(context) && {
                    &&& context.start == request.start
                    &&& context.additional_context == request.additional_context
                    &&& context.responsesapi_client_metadata
                        == request.responsesapi_client_metadata
                    &&& context.trace == request.trace
                }
            }
        },
        final(session).events@ == old(session).events@.push(
            SessionEvent::TurnStarted { turn_id: turn_id },
        ),
        final(session).mailbox == old(session).mailbox,
        final(session).persistent == old(session).persistent,
        request.input is UserInput ==> final(session).connector_selection@.len() == 0,
        request.input is ResponseItem ==> final(session).connector_selection
            == old(session).connector_selection,
        request.thread_settings.environments matches Some(value)
            ==> final(session).configuration.environments == value,
        request.thread_settings.environments is None
            ==> final(session).configuration.environments
            == old(session).configuration.environments,
        request.thread_settings.approval_policy matches Some(value)
            ==> final(session).configuration.approval_policy == value,
        request.thread_settings.approval_policy is None
            ==> final(session).configuration.approval_policy
            == old(session).configuration.approval_policy,
        request.thread_settings.approvals_reviewer matches Some(value)
            ==> final(session).configuration.approvals_reviewer == value,
        request.thread_settings.approvals_reviewer is None
            ==> final(session).configuration.approvals_reviewer
            == old(session).configuration.approvals_reviewer,
        request.thread_settings.sandbox_policy matches Some(value)
            ==> final(session).configuration.sandbox_policy == value,
        request.thread_settings.sandbox_policy is None
            ==> final(session).configuration.sandbox_policy
            == old(session).configuration.sandbox_policy,
        request.thread_settings.permission_profile matches Some(value)
            ==> final(session).configuration.permission_profile == value,
        request.thread_settings.permission_profile is None
            ==> final(session).configuration.permission_profile
            == old(session).configuration.permission_profile,
        request.thread_settings.summary matches Some(value)
            ==> final(session).configuration.summary == Some(value),
        request.thread_settings.summary is None
            ==> final(session).configuration.summary
            == old(session).configuration.summary,
        request.thread_settings.personality matches Some(value)
            ==> final(session).configuration.personality == Some(value),
        request.thread_settings.personality is None
            ==> final(session).configuration.personality
            == old(session).configuration.personality,
        request.thread_settings.collaboration_mode matches Some(value)
            ==> final(session).configuration.collaboration_mode == value,
        request.thread_settings.collaboration_mode is None
            ==> final(session).configuration.collaboration_mode
            == old(session).configuration.collaboration_mode,
        final(session).mcp_refresh_pending == (old(session).mcp_refresh_pending || (
        request.thread_settings.approvals_reviewer matches Some(reviewer) && reviewer
            != old(session).configuration.approvals_reviewer)),
{
    assert(seq![request.input][0] == request.input);
}

/// The turn that a late start leads to, its own or that of a message, works in the
/// first environment that is ready, and nowhere if none is; its own works in the
/// directory that was demanded, unless it brings environments of its own.
pub proof fn late_start_works_where_it_demands(
    session: &mut Session,
    request: TurnInputRequest,
    preconditions: StartIfIdlePreconditions,
    turn_id: String,
    trigger_turn_id: String,
    submission: StartIfIdlePreconditionSubmission,
)
    requires
        call_ensures(
            Session::reserve_and_start,
            (session, request, preconditions, turn_id, trigger_turn_id),
            submission,
        ),
        old(session).active_turn is None,
        submission is Started || submission == (StartIfIdlePreconditionSubmission::NotSubmitted {
            reason: StartIfIdlePreconditionNotSubmittedReason::PendingTriggerTurn,
        }),
    ensures
        final(session).active_turn matches Some(active) && active.task matches Some(task) && {
            let environments = final(session).configuration.environments@;
            &&& forall|p: int|
                0 <= p < environments.len() && environments[p].readiness is Ready && (forall|j: int|
                    0 <= j < p ==> !(#[trigger] environments[j].readiness is Ready)) ==> task.cwd
                    == Some(#[trigger] environments[p].cwd)
            &&& (forall|j: int|
                0 <= j < environments.len() ==> !(#[trigger] environments[j].readiness is Ready))
                ==> task.cwd is None
        },
        submission is Started && request.thread_settings.environments is None ==> (
        preconditions@.expected_cwd matches Some(expected) ==> (
        final(session).active_turn matches Some(active) && active.task matches Some(task)
            && task.cwd matches Some(cwd) && cwd@ == expected@)),
{
    let environments = final(session).configuration.environments@;
    primary_cwd_is_first_ready(environments);
    assert forall|p: int|
        0 <= p < environments.len() && environments[p].readiness is Ready && (forall|j: int|
            0 <= j < p ==> !(#[trigger] environments[j].readiness is Ready)) implies primary_cwd(
        environments,
    ) == Some(#[trigger] environments[p].cwd) by {
        assert(is_first_ready(environments, p));
    }
}

} // verus!
