//! What holds of a conditional start during which the thread can change: it
//! looks at the thread, and only later comes to reserve its turn.

use vstd::prelude::*;

use crate::environment::starting_first;
use crate::error_code::INVALID_REQUEST_ERROR_CODE;
use crate::request_laws::{
    admitted_request_is_answered_with_its_turn, is_run, loaded_thread,
    refused_request_is_answered_with_its_reason, request_is_submitted_after_all_checks,
    thread_decides_last,
};
use crate::session::{MailboxItem, Session, SessionConfiguration};
use crate::turn_input::{
    no_overrides, ModeKind, PreconditionsView, StartIfIdlePreconditionNotSubmittedReason,
    StartIfIdlePreconditionSubmission, SubmissionContext, ThreadSettingsOverrides, TurnInput,
    TurnInputRequest,
};
use crate::turn_processor::{
    rejection_error_view, StartIfIdleEvent, StartIfIdleStep, TurnStartIfIdleParams,
};

verus! {

/// Where nothing changes between the two looks, they amount to one.
pub proof fn unchanged_thread_is_decided_on_once(
    before: Session,
    after: Session,
    request: TurnInputRequest,
    preconditions: PreconditionsView,
    turn_id: String,
    trigger_turn_id: String,
    submission: StartIfIdlePreconditionSubmission,
)
    requires
        after.follows_windowed_start(
            before,
            before,
            request,
            preconditions,
            turn_id,
            trigger_turn_id,
            submission,
        ),
    ensures
        after.follows_conditional_start(before, request, preconditions, turn_id, submission),
{
}

/// A start is admitted exactly when the first look finds no settings, the
/// persistence and the mode that are demanded, and no message that waits to
/// start a turn; and the later one finds the thread idle, again no such message,
/// the environments settled, and the directory that is demanded.
pub proof fn admission_across_the_window(
    first: Session,
    later: Session,
    after: Session,
    request: TurnInputRequest,
    preconditions: PreconditionsView,
    turn_id: String,
    trigger_turn_id: String,
    submission: StartIfIdlePreconditionSubmission,
)
    requires
        after.follows_windowed_start(
            first,
            later,
            request,
            preconditions,
            turn_id,
            trigger_turn_id,
            submission,
        ),
    ensures
        submission is Started <==> {
            &&& request.thread_settings == no_overrides()
            &&& preconditions.require_persistence ==> first.persistent
            &&& !first.plan_mode_rejects(request.input, preconditions.disallow_plan_mode)
            &&& !first.has_trigger()
            &&& later.is_idle()
            &&& !later.has_trigger()
            &&& !starting_first(later.configuration.environments@)
            &&& later.meets_expected_cwd(preconditions.expected_cwd)
        },
        submission is Started ==> {
            &&& submission == (StartIfIdlePreconditionSubmission::Started { turn_id })
            &&& after.starts(
                later,
                seq![request.input],
                Some(request.context()),
                no_overrides(),
                turn_id,
            )
        },
        submission is Started || submission is NotSubmitted,
{
}

/// The persistence and the mode of the thread are looked at once: what becomes
/// of them after the first look does not change the answer.
pub proof fn persistence_and_mode_are_looked_at_once(
    first: Session,
    later: Session,
    changed: Session,
    after: Session,
    after_change: Session,
    persistent: bool,
    collaboration_mode: ModeKind,
    request: TurnInputRequest,
    preconditions: PreconditionsView,
    turn_id: String,
    trigger_turn_id: String,
    submission: StartIfIdlePreconditionSubmission,
    submission_after_change: StartIfIdlePreconditionSubmission,
)
    requires
        changed == (Session {
            persistent,
            configuration: SessionConfiguration { collaboration_mode, ..later.configuration },
            ..later
        }),
        after.follows_windowed_start(
            first,
            later,
            request,
            preconditions,
            turn_id,
            trigger_turn_id,
            submission,
        ),
        after_change.follows_windowed_start(
            first,
            changed,
            request,
            preconditions,
            turn_id,
            trigger_turn_id,
            submission_after_change,
        ),
    ensures
        submission_after_change == submission,
{
}

/// A message that is to start a turn, and that slips in between the two looks,
/// goes first: the start is refused for it, and it gets its own turn without
/// any of the start's input. It stays in the mailbox for that turn to take.
pub proof fn message_in_the_window_goes_first(
    first: Session,
    later: Session,
    after: Session,
    message: MailboxItem,
    request: TurnInputRequest,
    preconditions: PreconditionsView,
    turn_id: String,
    trigger_turn_id: String,
    submission: StartIfIdlePreconditionSubmission,
)
    requires
        first.is_idle(),
        first.rejection_before_reservation(request, preconditions) is None,
        message.communication.trigger_turn,
        later.mailbox@ == first.mailbox@.push(message),
        later == (Session { mailbox: later.mailbox, ..first }),
        after.follows_windowed_start(
            first,
            later,
            request,
            preconditions,
            turn_id,
            trigger_turn_id,
            submission,
        ),
    ensures
        submission == (StartIfIdlePreconditionSubmission::NotSubmitted {
            reason: StartIfIdlePreconditionNotSubmittedReason::PendingTriggerTurn,
        }),
        after.starts(later, Seq::empty(), None, no_overrides(), trigger_turn_id),
        after.mailbox@ == first.mailbox@.push(message),
{
    let last = later.mailbox@.len() - 1;
    assert(later.mailbox@[last].communication.trigger_turn);
}

/// A turn that starts between the two looks keeps the start out: it is refused
/// as busy, and that turn is not touched.
pub proof fn turn_in_the_window_keeps_the_start_out(
    first: Session,
    later: Session,
    after: Session,
    input: Seq<TurnInput>,
    context: Option<SubmissionContext>,
    overrides: ThreadSettingsOverrides,
    other_turn_id: String,
    request: TurnInputRequest,
    preconditions: PreconditionsView,
    turn_id: String,
    trigger_turn_id: String,
    submission: StartIfIdlePreconditionSubmission,
)
    requires
        first.rejection_before_reservation(request, preconditions) is None,
        later.starts(first, input, context, overrides, other_turn_id),
        after.follows_windowed_start(
            first,
            later,
            request,
            preconditions,
            turn_id,
            trigger_turn_id,
            submission,
        ),
    ensures
        submission == (StartIfIdlePreconditionSubmission::NotSubmitted {
            reason: StartIfIdlePreconditionNotSubmittedReason::NotIdle,
        }),
        after == later,
{
}

/// A turn that starts in a session whose turn was reserved takes the
/// reservation over: nothing is left for the start that made it.
pub proof fn reservation_can_be_taken_over(
    reserved: Session,
    after: Session,
    input: Seq<TurnInput>,
    context: Option<SubmissionContext>,
    overrides: ThreadSettingsOverrides,
    turn_id: String,
)
    requires
        reserved.is_reserved(),
        after.starts(reserved, input, context, overrides, turn_id),
    ensures
        !after.is_reserved(),
        after.is_settled(),
{
}

/// A client's request, from its arrival to its answer, with the thread changing
/// between the two looks: the client is told why it is refused, as its own
/// fault, or is answered with the turn that runs with its input.
pub proof fn client_request_across_the_window(
    first: Session,
    later: Session,
    after: Session,
    params: TurnStartIfIdleParams,
    events: Seq<StartIfIdleEvent>,
    steps: Seq<StartIfIdleStep>,
    turn_id: String,
    trigger_turn_id: String,
    submission: StartIfIdlePreconditionSubmission,
)
    requires
        is_run(params, events, steps),
        events.len() == 6,
        events[5] == StartIfIdleEvent::TurnSubmitted(Ok(submission)),
        after.follows_windowed_start(
            first,
            later,
            steps[5].action->request,
            steps[5].action->preconditions@,
            turn_id,
            trigger_turn_id,
            submission,
        ),
    ensures
        match submission {
            StartIfIdlePreconditionSubmission::NotSubmitted { reason } => {
                &&& steps.last().fails_tracked(rejection_error_view(reason), None)
                &&& rejection_error_view(reason).code == INVALID_REQUEST_ERROR_CODE
            },
            StartIfIdlePreconditionSubmission::Started { turn_id: started } => {
                &&& started == turn_id
                &&& after.starts(
                    later,
                    seq![steps[5].action->request.input],
                    Some(steps[5].action->request.context()),
                    no_overrides(),
                    turn_id,
                )
                &&& steps.last().admits(loaded_thread(events), params.input@.len() > 0, turn_id)
            },
            StartIfIdlePreconditionSubmission::Unrecognized => false,
        },
{
    thread_decides_last(params, events, steps);
    request_is_submitted_after_all_checks(params, events, steps, 5);
    admitted_request_is_answered_with_its_turn(params, events, steps, turn_id);
    refused_request_is_answered_with_its_reason(params, events, steps);
}

} // verus!
