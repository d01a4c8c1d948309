//! What holds of admission as a whole: which refusal wins, what a refusal
//! leaves behind, and what a client learns of it.

use vstd::prelude::*;

use crate::absolute_path::AbsolutePathBuf;
use crate::environment::{
    is_first_ready, primary_cwd, primary_cwd_is_first_ready, starting_first, TurnEnvironment,
};
use crate::error_code::INVALID_REQUEST_ERROR_CODE;
use crate::request_laws::{
    admitted_request_is_answered_with_its_turn, is_run, loaded_thread,
    refused_request_is_answered_with_its_reason, request_is_submitted_after_all_checks,
    thread_decides_last,
};
use crate::session::{MailboxItem, Session, SessionEvent};
use crate::turn_input::{
    no_overrides, no_preconditions, NotSubmittedReason, PreconditionsView,
    StartIfIdlePreconditionNotSubmittedReason, StartIfIdlePreconditionSubmission,
    SubmissionContext, ThreadSettingsOverrides, TurnInput, TurnInputRequest, W3cTraceContext,
};
use crate::turn_processor::{
    rejection_error_view, StartIfIdleAction, StartIfIdleEvent, StartIfIdleStep,
    TurnStartIfIdleParams,
};

verus! {

/// A conditional start that would change the thread's settings is refused for
/// that, whatever else speaks against it.
pub proof fn thread_settings_are_refused_first(
    session: Session,
    request: TurnInputRequest,
    preconditions: PreconditionsView,
)
    requires
        request.thread_settings != no_overrides(),
    ensures
        session.conditional_rejection(request, preconditions) == Some(
            StartIfIdlePreconditionNotSubmittedReason::ThreadSettingsUnsupported,
        ),
{
}

/// As long as an environment that may take precedence is still starting, no
/// conditional start is admitted, whether or not it names a directory; and if
/// nothing else speaks against it, that is the reason given.
pub proof fn starting_environment_fails_closed(
    session: Session,
    request: TurnInputRequest,
    preconditions: PreconditionsView,
)
    requires
        starting_first(session.configuration.environments@),
    ensures
        session.conditional_rejection(request, preconditions) is Some,
        session.is_idle() && session.rejection_before_reservation(request, preconditions) is None
            ==> session.conditional_rejection(request, preconditions) == Some(
            StartIfIdlePreconditionNotSubmittedReason::EnvironmentNotReady,
        ),
{
}

/// The reason of a start-only refusal, as a conditional start gives it.
pub open spec fn as_conditional_reason(reason: NotSubmittedReason) -> Option<
    StartIfIdlePreconditionNotSubmittedReason,
> {
    match reason {
        NotSubmittedReason::NotIdle => Some(StartIfIdlePreconditionNotSubmittedReason::NotIdle),
        NotSubmittedReason::PendingTriggerTurn => Some(
            StartIfIdlePreconditionNotSubmittedReason::PendingTriggerTurn,
        ),
        NotSubmittedReason::PlanMode => Some(StartIfIdlePreconditionNotSubmittedReason::PlanMode),
        _ => None,
    }
}

/// Without preconditions, a conditional start is admitted as a start-only
/// submission is, and refused for the same reason, once the environments are
/// settled.
pub proof fn default_preconditions_preserve_start_only_admission(
    session: Session,
    request: TurnInputRequest,
)
    requires
        request.thread_settings == no_overrides(),
        !starting_first(session.configuration.environments@),
    ensures
        session.conditional_rejection(request, no_preconditions()) == (
        match session.start_only_rejection(request.input) {
            Some(reason) => as_conditional_reason(reason),
            None => None,
        }),
        session.start_only_rejection(request.input) matches Some(reason) ==> as_conditional_reason(
            reason,
        ) is Some,
{
}

/// Every demand of `weaker` is one of `stronger`.
pub open spec fn demands_no_more(weaker: PreconditionsView, stronger: PreconditionsView) -> bool {
    &&& weaker.expected_cwd is None || weaker.expected_cwd == stronger.expected_cwd
    &&& weaker.require_persistence ==> stronger.require_persistence
    &&& weaker.disallow_plan_mode ==> stronger.disallow_plan_mode
}

/// Preconditions only narrow: what is admitted under some is admitted under
/// fewer.
pub proof fn preconditions_only_narrow(
    session: Session,
    request: TurnInputRequest,
    weaker: PreconditionsView,
    stronger: PreconditionsView,
)
    requires
        demands_no_more(weaker, stronger),
        session.conditional_rejection(request, stronger) is None,
    ensures
        session.conditional_rejection(request, weaker) is None,
{
}

/// A start that was refused for its directory alone is admitted in the
/// directory of the primary environment, if there is one.
pub proof fn matching_cwd_is_admitted_after_mismatch(
    session: Session,
    request: TurnInputRequest,
    preconditions: PreconditionsView,
    cwd: AbsolutePathBuf,
)
    requires
        session.conditional_rejection(request, preconditions) == Some(
            StartIfIdlePreconditionNotSubmittedReason::ExpectedCwdMismatch,
        ),
        primary_cwd(session.configuration.environments@) matches Some(primary) && primary@ == cwd@,
    ensures
        preconditions.expected_cwd matches Some(expected) && expected@ != cwd@,
        session.conditional_rejection(
            request,
            PreconditionsView { expected_cwd: Some(cwd), ..preconditions },
        ) is None,
{
}

/// A reservation does not change what speaks against the start that holds it.
pub proof fn reservation_decides_nothing(
    session: Session,
    reserved: Session,
    preconditions: PreconditionsView,
)
    requires
        session.is_idle(),
        reserved == (Session { active_turn: reserved.active_turn, ..session }),
    ensures
        reserved.rejection_after_reservation(preconditions)
            == session.rejection_after_reservation(preconditions),
{
}

/// A message that is to start a turn, and that arrives between the reservation
/// and the start, goes first: the start is refused for it, nothing of the start
/// is left, the message is still there, and the session is idle so that a turn
/// can be started for it.
pub proof fn trigger_after_reservation_goes_first(
    session: Session,
    reserved: Session,
    triggered: Session,
    message: MailboxItem,
    preconditions: PreconditionsView,
)
    requires
        session.is_idle(),
        reserved.is_reserved(),
        reserved == (Session { active_turn: reserved.active_turn, ..session }),
        message.communication.trigger_turn,
        triggered.mailbox@ == reserved.mailbox@.push(message),
        triggered == (Session { mailbox: triggered.mailbox, ..reserved }),
    ensures
        triggered.is_reserved(),
        triggered.rejection_after_reservation(preconditions) == Some(
            StartIfIdlePreconditionNotSubmittedReason::PendingTriggerTurn,
        ),
        ({
            let released = Session { active_turn: None, ..triggered };
            &&& released == (Session { mailbox: triggered.mailbox, ..session })
            &&& released.mailbox@ == session.mailbox@.push(message)
            &&& released.is_idle()
            &&& released.has_trigger()
        }),
{
    let last = triggered.mailbox@.len() - 1;
    assert(triggered.mailbox@[last] == message);
    let released = Session { active_turn: None, ..triggered };
    assert(released.mailbox@[last].communication.trigger_turn);
}

/// As long as a turn is running or reserved, no other is started: every
/// start-only submission and every conditional start is refused.
pub proof fn busy_session_starts_no_turn(
    session: Session,
    request: TurnInputRequest,
    preconditions: PreconditionsView,
)
    requires
        !session.is_idle(),
    ensures
        session.conditional_rejection(request, preconditions) is Some,
        session.start_only_rejection(request.input) is Some,
{
}

/// A thread has one turn at a time: once a turn has started, no start-only
/// submission and no conditional start is admitted until it ends.
pub proof fn started_turn_excludes_others(
    before: Session,
    after: Session,
    input: Seq<TurnInput>,
    context: Option<SubmissionContext>,
    overrides: ThreadSettingsOverrides,
    turn_id: String,
    request: TurnInputRequest,
    preconditions: PreconditionsView,
)
    requires
        after.starts(before, input, context, overrides, turn_id),
    ensures
        after.conditional_rejection(request, preconditions) is Some,
        after.start_only_rejection(request.input) is Some,
        after.running_task() matches Some(task) && task.turn_id == turn_id,
{
}

/// No submission that is taken leaves a reservation behind.
pub proof fn taken_submission_leaves_session_settled(
    before: Session,
    after: Session,
    input: TurnInput,
    joining: SubmissionContext,
    items: Seq<TurnInput>,
    starting: Option<SubmissionContext>,
    overrides: ThreadSettingsOverrides,
    turn_id: String,
)
    requires
        before.is_settled(),
        after.starts(before, items, starting, overrides, turn_id) || after.steers(
            before,
            input,
            joining,
            overrides,
        ),
    ensures
        after.is_settled(),
        !after.is_idle(),
{
}

/// A submission that is refused, or that joins the turn that is running, leaves
/// that turn's task as it was, and so the turn that it goes back to.
pub proof fn running_task_outlives_submissions(
    before: Session,
    after: Session,
    input: TurnInput,
    context: SubmissionContext,
    overrides: ThreadSettingsOverrides,
)
    requires
        before.running_task() is Some,
        after == before || after.steers(before, input, context, overrides),
    ensures
        after.running_task() == before.running_task(),
        after.running_task()->0.root_turn_id == before.running_task()->0.root_turn_id,
{
}

/// Once the messages are taken out of the mailbox, none of them keeps a turn
/// from starting any more: what remains is what else speaks against the start.
pub proof fn taken_messages_keep_no_turn_from_starting(
    before: Session,
    after: Session,
    request: TurnInputRequest,
    preconditions: PreconditionsView,
)
    requires
        after.mailbox@ == Seq::<MailboxItem>::empty(),
        after == (Session { mailbox: after.mailbox, ..before }),
    ensures
        !after.has_trigger(),
        after.start_only_rejection(request.input) != Some(NotSubmittedReason::PendingTriggerTurn),
        after.conditional_rejection(request, preconditions) != Some(
            StartIfIdlePreconditionNotSubmittedReason::PendingTriggerTurn,
        ),
        !before.has_trigger() ==> {
            &&& after.start_only_rejection(request.input) == before.start_only_rejection(
                request.input,
            )
            &&& after.conditional_rejection(request, preconditions)
                == before.conditional_rejection(request, preconditions)
        },
{
}

/// The turn of a message opens admission again: it starts for the message,
/// takes it out of the mailbox and ends, and the thread then takes what it would
/// have taken without the message.
pub proof fn admission_is_open_after_the_turn_of_a_message(
    before: Session,
    running: Session,
    emptied: Session,
    ended: Session,
    turn_id: String,
    request: TurnInputRequest,
    preconditions: PreconditionsView,
)
    requires
        before.is_idle(),
        before.has_trigger(),
        running.starts(before, Seq::empty(), None, no_overrides(), turn_id),
        emptied.mailbox@ == Seq::<MailboxItem>::empty(),
        emptied == (Session { mailbox: emptied.mailbox, ..running }),
        ended == (Session { active_turn: None, ..emptied }),
    ensures
        before.conditional_rejection(request, preconditions) is Some,
        ended.is_idle(),
        ended.configuration == before.configuration,
        ({
            let without = Session { mailbox: emptied.mailbox, ..before };
            &&& ended.start_only_rejection(request.input) == without.start_only_rejection(
                request.input,
            )
            &&& ended.conditional_rejection(request, preconditions)
                == without.conditional_rejection(request, preconditions)
            &&& ended.conditional_rejection(request, preconditions) != Some(
                StartIfIdlePreconditionNotSubmittedReason::PendingTriggerTurn,
            )
        }),
{
}

/// What a client's request hands to the thread is admitted exactly when the
/// thread is idle, stored, not in plan mode, without a message that waits to
/// start a turn, settled on its environments, and in the expected directory.
pub proof fn client_request_admission(
    session: Session,
    step: StartIfIdleStep,
    params: TurnStartIfIdleParams,
    thread_id: String,
    trace: Option<W3cTraceContext>,
)
    requires
        step.submits(params, thread_id, trace),
    ensures
        session.conditional_rejection(
            step.action->request,
            step.action->preconditions@,
        ) is None <==> {
            &&& session.is_idle()
            &&& session.persistent
            &&& !(session.configuration.collaboration_mode is Plan)
            &&& !session.has_trigger()
            &&& !starting_first(session.configuration.environments@)
            &&& primary_cwd(session.configuration.environments@) matches Some(cwd)
            &&& cwd@ == params.expected_cwd@
        },
{
}

/// A turn that started first wins over a client's conditional request: the
/// request is refused as busy, if nothing that weighs more speaks against it.
pub proof fn turn_that_started_first_wins(
    before: Session,
    after: Session,
    input: Seq<TurnInput>,
    context: Option<SubmissionContext>,
    overrides: ThreadSettingsOverrides,
    turn_id: String,
    step: StartIfIdleStep,
    params: TurnStartIfIdleParams,
    thread_id: String,
    trace: Option<W3cTraceContext>,
)
    requires
        after.starts(before, input, context, overrides, turn_id),
        after.persistent,
        !(after.configuration.collaboration_mode is Plan),
        !after.has_trigger(),
        step.submits(params, thread_id, trace),
    ensures
        after.conditional_rejection(step.action->request, step.action->preconditions@) == Some(
            StartIfIdlePreconditionNotSubmittedReason::NotIdle,
        ),
        rejection_error_view(StartIfIdlePreconditionNotSubmittedReason::NotIdle).message == "busy"@,
{
}

/// A client whose request the thread refuses is told that the request is to
/// blame: the reasons that would blame the server do not arise.
pub proof fn client_request_refusal_blames_the_request(
    session: Session,
    step: StartIfIdleStep,
    params: TurnStartIfIdleParams,
    thread_id: String,
    trace: Option<W3cTraceContext>,
    reason: StartIfIdlePreconditionNotSubmittedReason,
)
    requires
        step.submits(params, thread_id, trace),
        session.conditional_rejection(step.action->request, step.action->preconditions@) == Some(
            reason,
        ),
    ensures
        !(reason is ThreadSettingsUnsupported),
        !(reason is Unrecognized),
        rejection_error_view(reason).code == INVALID_REQUEST_ERROR_CODE,
{
}

/// The client's input, all of it and nothing else, is what an admitted turn
/// starts with, under the trace of the request, and the announced turn is the one that the client is answered
/// with.
pub proof fn admitted_request_starts_the_answered_turn(
    before: Session,
    after: Session,
    submitted: StartIfIdleStep,
    answered: StartIfIdleStep,
    params: TurnStartIfIdleParams,
    thread_id: String,
    trace: Option<W3cTraceContext>,
    turn_id: String,
)
    requires
        submitted.submits(params, thread_id, trace),
        after.starts(
            before,
            seq![submitted.action->request.input],
            Some(submitted.action->request.context()),
            no_overrides(),
            turn_id,
        ),
        answered.admits(thread_id, params.input@.len() > 0, turn_id),
    ensures
        after.events@.last() == (SessionEvent::TurnStarted { turn_id }),
        after.running_task() matches Some(task) && {
            &&& task.turn_id == turn_id
            &&& task.input@ == seq![submitted.action->request.input]
            &&& task.context matches Some(context) && context.trace == trace
        },
        answered.action matches StartIfIdleAction::Respond(Ok(Some(payload)))
            && payload->TurnStartIfIdle_0.turn.id == turn_id,
        after.configuration == before.configuration,
{
}

/// A client's request, from its arrival to its answer, with the thread deciding
/// on it as it stands: if something speaks against it, the client is told what,
/// as its own fault, and the thread is as it was; if nothing does, the turn
/// `turn_id` runs with the client's input, and the client is answered with it.
pub proof fn client_request_from_arrival_to_answer(
    before: Session,
    after: Session,
    params: TurnStartIfIdleParams,
    events: Seq<StartIfIdleEvent>,
    steps: Seq<StartIfIdleStep>,
    turn_id: String,
    submission: StartIfIdlePreconditionSubmission,
)
    requires
        is_run(params, events, steps),
        events.len() == 6,
        events[5] == StartIfIdleEvent::TurnSubmitted(Ok(submission)),
        after.follows_conditional_start(
            before,
            steps[5].action->request,
            steps[5].action->preconditions@,
            turn_id,
            submission,
        ),
    ensures
        steps[5].action is StartTurnIfIdle,
        steps[5].submits(params, loaded_thread(events), events[4]->TraceCollected_0),
        match before.conditional_rejection(
            steps[5].action->request,
            steps[5].action->preconditions@,
        ) {
            Some(reason) => {
                &&& after == before
                &&& steps.last().fails_tracked(rejection_error_view(reason), None)
                &&& rejection_error_view(reason).code == INVALID_REQUEST_ERROR_CODE
            },
            None => {
                &&& after.starts(
                    before,
                    seq![steps[5].action->request.input],
                    Some(steps[5].action->request.context()),
                    no_overrides(),
                    turn_id,
                )
                &&& steps.last().admits(loaded_thread(events), params.input@.len() > 0, turn_id)
            },
        },
{
    thread_decides_last(params, events, steps);
    request_is_submitted_after_all_checks(params, events, steps, 5);
    admitted_request_is_answered_with_its_turn(params, events, steps, turn_id);
    refused_request_is_answered_with_its_reason(params, events, steps);
}

/// An environment that is not known counts for nothing: without it the same
/// environment is primary, and the same ones are waited for.
pub proof fn unknown_environment_counts_for_nothing(
    environments: Seq<TurnEnvironment>,
    unknown: int,
)
    requires
        0 <= unknown < environments.len(),
        environments[unknown].readiness is Unknown,
    ensures
        primary_cwd(environments.remove(unknown)) == primary_cwd(environments),
        starting_first(environments.remove(unknown)) == starting_first(environments),
{
    let rest = environments.remove(unknown);
    primary_cwd_is_first_ready(environments);
    primary_cwd_is_first_ready(rest);
    if primary_cwd(rest) is Some {
        first_ready_exists(rest);
        let k = choose|k: int| is_first_ready(rest, k);
        let i = if k < unknown {
            k
        } else {
            k + 1
        };
        assert(rest[k] == environments[i]);
        assert forall|j: int| 0 <= j < i implies !(#[trigger] environments[j].readiness is Ready) by {
            if j < unknown {
                assert(rest[j] == environments[j]);
            } else if j > unknown {
                assert(rest[j - 1] == environments[j]);
            }
        }
        assert(is_first_ready(environments, i));
        assert(primary_cwd(environments) == Some(environments[i].cwd));
        assert(primary_cwd(rest) == Some(rest[k].cwd));
    } else {
        assert forall|j: int| 0 <= j < environments.len() implies !(
        #[trigger] environments[j].readiness is Ready) by {
            if j < unknown {
                assert(rest[j] == environments[j]);
            } else if j > unknown {
                assert(rest[j - 1] == environments[j]);
            }
        }
    }
    if starting_first(environments) {
        let i = choose|i: int|
            #![trigger environments[i]]
            0 <= i < environments.len() && environments[i].readiness is Starting && forall|j: int|
                0 <= j < i ==> !(#[trigger] environments[j].readiness is Ready);
        let k = if i < unknown {
            i
        } else {
            i - 1
        };
        assert(rest[k] == environments[i]);
        assert forall|j: int| 0 <= j < k implies !(#[trigger] rest[j].readiness is Ready) by {
            assert(rest[j] == environments[if j < unknown {
                j
            } else {
                j + 1
            }]);
        }
    }
    if starting_first(rest) {
        let k = choose|k: int|
            #![trigger rest[k]]
            0 <= k < rest.len() && rest[k].readiness is Starting && forall|j: int|
                0 <= j < k ==> !(#[trigger] rest[j].readiness is Ready);
        let i = if k < unknown {
            k
        } else {
            k + 1
        };
        assert(rest[k] == environments[i]);
        assert forall|j: int| 0 <= j < i implies !(#[trigger] environments[j].readiness is Ready) by {
            if j < unknown {
                assert(rest[j] == environments[j]);
            } else if j > unknown {
                assert(rest[j - 1] == environments[j]);
            }
        }
    }
}

/// Where an environment is ready, one is the first.
proof fn first_ready_exists(environments: Seq<TurnEnvironment>)
    requires
        primary_cwd(environments) is Some,
    ensures
        exists|k: int| is_first_ready(environments, k),
    decreases environments.len(),
{
    if environments[0].readiness is Ready {
        assert(is_first_ready(environments, 0));
    } else {
        let rest = environments.drop_first();
        first_ready_exists(rest);
        let k = choose|k: int| is_first_ready(rest, k);
        assert(environments[k + 1] == rest[k]);
        assert forall|j: int| 0 <= j < k + 1 implies !(#[trigger] environments[j].readiness is Ready) by {
            if j > 0 {
                assert(rest[j - 1] == environments[j]);
            }
        }
        assert(is_first_ready(environments, k + 1));
    }
}

} // verus!
