//! What holds of every end of a turn, and of a client's turn from its request
//! to its end.

use vstd::prelude::*;

use crate::admission_laws::client_request_from_arrival_to_answer;
use crate::completion::{
    terminal_turn, CurrentTurn, ThreadCompletion, TurnCompleteEvent, TurnEnd,
};
use crate::environment::primary_cwd;
use crate::flush_store::ThreadStoreError;
use crate::outgoing::{
    turn_completed_to, OutgoingEnvelope, OutgoingMessage, ServerNotification,
    TurnCompletedNotification,
};
use crate::request_laws::is_run;
use crate::session::{Session, SessionEvent};
use crate::turn::TurnError;
use crate::turn_input::{
    StartIfIdlePreconditionNotSubmittedReason, StartIfIdlePreconditionSubmission,
};
use crate::turn_processor::{
    rejection_error_view, StartIfIdleAction, StartIfIdleEvent, StartIfIdleStep,
    TurnStartIfIdleParams,
};

verus! {

/// A turn that went wrong by itself ends with its own error, whatever became of
/// the flush: the one that was noted while it ran, or else the one that it
/// ended with.
pub proof fn own_error_outlives_the_flush(
    event: TurnCompleteEvent,
    last_error: Option<TurnError>,
    flush: Result<(), ThreadStoreError>,
)
    requires
        last_error is Some || event.error is Some,
    ensures
        terminal_turn(event, last_error, flush).status is Failed,
        terminal_turn(event, last_error, flush).error == if last_error is Some {
            last_error
        } else {
            event.error
        },
{
}

/// A flush that fails makes the turn a failed one, with the store's message if
/// the turn had no error of its own.
pub proof fn failed_flush_fails_the_turn(
    event: TurnCompleteEvent,
    last_error: Option<TurnError>,
    message: String,
)
    ensures
        ({
            let turn = terminal_turn(
                event,
                last_error,
                Err(ThreadStoreError::Internal { message }),
            );
            &&& turn.status is Failed
            &&& turn.error matches Some(error) && (last_error is None && event.error is None
                ==> error.message == message)
        }),
{
}

/// A turn is reported as completed exactly when nothing went wrong in it and in
/// the flush, and then without an error. Its id and its times are those of its
/// end.
pub proof fn completed_means_nothing_went_wrong(
    event: TurnCompleteEvent,
    last_error: Option<TurnError>,
    flush: Result<(), ThreadStoreError>,
)
    ensures
        ({
            let turn = terminal_turn(event, last_error, flush);
            &&& turn.id == event.turn_id
            &&& turn.started_at == event.started_at
            &&& turn.completed_at == event.completed_at
            &&& turn.duration_ms == event.duration_ms
            &&& turn.status is Completed <==> last_error is None && event.error is None
                && flush is Ok
            &&& turn.status is Completed <==> turn.error is None
            &&& !(turn.status is InProgress)
        }),
{
}

/// Each connection is told of the end of a turn once, nothing that was sent
/// before is touched, and nothing else is sent.
pub proof fn each_connection_is_told_once(
    before: ThreadCompletion,
    after: ThreadCompletion,
    event: TurnCompleteEvent,
    flush: Result<(), ThreadStoreError>,
)
    requires
        after.finishes(before, event, flush),
    ensures
        after.outgoing@.len() == before.outgoing@.len() + before.connections@.len(),
        after.outgoing@.take(before.outgoing@.len() as int) == before.outgoing@,
        forall|i: int|
            0 <= i < before.connections@.len() ==> {
                &&& #[trigger] after.outgoing@[before.outgoing@.len() + i] matches
                    OutgoingEnvelope::ToConnection {
                    connection_id,
                    message: OutgoingMessage::AppServerNotification(
                        ServerNotification::TurnCompleted(notification),
                    ),
                }
                &&& connection_id == before.connections@[i]
                &&& notification.thread_id == before.thread_id
                &&& notification.turn == terminal_turn(event, before.last_error, flush)
            },
{
    assert(after.outgoing@.take(before.outgoing@.len() as int) =~= before.outgoing@);
}

/// Two ends that wait for their flushes at the same time are both reported, in
/// the order in which the flushes finish, and an error that was noted goes to
/// the first of them alone.
pub proof fn each_end_is_reported(
    before: ThreadCompletion,
    between: ThreadCompletion,
    after: ThreadCompletion,
    first: TurnCompleteEvent,
    first_flush: Result<(), ThreadStoreError>,
    second: TurnCompleteEvent,
    second_flush: Result<(), ThreadStoreError>,
)
    requires
        between.finishes(before, first, first_flush),
        after.finishes(between, second, second_flush),
    ensures
        after.outgoing@ == before.outgoing@ + turn_completed_to(
            before.connections@,
            TurnCompletedNotification {
                thread_id: before.thread_id,
                turn: terminal_turn(first, before.last_error, first_flush),
            },
        ) + turn_completed_to(
            before.connections@,
            TurnCompletedNotification {
                thread_id: before.thread_id,
                turn: terminal_turn(second, None, second_flush),
            },
        ),
{
}

/// A thread whose turn is over is idle, and other threads are as they were.
pub proof fn finished_thread_is_idle(
    before: ThreadCompletion,
    after: ThreadCompletion,
    event: TurnCompleteEvent,
    flush: Result<(), ThreadStoreError>,
    other: Seq<char>,
)
    requires
        after.finishes(before, event, flush),
    ensures
        !after.watch@.contains(before.thread_id@),
        other != before.thread_id@ ==> after.watch@.contains(other) == before.watch@.contains(
            other,
        ),
        before.watch@.finite() && before.watch@.contains(before.thread_id@) ==> after.watch@.len()
            == before.watch@.len() - 1,
{
}

/// A turn whose end was reported is no longer the current one, and a turn that
/// has started since stays current.
pub proof fn finished_turn_is_not_current(
    before: ThreadCompletion,
    after: ThreadCompletion,
    event: TurnCompleteEvent,
    flush: Result<(), ThreadStoreError>,
    current: CurrentTurn,
)
    requires
        after.finishes(before, event, flush),
        before.current_turn == Some(current),
    ensures
        current.turn_id@ == event.turn_id@ ==> after.current_turn is None,
        current.turn_id@ != event.turn_id@ ==> after.current_turn == Some(current),
{
}

/// Each of the envelopes after the first `sent` tells of the end of `turn_id`.
pub open spec fn all_tell_of_the_end(
    outgoing: Seq<OutgoingEnvelope>,
    sent: nat,
    turn_id: String,
) -> bool {
    forall|i: int|
        sent <= i < outgoing.len() ==> {
            &&& #[trigger] outgoing[i].message() matches OutgoingMessage::AppServerNotification(
                ServerNotification::TurnCompleted(notification),
            )
            &&& notification.turn.id == turn_id
        }
}

/// One turn has one id: a client whose request is admitted is answered with the
/// id under which the thread announced the turn, and when the turn ends, which
/// leaves the thread idle, everyone who is told of it is told of that id. The
/// turn may have been joined by other submissions in the meantime.
pub proof fn one_id_from_the_answer_to_the_end(
    before: Session,
    started: Session,
    params: TurnStartIfIdleParams,
    events: Seq<StartIfIdleEvent>,
    steps: Seq<StartIfIdleStep>,
    turn_id: String,
    submission: StartIfIdlePreconditionSubmission,
    running: Session,
    end: TurnEnd,
    event: TurnCompleteEvent,
    ended: Session,
    thread: ThreadCompletion,
    reported: ThreadCompletion,
    flush: Result<(), ThreadStoreError>,
)
    requires
        is_run(params, events, steps),
        events.len() == 6,
        events[5] == StartIfIdleEvent::TurnSubmitted(Ok(submission)),
        before.conditional_rejection(
            steps[5].action->request,
            steps[5].action->preconditions@,
        ) is None,
        started.follows_conditional_start(
            before,
            steps[5].action->request,
            steps[5].action->preconditions@,
            turn_id,
            submission,
        ),
        running.running_task() == started.running_task(),
        running.running_task() matches Some(task) && event == end.of(task.turn_id),
        ended == (Session { active_turn: None, ..running }),
        reported.finishes(thread, event, flush),
    ensures
        steps.last().action matches StartIfIdleAction::Respond(Ok(Some(payload)))
            && payload->TurnStartIfIdle_0.turn.id == turn_id,
        started.events@ == before.events@.push(SessionEvent::TurnStarted { turn_id }),
        started.running_task() matches Some(task) && task.input@
            == seq![steps[5].action->request.input],
        ended.is_idle(),
        event.turn_id == turn_id,
        reported.outgoing@.len() == thread.outgoing@.len() + thread.connections@.len(),
        all_tell_of_the_end(reported.outgoing@, thread.outgoing@.len(), turn_id),
{
    client_request_from_arrival_to_answer(
        before,
        started,
        params,
        events,
        steps,
        turn_id,
        submission,
    );
    each_connection_is_told_once(thread, reported, event, flush);
    assert forall|i: int| thread.outgoing@.len() <= i < reported.outgoing@.len() implies {
        &&& #[trigger] reported.outgoing@[i].message() matches
            OutgoingMessage::AppServerNotification(ServerNotification::TurnCompleted(notification))
        &&& notification.turn.id == turn_id
    } by {
        let k = i - thread.outgoing@.len();
        assert(reported.outgoing@[thread.outgoing@.len() + k] == reported.outgoing@[i]);
    }
}

/// A request in the wrong directory is refused, and nothing of it is left. A
/// request that then names the right one is admitted: its turn runs with its
/// input alone, and it is answered, announced and reported at its end under one
/// id.
pub proof fn mismatch_leaves_nothing_to_the_next_request(
    before: Session,
    between: Session,
    started: Session,
    wrong: TurnStartIfIdleParams,
    wrong_events: Seq<StartIfIdleEvent>,
    wrong_steps: Seq<StartIfIdleStep>,
    wrong_turn_id: String,
    wrong_submission: StartIfIdlePreconditionSubmission,
    params: TurnStartIfIdleParams,
    events: Seq<StartIfIdleEvent>,
    steps: Seq<StartIfIdleStep>,
    turn_id: String,
    submission: StartIfIdlePreconditionSubmission,
    running: Session,
    end: TurnEnd,
    event: TurnCompleteEvent,
    ended: Session,
    thread: ThreadCompletion,
    reported: ThreadCompletion,
    flush: Result<(), ThreadStoreError>,
)
    requires
        is_run(wrong, wrong_events, wrong_steps),
        wrong_events.len() == 6,
        wrong_events[5] == StartIfIdleEvent::TurnSubmitted(Ok(wrong_submission)),
        before.conditional_rejection(
            wrong_steps[5].action->request,
            wrong_steps[5].action->preconditions@,
        ) == Some(StartIfIdlePreconditionNotSubmittedReason::ExpectedCwdMismatch),
        between.follows_conditional_start(
            before,
            wrong_steps[5].action->request,
            wrong_steps[5].action->preconditions@,
            wrong_turn_id,
            wrong_submission,
        ),
        is_run(params, events, steps),
        events.len() == 6,
        events[5] == StartIfIdleEvent::TurnSubmitted(Ok(submission)),
        primary_cwd(before.configuration.environments@) matches Some(cwd) && cwd@
            == params.expected_cwd@,
        started.follows_conditional_start(
            between,
            steps[5].action->request,
            steps[5].action->preconditions@,
            turn_id,
            submission,
        ),
        running.running_task() == started.running_task(),
        running.running_task() matches Some(task) && event == end.of(task.turn_id),
        ended == (Session { active_turn: None, ..running }),
        reported.finishes(thread, event, flush),
    ensures
        between == before,
        wrong_steps.last().fails_tracked(
            rejection_error_view(StartIfIdlePreconditionNotSubmittedReason::ExpectedCwdMismatch),
            None,
        ),
        started.running_task() matches Some(task) && task.input@
            == seq![steps[5].action->request.input],
        steps.last().action matches StartIfIdleAction::Respond(Ok(Some(payload)))
            && payload->TurnStartIfIdle_0.turn.id == turn_id,
        started.events@ == before.events@.push(SessionEvent::TurnStarted { turn_id }),
        ended.is_idle(),
        all_tell_of_the_end(reported.outgoing@, thread.outgoing@.len(), turn_id),
{
    client_request_from_arrival_to_answer(
        before,
        between,
        wrong,
        wrong_events,
        wrong_steps,
        wrong_turn_id,
        wrong_submission,
    );
    client_request_from_arrival_to_answer(
        between,
        started,
        params,
        events,
        steps,
        turn_id,
        submission,
    );
    one_id_from_the_answer_to_the_end(
        before,
        started,
        params,
        events,
        steps,
        turn_id,
        submission,
        running,
        end,
        event,
        ended,
        thread,
        reported,
        flush,
    );
}

} // verus!
