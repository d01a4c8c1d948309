//! What holds of the handling of a request as a whole, whatever the server's
//! other parts reply.

use vstd::prelude::*;

use crate::error_code::{INTERNAL_ERROR_CODE, INVALID_REQUEST_ERROR_CODE};
use crate::turn::{in_progress_turn, ClientResponsePayload, TurnStartResponse};
use crate::turn_input::{
    StartIfIdlePreconditionNotSubmittedReason, StartIfIdlePreconditionSubmission,
};
use crate::turn_processor::{
    expects, inner_step, rejection_error_view, submission_error_view, AnalyticsJsonRpcError,
    StartIfIdleAction, StartIfIdleEffect, StartIfIdleEvent, StartIfIdleState, StartIfIdleStep,
    TurnStartIfIdleParams,
};

verus! {

/// `steps` are the steps of a handling of `params` in which `events` are the
/// replies so far: the first step takes the request up, and each reply leads
/// from one step to the next.
pub open spec fn is_run(
    params: TurnStartIfIdleParams,
    events: Seq<StartIfIdleEvent>,
    steps: Seq<StartIfIdleStep>,
) -> bool {
    &&& steps.len() == events.len() + 1
    &&& steps[0].awaits(
        StartIfIdleState::ValidatingImageUrls { params },
        StartIfIdleAction::ValidateImageUrls,
    )
    &&& forall|i: int|
        #![trigger events[i]]
        0 <= i < events.len() ==> expects(steps[i].state, events[i]) && inner_step(
            steps[i].state,
            events[i],
            steps[i + 1],
        )
}

/// The id of the thread that was found.
pub open spec fn loaded_thread(events: Seq<StartIfIdleEvent>) -> String {
    events[1]->ThreadLoaded_0->Ok_0
}

/// The first five replies let the request pass.
pub open spec fn checks_passed(events: Seq<StartIfIdleEvent>) -> bool {
    &&& events.len() >= 5
    &&& events[0] matches StartIfIdleEvent::ImageUrlsValidated(Ok(_))
    &&& events[1] matches StartIfIdleEvent::ThreadLoaded(Ok(_))
    &&& events[2] matches StartIfIdleEvent::DirectInputChecked(Ok(_))
    &&& events[3] matches StartIfIdleEvent::InputLimitValidated(Ok(_))
    &&& events[4] is TraceCollected
}

/// Where a handling stands after `i` replies, if it is not over.
spec fn state_after(
    params: TurnStartIfIdleParams,
    events: Seq<StartIfIdleEvent>,
    i: int,
) -> StartIfIdleState {
    let thread_id = loaded_thread(events);
    if i == 0 {
        StartIfIdleState::ValidatingImageUrls { params }
    } else if i == 1 {
        StartIfIdleState::LoadingThread { params }
    } else if i == 2 {
        StartIfIdleState::CheckingDirectInput { params, thread_id }
    } else if i == 3 {
        StartIfIdleState::CheckingInputLimit { params, thread_id }
    } else if i == 4 {
        StartIfIdleState::CollectingTrace { params, thread_id }
    } else if i == 5 {
        StartIfIdleState::Submitting { thread_id, turn_has_input: params.input@.len() > 0 }
    } else {
        StartIfIdleState::Answered
    }
}

/// A handling goes through its states in one order until it is over.
proof fn run_states(
    params: TurnStartIfIdleParams,
    events: Seq<StartIfIdleEvent>,
    steps: Seq<StartIfIdleStep>,
    i: int,
)
    requires
        is_run(params, events, steps),
        0 <= i < steps.len(),
    ensures
        steps[i].state == state_after(params, events, i) || steps[i].state is Answered,
        i < events.len() ==> !(steps[i].state is Answered),
        i <= 6,
        forall|j: int| 0 <= j < i ==> (#[trigger] steps[j]).state == state_after(params, events, j),
        steps[i].state is Answered <==> steps[i].action is Respond,
    decreases i,
{
    if i > 0 {
        run_states(params, events, steps, i - 1);
        assert(expects(steps[i - 1].state, events[i - 1]));
        assert(inner_step(steps[i - 1].state, events[i - 1], steps[i]));
    }
    if i < events.len() {
        assert(expects(steps[i].state, events[i]));
    }
}

/// A request is answered once, at the end of its handling, and after no more
/// than six replies.
pub proof fn request_is_answered_once(
    params: TurnStartIfIdleParams,
    events: Seq<StartIfIdleEvent>,
    steps: Seq<StartIfIdleStep>,
)
    requires
        is_run(params, events, steps),
    ensures
        events.len() <= 6,
        forall|i: int| 0 <= i < steps.len() && (#[trigger] steps[i]).action is Respond ==> i
            == steps.len() - 1,
        events.len() == 6 ==> steps.last().action is Respond,
{
    run_states(params, events, steps, steps.len() - 1);
    assert forall|i: int| 0 <= i < steps.len() && (#[trigger] steps[i]).action is Respond implies i
        == steps.len() - 1 by {
        run_states(params, events, steps, i);
    }
}

/// The thread gets the request only when every check has passed, and then once,
/// with the client's input and under all three preconditions.
pub proof fn request_is_submitted_after_all_checks(
    params: TurnStartIfIdleParams,
    events: Seq<StartIfIdleEvent>,
    steps: Seq<StartIfIdleStep>,
    i: int,
)
    requires
        is_run(params, events, steps),
        0 <= i < steps.len(),
        steps[i].action is StartTurnIfIdle,
    ensures
        i == 5,
        checks_passed(events),
        steps[i].submits(params, loaded_thread(events), events[4]->TraceCollected_0),
{
    run_states(params, events, steps, i);
    passed_checks(params, events, steps, i);
}

/// A request that is answered after six replies was handed to the thread before
/// the last of them, which is the thread's.
pub proof fn thread_decides_last(
    params: TurnStartIfIdleParams,
    events: Seq<StartIfIdleEvent>,
    steps: Seq<StartIfIdleStep>,
)
    requires
        is_run(params, events, steps),
        events.len() == 6,
    ensures
        steps[5].action is StartTurnIfIdle,
        events[5] is TurnSubmitted,
{
    run_states(params, events, steps, 5);
    passed_checks(params, events, steps, 5);
    assert(expects(steps[5].state, events[5]));
}

/// A handling that goes on had its replies so far let it pass.
proof fn passed_checks(
    params: TurnStartIfIdleParams,
    events: Seq<StartIfIdleEvent>,
    steps: Seq<StartIfIdleStep>,
    i: int,
)
    requires
        is_run(params, events, steps),
        0 <= i < steps.len(),
        !(steps[i].state is Answered),
    ensures
        i <= 5,
        i >= 1 ==> events[0] matches StartIfIdleEvent::ImageUrlsValidated(Ok(_)),
        i >= 2 ==> events[1] matches StartIfIdleEvent::ThreadLoaded(Ok(_)),
        i >= 3 ==> events[2] matches StartIfIdleEvent::DirectInputChecked(Ok(_)),
        i >= 4 ==> events[3] matches StartIfIdleEvent::InputLimitValidated(Ok(_)),
        i >= 5 ==> events[4] is TraceCollected,
        i == 5 <==> steps[i].action is StartTurnIfIdle,
        i == 5 ==> steps[i].submits(params, loaded_thread(events), events[4]->TraceCollected_0),
    decreases i,
{
    run_states(params, events, steps, i);
    if i > 0 {
        run_states(params, events, steps, i - 1);
        assert(expects(steps[i - 1].state, events[i - 1]));
        assert(inner_step(steps[i - 1].state, events[i - 1], steps[i]));
        passed_checks(params, events, steps, i - 1);
    }
}

/// A request is answered with a turn exactly when all checks passed and the
/// thread started one: that turn, in progress. Its id is what the server
/// records for the request, and the memories of the loaded thread are written
/// exactly when there was input.
pub proof fn admitted_request_is_answered_with_its_turn(
    params: TurnStartIfIdleParams,
    events: Seq<StartIfIdleEvent>,
    steps: Seq<StartIfIdleStep>,
    turn_id: String,
)
    requires
        is_run(params, events, steps),
    ensures
        steps.last().action == StartIfIdleAction::Respond(
            Ok(
                Some(
                    ClientResponsePayload::TurnStartIfIdle(
                        TurnStartResponse { turn: in_progress_turn(turn_id) },
                    ),
                ),
            ),
        ) <==> events.len() == 6 && events[5] == StartIfIdleEvent::TurnSubmitted(
            Ok(StartIfIdlePreconditionSubmission::Started { turn_id }),
        ),
        events.len() == 6 && events[5] == StartIfIdleEvent::TurnSubmitted(
            Ok(StartIfIdlePreconditionSubmission::Started { turn_id }),
        ) ==> {
            &&& checks_passed(events)
            &&& steps.last().admits(loaded_thread(events), params.input@.len() > 0, turn_id)
        },
{
    let n = events.len() as int;
    run_states(params, events, steps, n);
    if n > 0 {
        run_states(params, events, steps, n - 1);
        assert(expects(steps[n - 1].state, events[n - 1]));
        assert(inner_step(steps[n - 1].state, events[n - 1], steps[n]));
        passed_checks(params, events, steps, n - 1);
    }
}

/// A start that the thread refused is answered with the error of its reason,
/// and a start on which the thread failed with the error that says how; both
/// are recorded once. The thread's memories are not written, and no turn is
/// recorded for the request.
pub proof fn refused_request_is_answered_with_its_reason(
    params: TurnStartIfIdleParams,
    events: Seq<StartIfIdleEvent>,
    steps: Seq<StartIfIdleStep>,
)
    requires
        is_run(params, events, steps),
        events.len() == 6,
    ensures
        events[5] matches StartIfIdleEvent::TurnSubmitted(
            Ok(StartIfIdlePreconditionSubmission::NotSubmitted { reason }),
        ) ==> steps.last().fails_tracked(rejection_error_view(reason), None),
        events[5] matches StartIfIdleEvent::TurnSubmitted(Err(error)) ==> steps.last().fails_tracked(
            submission_error_view(error),
            None,
        ),
{
    run_states(params, events, steps, 6);
    run_states(params, events, steps, 5);
    assert(inner_step(steps[5].state, events[5], steps[6]));
}

/// Nothing is told to the server's other parts before the request is answered.
pub proof fn effects_come_with_the_answer(
    params: TurnStartIfIdleParams,
    events: Seq<StartIfIdleEvent>,
    steps: Seq<StartIfIdleStep>,
    i: int,
)
    requires
        is_run(params, events, steps),
        0 <= i < steps.len(),
        steps[i].effects@.len() > 0,
    ensures
        steps[i].action is Respond,
        i == steps.len() - 1,
{
    run_states(params, events, steps, i);
    if i > 0 {
        run_states(params, events, steps, i - 1);
        assert(expects(steps[i - 1].state, events[i - 1]));
        assert(inner_step(steps[i - 1].state, events[i - 1], steps[i]));
    }
}

/// An error is recorded as it is answered, once and with nothing else; as an
/// input that is too large exactly when the size check refused it. The errors
/// of the image check and of the thread's own permission check are not
/// recorded here.
pub proof fn errors_are_recorded_as_answered(
    params: TurnStartIfIdleParams,
    events: Seq<StartIfIdleEvent>,
    steps: Seq<StartIfIdleStep>,
)
    requires
        is_run(params, events, steps),
        steps.last().action matches StartIfIdleAction::Respond(Err(_)),
    ensures
        events.len() > 0,
        ({
            let answer = steps.last().action->Respond_0->Err_0;
            let last = events.last();
            steps.last().effects@ == if last is ImageUrlsValidated || last is DirectInputChecked {
                Seq::<StartIfIdleEffect>::empty()
            } else if last is InputLimitValidated {
                seq![
                    StartIfIdleEffect::TrackErrorResponse {
                        error: answer,
                        error_type: Some(AnalyticsJsonRpcError::InputTooLarge),
                    },
                ]
            } else {
                seq![StartIfIdleEffect::TrackErrorResponse { error: answer, error_type: None }]
            }
        }),
{
    let n = events.len() as int;
    run_states(params, events, steps, n);
    if n > 0 {
        run_states(params, events, steps, n - 1);
        assert(expects(steps[n - 1].state, events[n - 1]));
        assert(inner_step(steps[n - 1].state, events[n - 1], steps[n]));
    }
}

/// What a check refused is answered with the check's own error.
pub proof fn failed_check_is_answered_with_its_error(
    params: TurnStartIfIdleParams,
    events: Seq<StartIfIdleEvent>,
    steps: Seq<StartIfIdleStep>,
)
    requires
        is_run(params, events, steps),
        events.len() > 0,
    ensures
        match events.last() {
            StartIfIdleEvent::ImageUrlsValidated(Err(error)) => steps.last().fails(error@),
            StartIfIdleEvent::ThreadLoaded(Err(error)) => steps.last().fails_tracked(error@, None),
            StartIfIdleEvent::DirectInputChecked(Err(error)) => steps.last().fails(error@),
            StartIfIdleEvent::InputLimitValidated(Err(error)) => steps.last().fails_tracked(
                error@,
                Some(AnalyticsJsonRpcError::InputTooLarge),
            ),
            _ => true,
        },
{
    let n = events.len() as int;
    run_states(params, events, steps, n);
    run_states(params, events, steps, n - 1);
    assert(expects(steps[n - 1].state, events[n - 1]));
    assert(inner_step(steps[n - 1].state, events[n - 1], steps[n]));
}

/// The answer tells the reasons apart: no two reasons are answered alike.
pub proof fn rejection_answers_tell_reasons_apart(
    first: StartIfIdlePreconditionNotSubmittedReason,
    second: StartIfIdlePreconditionNotSubmittedReason,
)
    requires
        rejection_error_view(first) == rejection_error_view(second),
    ensures
        match (first, second) {
            (
                StartIfIdlePreconditionNotSubmittedReason::Unrecognized { debug: one },
                StartIfIdlePreconditionNotSubmittedReason::Unrecognized { debug: other },
            ) => one@ == other@,
            _ => first == second,
        },
{
    reveal_strlit("busy");
    reveal_strlit("pending trigger turn");
    reveal_strlit("plan mode");
    reveal_strlit("expectedCwd mismatch");
    reveal_strlit("persistence disabled");
    reveal_strlit("environment not ready");
    reveal_strlit("idle-only admission unexpectedly rejected thread settings");
    reveal_strlit("idle-only admission rejected for an unrecognized reason: ");
    let one = rejection_error_view(first).message;
    let other = rejection_error_view(second).message;
    assert(one[0] == other[0] && one[2] == other[2] && one[20] == other[20]);
    let prefix = "idle-only admission rejected for an unrecognized reason: "@;
    if first is Unrecognized && second is Unrecognized {
        let a = first->debug@;
        let b = second->debug@;
        assert(a =~= (prefix + a).skip(prefix.len() as int));
        assert(b =~= (prefix + b).skip(prefix.len() as int));
    }
}

/// A refusal blames the request, except for the two reasons that the
/// preconditions of a request cannot lead to.
pub proof fn rejection_blames_the_request(reason: StartIfIdlePreconditionNotSubmittedReason)
    ensures
        rejection_error_view(reason).code == if reason is ThreadSettingsUnsupported
            || reason is Unrecognized {
            INTERNAL_ERROR_CODE
        } else {
            INVALID_REQUEST_ERROR_CODE
        },
        rejection_error_view(reason).data is None,
{
}

} // verus!
