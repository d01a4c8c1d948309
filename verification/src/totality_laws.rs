//! What the operations can be called with: everything that their types admit, and
//! in the handling of a request every reply that was asked for.

use vstd::prelude::*;

use crate::absolute_path::AbsolutePathBuf;
use crate::completion::{PendingEnd, ThreadCompletion, TurnCompleteEvent, TurnEnd};
use crate::environment::{first_ready_cwd, has_starting_first, TurnEnvironment};
use crate::flush_store::{ControlledFlushStore, Release, ThreadStoreError};
use crate::outgoing::{
    send_turn_completed, ConnectionId, OutgoingEnvelope, Received, TurnCompletedNotification,
};
use crate::session::{InterAgentCommunication, Session, SessionConfiguration, TaskKind};
use crate::thread_watch::ThreadWatchManager;
use crate::turn::TurnError;
use crate::turn_input::{
    into_core_items, StartIfIdlePreconditionNotSubmittedReason, StartIfIdlePreconditions,
    ThreadSettingsOverrides, TurnInput, TurnInputMode, TurnInputRequest, V2UserInput,
};
use crate::turn_processor::{
    is_expected, CodexError, StartIfIdleEvent, StartIfIdleState, TurnRequestProcessor,
    TurnStartIfIdleParams,
};

verus! {

/// A session takes every submission up, whatever state it is in.
pub proof fn every_submission_is_taken_up(
    handle: (&mut Session, TurnInputRequest, TurnInputMode, String),
    recovery: (&mut Session, ThreadSettingsOverrides, String),
    first_look: (&Session, &TurnInputRequest, &StartIfIdlePreconditions),
    reserve: (&mut Session,),
    finish: (&mut Session, TurnInputRequest, StartIfIdlePreconditions, String),
    late: (&mut Session, TurnInputRequest, StartIfIdlePreconditions, String, String),
    conditional: (&mut Session, TurnInputRequest, StartIfIdlePreconditions, String),
)
    ensures
        call_requires(Session::handle, handle),
        call_requires(Session::handle_recovery, recovery),
        call_requires(Session::check_before_reservation, first_look),
        call_requires(Session::reserve_idle_turn, reserve),
        call_requires(Session::finish_reserved_start, finish),
        call_requires(Session::reserve_and_start, late),
        call_requires(Session::start_if_idle_with_preconditions, conditional),
{
}

/// Messages and turns are dealt with in every state of a session.
pub proof fn every_state_deals_with_messages_and_turns(
    pending_work: (&mut Session, String),
    find: (&Session,),
    pending: (&Session,),
    enqueue: (&mut Session, InterAgentCommunication, Option<String>, Option<String>),
    take: (&mut Session,),
    spawn: (&mut Session, String, Option<String>, Vec<TurnInput>, TaskKind),
    complete: (&mut Session, TurnEnd),
    abort: (&mut Session,),
    apply: (&mut SessionConfiguration, ThreadSettingsOverrides),
)
    ensures
        call_requires(Session::maybe_start_turn_for_pending_work, pending_work),
        call_requires(Session::has_trigger_turn_mailbox_items, find),
        call_requires(Session::has_pending_input, pending),
        call_requires(Session::enqueue_mailbox_communication, enqueue),
        call_requires(Session::take_mailbox_items, take),
        call_requires(Session::spawn_task, spawn),
        call_requires(Session::complete_turn, complete),
        call_requires(Session::abort_all_tasks, abort),
        call_requires(SessionConfiguration::apply, apply),
{
}

/// Every end of a turn is taken up, and every flush that was waited for.
pub proof fn every_end_is_taken_up(
    started: (&mut ThreadCompletion, String, Option<i64>),
    error: (&mut ThreadCompletion, TurnError),
    end: (&mut ThreadCompletion, TurnCompleteEvent),
    flushed: (&mut ThreadCompletion, PendingEnd, Result<(), ThreadStoreError>),
    controlled: (&mut ThreadCompletion, TurnCompleteEvent, &mut ControlledFlushStore),
    hold: (&mut ControlledFlushStore,),
    fail: (&mut ControlledFlushStore, String),
    flush: (&mut ControlledFlushStore,),
    release: (Release,),
    note_started: (&mut ThreadWatchManager, &str),
    note_completed: (&mut ThreadWatchManager, &str),
    status: (&ThreadWatchManager, &str),
    count: (&ThreadWatchManager,),
    received: (Received,),
    read: (OutgoingEnvelope,),
    send: (&mut Vec<OutgoingEnvelope>, &Vec<ConnectionId>, &TurnCompletedNotification),
)
    ensures
        call_requires(ThreadCompletion::turn_started, started),
        call_requires(ThreadCompletion::handle_error, error),
        call_requires(ThreadCompletion::turn_complete, end),
        call_requires(ThreadCompletion::flush_finished, flushed),
        call_requires(ThreadCompletion::apply_turn_complete, controlled),
        call_requires(ControlledFlushStore::hold_next_flush, hold),
        call_requires(ControlledFlushStore::fail_next_flush, fail),
        call_requires(ControlledFlushStore::flush_thread, flush),
        call_requires(ControlledFlushStore::flush_released, release),
        call_requires(ThreadWatchManager::note_turn_started, note_started),
        call_requires(ThreadWatchManager::note_turn_completed, note_completed),
        call_requires(ThreadWatchManager::loaded_status_for_thread, status),
        call_requires(ThreadWatchManager::running_turn_count, count),
        call_requires(Received::recv_terminal, received),
        call_requires(OutgoingEnvelope::into_turn_completed, read),
        call_requires(send_turn_completed, send),
{
}

/// Every request is taken up, every reply is looked at, and every decision of a thread
/// has an answer.
pub proof fn every_request_is_taken_up(
    request: (TurnStartIfIdleParams,),
    reply: (&StartIfIdleState, &StartIfIdleEvent),
    rejection: (StartIfIdlePreconditionNotSubmittedReason,),
    failure: (CodexError,),
    turn: (String,),
    input: (Vec<V2UserInput>,),
    path: (&str,),
    environments: (&Vec<TurnEnvironment>,),
    starting: (&Vec<TurnEnvironment>,),
)
    ensures
        call_requires(TurnRequestProcessor::turn_start_if_idle, request),
        call_requires(is_expected, reply),
        call_requires(TurnRequestProcessor::start_if_idle_rejection_error, rejection),
        call_requires(TurnRequestProcessor::submission_error, failure),
        call_requires(TurnRequestProcessor::in_progress_turn_response, turn),
        call_requires(into_core_items, input),
        call_requires(AbsolutePathBuf::from_absolute_path, path),
        call_requires(first_ready_cwd, environments),
        call_requires(has_starting_first, starting),
{
}

/// A handling goes on with every reply that it asked for, whatever the reply says.
pub proof fn every_awaited_reply_is_taken(state: StartIfIdleState, event: StartIfIdleEvent)
    requires
        (state is ValidatingImageUrls && event is ImageUrlsValidated) || (state is LoadingThread
            && event is ThreadLoaded) || (state is CheckingDirectInput
            && event is DirectInputChecked) || (state is CheckingInputLimit
            && event is InputLimitValidated) || (state is CollectingTrace
            && event is TraceCollected) || (state is Submitting && event is TurnSubmitted),
    ensures
        call_requires(TurnRequestProcessor::turn_start_if_idle_inner, (state, event)),
{
}

} // verus!
