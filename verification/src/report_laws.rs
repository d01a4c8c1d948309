//! What each operation at the end of a turn does, in terms of what it is given and
//! what it leaves.

use vstd::prelude::*;

use crate::completion::{
    CompletionAction, FlushProgress, PendingEnd, ThreadCompletion, TurnCompleteEvent, TurnEnd,
};
use crate::flush_store::{ControlledFlushStore, FlushAction, Release, ThreadStoreError};
use crate::outgoing::{
    send_turn_completed, ConnectionId, OutgoingEnvelope, OutgoingMessage, Received,
    RecvTerminalError, ServerNotification, TurnCompletedNotification, UnexpectedOutgoing,
};
use crate::session::{Session, SessionEvent};
use crate::thread_watch::{ThreadStatus, ThreadWatchManager};
use crate::turn::{ClientResponsePayload, Turn, TurnError};
use crate::turn_input::{
    StartIfIdlePreconditionSubmission, StartIfIdlePreconditions, TurnInputRequest,
};
use crate::turn_processor::{
    StartIfIdleAction, StartIfIdleEvent, StartIfIdleState, StartIfIdleStep, TurnRequestProcessor,
};

verus! {

/// The end of a turn says which turn ended, and all of how it ended.
pub proof fn end_says_all_of_how_it_ended(
    end: TurnEnd,
    turn_id: String,
    event: TurnCompleteEvent,
)
    requires
        call_ensures(TurnEnd::into_event, (end, turn_id), event),
    ensures
        event.turn_id == turn_id,
        event.started_at == end.started_at,
        event.last_agent_message == end.last_agent_message,
        event.error == end.error,
        event.completed_at == end.completed_at,
        event.duration_ms == end.duration_ms,
        event.time_to_first_token_ms == end.time_to_first_token_ms,
{
}

/// A new thread has nothing running, nothing noted and nothing sent.
pub proof fn new_thread_has_nothing_running(
    thread_id: String,
    ephemeral: bool,
    connections: Vec<ConnectionId>,
    thread: ThreadCompletion,
    name: &str,
    status: ThreadStatus,
    count: usize,
)
    requires
        call_ensures(ThreadCompletion::new, (thread_id, ephemeral, connections), thread),
        call_ensures(
            ThreadWatchManager::loaded_status_for_thread,
            (&thread.watch, name),
            status,
        ),
        call_ensures(ThreadWatchManager::running_turn_count, (&thread.watch,), count),
    ensures
        thread.thread_id == thread_id,
        thread.ephemeral == ephemeral,
        thread.connections == connections,
        thread.current_turn is None,
        thread.last_error is None,
        thread.outgoing@.len() == 0,
        status is Idle,
        count == 0,
{
}

/// A turn that starts is the current one, makes its thread active, and leaves the
/// status of every other thread and all the rest.
pub proof fn started_turn_is_current(
    thread: &mut ThreadCompletion,
    turn_id: String,
    started_at: Option<i64>,
    name: &str,
    before: ThreadStatus,
    after: ThreadStatus,
)
    requires
        call_ensures(ThreadCompletion::turn_started, (thread, turn_id, started_at), ()),
        call_ensures(
            ThreadWatchManager::loaded_status_for_thread,
            (&old(thread).watch, name),
            before,
        ),
        call_ensures(
            ThreadWatchManager::loaded_status_for_thread,
            (&final(thread).watch, name),
            after,
        ),
    ensures
        final(thread).current_turn matches Some(current) && current.turn_id == turn_id
            && current.started_at == started_at,
        name@ == old(thread).thread_id@ ==> after is Active,
        name@ != old(thread).thread_id@ ==> after is Active == before is Active,
        final(thread).outgoing == old(thread).outgoing,
        final(thread).last_error == old(thread).last_error,
        final(thread).thread_id == old(thread).thread_id,
        final(thread).ephemeral == old(thread).ephemeral,
        final(thread).connections == old(thread).connections,
{
}

/// An error that is noted is the one that is kept, and nothing else changes.
pub proof fn noted_error_is_kept(
    thread: &mut ThreadCompletion,
    error: TurnError,
)
    requires
        call_ensures(ThreadCompletion::handle_error, (thread, error), ()),
    ensures
        final(thread).last_error == Some(error),
        *final(thread) == (ThreadCompletion {
            last_error: final(thread).last_error,
            ..*old(thread)
        }),
{
}

/// The end of a turn in a thread that is not stored is told to every connection at
/// once, after all that was sent before.
pub proof fn unstored_end_is_told_at_once(
    thread: &mut ThreadCompletion,
    event: TurnCompleteEvent,
    action: CompletionAction,
)
    requires
        call_ensures(ThreadCompletion::turn_complete, (thread, event), action),
        old(thread).ephemeral,
    ensures
        action is Done,
        final(thread).outgoing@.len() == old(thread).outgoing@.len()
            + old(thread).connections@.len(),
        forall|i: int|
            0 <= i < old(thread).outgoing@.len() ==> final(thread).outgoing@[i]
                == #[trigger] old(thread).outgoing@[i],
        forall|i: int|
            0 <= i < old(thread).connections@.len() ==> {
                &&& final(thread).outgoing@[old(thread).outgoing@.len() + i] matches
                    OutgoingEnvelope::ToConnection {
                    connection_id,
                    message: OutgoingMessage::AppServerNotification(
                        ServerNotification::TurnCompleted(notification),
                    ),
                }
                &&& connection_id == #[trigger] old(thread).connections@[i]
                &&& notification.thread_id == old(thread).thread_id
                &&& notification.turn.id == event.turn_id
                &&& notification.turn.started_at == event.started_at
                &&& notification.turn.completed_at == event.completed_at
                &&& notification.turn.duration_ms == event.duration_ms
                &&& notification.turn.status is Failed <==> notification.turn.error is Some
                &&& notification.turn.status is Completed <==> notification.turn.error is None
                &&& old(thread).last_error is Some ==> notification.turn.error
                    == old(thread).last_error
                &&& old(thread).last_error is None && event.error is Some
                    ==> notification.turn.error == event.error
                &&& old(thread).last_error is None && event.error is None
                    ==> notification.turn.error is None
            },
        final(thread).last_error is None,
        old(thread).current_turn matches Some(current) ==> {
            &&& current.turn_id@ == event.turn_id@ ==> final(thread).current_turn is None
            &&& current.turn_id@ != event.turn_id@ ==> final(thread).current_turn == Some(current)
        },
        old(thread).current_turn is None ==> final(thread).current_turn is None,
        final(thread).thread_id == old(thread).thread_id,
        final(thread).ephemeral == old(thread).ephemeral,
        final(thread).connections == old(thread).connections,
{
}

/// The end of a turn in a thread that is stored changes nothing before the flush.
pub proof fn stored_end_waits_for_its_flush(
    thread: &mut ThreadCompletion,
    event: TurnCompleteEvent,
    action: CompletionAction,
)
    requires
        call_ensures(ThreadCompletion::turn_complete, (thread, event), action),
        !old(thread).ephemeral,
    ensures
        action is FlushThread,
        *final(thread) == *old(thread),
{
}

/// The end that waited is the one that is told after the flush: to every connection,
/// once, after all that was sent before, with its own id and times, and with the error
/// that was noted, or else its own, or else that of the flush.
pub proof fn flushed_end_is_the_one_that_waited(
    earlier: &mut ThreadCompletion,
    event: TurnCompleteEvent,
    pending: PendingEnd,
    thread: &mut ThreadCompletion,
    flush: Result<(), ThreadStoreError>,
)
    requires
        call_ensures(
            ThreadCompletion::turn_complete,
            (earlier, event),
            CompletionAction::FlushThread(pending),
        ),
        call_ensures(ThreadCompletion::flush_finished, (thread, pending, flush), ()),
    ensures
        final(thread).outgoing@.len() == old(thread).outgoing@.len()
            + old(thread).connections@.len(),
        forall|i: int|
            0 <= i < old(thread).outgoing@.len() ==> final(thread).outgoing@[i]
                == #[trigger] old(thread).outgoing@[i],
        forall|i: int|
            0 <= i < old(thread).connections@.len() ==> {
                &&& final(thread).outgoing@[old(thread).outgoing@.len() + i] matches
                    OutgoingEnvelope::ToConnection {
                    connection_id,
                    message: OutgoingMessage::AppServerNotification(
                        ServerNotification::TurnCompleted(notification),
                    ),
                }
                &&& connection_id == #[trigger] old(thread).connections@[i]
                &&& notification.thread_id == old(thread).thread_id
                &&& notification.turn.id == event.turn_id
                &&& notification.turn.started_at == event.started_at
                &&& notification.turn.completed_at == event.completed_at
                &&& notification.turn.duration_ms == event.duration_ms
                &&& notification.turn.status is Failed <==> notification.turn.error is Some
                &&& notification.turn.status is Completed <==> notification.turn.error is None
                &&& old(thread).last_error is Some ==> notification.turn.error
                    == old(thread).last_error
                &&& old(thread).last_error is None && event.error is Some
                    ==> notification.turn.error == event.error
                &&& old(thread).last_error is None && event.error is None ==> match flush {
                    Ok(_) => notification.turn.error is None,
                    Err(ThreadStoreError::Internal { message }) => {
                        &&& notification.turn.error matches Some(error)
                        &&& error.message == message
                        &&& error.codex_error_info is None
                        &&& error.additional_details is None
                    },
                }
            },
        final(thread).last_error is None,
        old(thread).current_turn matches Some(current) ==> {
            &&& current.turn_id@ == event.turn_id@ ==> final(thread).current_turn is None
            &&& current.turn_id@ != event.turn_id@ ==> final(thread).current_turn == Some(current)
        },
        old(thread).current_turn is None ==> final(thread).current_turn is None,
        final(thread).thread_id == old(thread).thread_id,
        final(thread).ephemeral == old(thread).ephemeral,
        final(thread).connections == old(thread).connections,
{
}

/// After the flush the thread is idle, and every other is as it was.
pub proof fn flushed_thread_is_idle(
    earlier: &mut ThreadCompletion,
    event: TurnCompleteEvent,
    pending: PendingEnd,
    thread: &mut ThreadCompletion,
    flush: Result<(), ThreadStoreError>,
    name: &str,
    before: ThreadStatus,
    after: ThreadStatus,
)
    requires
        call_ensures(
            ThreadCompletion::turn_complete,
            (earlier, event),
            CompletionAction::FlushThread(pending),
        ),
        call_ensures(ThreadCompletion::flush_finished, (thread, pending, flush), ()),
        call_ensures(
            ThreadWatchManager::loaded_status_for_thread,
            (&old(thread).watch, name),
            before,
        ),
        call_ensures(
            ThreadWatchManager::loaded_status_for_thread,
            (&final(thread).watch, name),
            after,
        ),
    ensures
        name@ == old(thread).thread_id@ ==> after is Idle,
        name@ != old(thread).thread_id@ ==> after is Active == before is Active,
{
}

/// A thread that is not stored is idle as soon as its turn ends, and every other is
/// as it was.
pub proof fn unstored_thread_is_idle_at_once(
    thread: &mut ThreadCompletion,
    event: TurnCompleteEvent,
    action: CompletionAction,
    name: &str,
    before: ThreadStatus,
    after: ThreadStatus,
)
    requires
        call_ensures(ThreadCompletion::turn_complete, (thread, event), action),
        old(thread).ephemeral,
        call_ensures(
            ThreadWatchManager::loaded_status_for_thread,
            (&old(thread).watch, name),
            before,
        ),
        call_ensures(
            ThreadWatchManager::loaded_status_for_thread,
            (&final(thread).watch, name),
            after,
        ),
    ensures
        name@ == old(thread).thread_id@ ==> after is Idle,
        name@ != old(thread).thread_id@ ==> after is Active == before is Active,
{
}

/// A thread that is not stored asks for no flush, and its end is told at once.
pub proof fn unstored_end_asks_for_no_flush(
    thread: &mut ThreadCompletion,
    event: TurnCompleteEvent,
    store: &mut ControlledFlushStore,
    progress: FlushProgress,
)
    requires
        call_ensures(ThreadCompletion::apply_turn_complete, (thread, event, store), progress),
        old(thread).ephemeral,
    ensures
        progress is Finished,
        *final(store) == *old(store),
        final(thread).outgoing@.len() == old(thread).outgoing@.len()
            + old(thread).connections@.len(),
        forall|i: int|
            0 <= i < old(thread).outgoing@.len() ==> final(thread).outgoing@[i]
                == #[trigger] old(thread).outgoing@[i],
        forall|i: int|
            0 <= i < old(thread).connections@.len() ==> {
                &&& final(thread).outgoing@[old(thread).outgoing@.len() + i] matches
                    OutgoingEnvelope::ToConnection {
                    connection_id,
                    message: OutgoingMessage::AppServerNotification(
                        ServerNotification::TurnCompleted(notification),
                    ),
                }
                &&& connection_id == #[trigger] old(thread).connections@[i]
                &&& notification.thread_id == old(thread).thread_id
                &&& notification.turn.id == event.turn_id
                &&& notification.turn.started_at == event.started_at
                &&& notification.turn.completed_at == event.completed_at
                &&& notification.turn.duration_ms == event.duration_ms
                &&& notification.turn.status is Failed <==> notification.turn.error is Some
                &&& notification.turn.status is Completed <==> notification.turn.error is None
                &&& old(thread).last_error is Some ==> notification.turn.error
                    == old(thread).last_error
                &&& old(thread).last_error is None && event.error is Some
                    ==> notification.turn.error == event.error
                &&& old(thread).last_error is None && event.error is None
                    ==> notification.turn.error is None
            },
        final(thread).last_error is None,
        old(thread).current_turn matches Some(current) ==> {
            &&& current.turn_id@ == event.turn_id@ ==> final(thread).current_turn is None
            &&& current.turn_id@ != event.turn_id@ ==> final(thread).current_turn == Some(current)
        },
        old(thread).current_turn is None ==> final(thread).current_turn is None,
        final(thread).thread_id == old(thread).thread_id,
        final(thread).ephemeral == old(thread).ephemeral,
        final(thread).connections == old(thread).connections,
{
}

/// A flush that is set to fail is asked for once, and the end is told at once, with
/// its message unless the turn went wrong by itself.
pub proof fn failing_flush_fails_the_end(
    earlier: &mut ControlledFlushStore,
    message: String,
    thread: &mut ThreadCompletion,
    event: TurnCompleteEvent,
    store: &mut ControlledFlushStore,
    progress: FlushProgress,
    calls: usize,
    calls_after: usize,
)
    requires
        call_ensures(ControlledFlushStore::fail_next_flush, (earlier, message), ()),
        *old(store) == *final(earlier),
        call_ensures(ThreadCompletion::apply_turn_complete, (thread, event, store), progress),
        call_ensures(ControlledFlushStore::flush_calls, (old(store),), calls),
        call_ensures(ControlledFlushStore::flush_calls, (final(store),), calls_after),
        !old(thread).ephemeral,
    ensures
        progress is Finished,
        calls < usize::MAX ==> calls_after == calls + 1,
        final(thread).outgoing@.len() == old(thread).outgoing@.len()
            + old(thread).connections@.len(),
        forall|i: int|
            0 <= i < old(thread).outgoing@.len() ==> final(thread).outgoing@[i]
                == #[trigger] old(thread).outgoing@[i],
        forall|i: int|
            0 <= i < old(thread).connections@.len() ==> {
                &&& final(thread).outgoing@[old(thread).outgoing@.len() + i] matches
                    OutgoingEnvelope::ToConnection {
                    connection_id,
                    message: OutgoingMessage::AppServerNotification(
                        ServerNotification::TurnCompleted(notification),
                    ),
                }
                &&& connection_id == #[trigger] old(thread).connections@[i]
                &&& notification.thread_id == old(thread).thread_id
                &&& notification.turn.id == event.turn_id
                &&& notification.turn.started_at == event.started_at
                &&& notification.turn.completed_at == event.completed_at
                &&& notification.turn.duration_ms == event.duration_ms
                &&& notification.turn.status is Failed <==> notification.turn.error is Some
                &&& notification.turn.status is Completed <==> notification.turn.error is None
                &&& old(thread).last_error is Some ==> notification.turn.error
                    == old(thread).last_error
                &&& old(thread).last_error is None && event.error is Some
                    ==> notification.turn.error == event.error
                &&& old(thread).last_error is None && event.error is None ==> {
                    &&& notification.turn.error matches Some(error)
                    &&& error.message == message
                    &&& error.codex_error_info is None
                    &&& error.additional_details is None
                }
            },
        final(thread).last_error is None,
        old(thread).current_turn matches Some(current) ==> {
            &&& current.turn_id@ == event.turn_id@ ==> final(thread).current_turn is None
            &&& current.turn_id@ != event.turn_id@ ==> final(thread).current_turn == Some(current)
        },
        old(thread).current_turn is None ==> final(thread).current_turn is None,
        final(thread).thread_id == old(thread).thread_id,
        final(thread).ephemeral == old(thread).ephemeral,
        final(thread).connections == old(thread).connections,
{
}

/// A flush that is held is asked for once and changes nothing; the end that waits for
/// it is the one that was handed in.
pub proof fn held_flush_holds_the_end(
    earlier: &mut ControlledFlushStore,
    thread: &mut ThreadCompletion,
    event: TurnCompleteEvent,
    store: &mut ControlledFlushStore,
    progress: FlushProgress,
    calls: usize,
    calls_after: usize,
)
    requires
        call_ensures(ControlledFlushStore::hold_next_flush, (earlier,), ()),
        *old(store) == *final(earlier),
        call_ensures(ThreadCompletion::apply_turn_complete, (thread, event, store), progress),
        call_ensures(ControlledFlushStore::flush_calls, (old(store),), calls),
        call_ensures(ControlledFlushStore::flush_calls, (final(store),), calls_after),
        !old(thread).ephemeral,
    ensures
        progress matches FlushProgress::Held(pending) && pending.event() == event,
        calls < usize::MAX ==> calls_after == calls + 1,
        *final(thread) == *old(thread),
{
}

/// A flush for which nothing was set, the first one or one after another, goes to the
/// store underneath and changes nothing yet; the end that waits for it is the one that
/// was handed in.
pub proof fn other_flush_is_delegated(
    fresh: ControlledFlushStore,
    flushed: &mut ControlledFlushStore,
    earlier: FlushAction,
    thread: &mut ThreadCompletion,
    event: TurnCompleteEvent,
    store: &mut ControlledFlushStore,
    progress: FlushProgress,
    calls: usize,
    calls_after: usize,
)
    requires
        call_ensures(ControlledFlushStore::new, (), fresh),
        call_ensures(ControlledFlushStore::flush_thread, (flushed,), earlier),
        *old(store) == fresh || *old(store) == *final(flushed),
        call_ensures(ThreadCompletion::apply_turn_complete, (thread, event, store), progress),
        call_ensures(ControlledFlushStore::flush_calls, (old(store),), calls),
        call_ensures(ControlledFlushStore::flush_calls, (final(store),), calls_after),
        !old(thread).ephemeral,
    ensures
        progress matches FlushProgress::Delegated(pending) && pending.event() == event,
        calls < usize::MAX ==> calls_after == calls + 1,
        *final(thread) == *old(thread),
{
}

/// A flush for which nothing was set is delegated, the first one and every one after
/// another.
pub proof fn flush_is_delegated_by_default(
    fresh: ControlledFlushStore,
    flushed: &mut ControlledFlushStore,
    earlier: FlushAction,
    store: &mut ControlledFlushStore,
    action: FlushAction,
)
    requires
        call_ensures(ControlledFlushStore::new, (), fresh),
        call_ensures(ControlledFlushStore::flush_thread, (flushed,), earlier),
        *old(store) == fresh || *old(store) == *final(flushed),
        call_ensures(ControlledFlushStore::flush_thread, (store,), action),
    ensures
        action is Delegate,
{
}

/// An end that waited behind a controlled store is told after its flush under its own
/// id.
pub proof fn end_behind_a_store_keeps_its_id(
    thread: &mut ThreadCompletion,
    event: TurnCompleteEvent,
    store: &mut ControlledFlushStore,
    progress: FlushProgress,
    pending: PendingEnd,
    later: &mut ThreadCompletion,
    flush: Result<(), ThreadStoreError>,
    i: int,
)
    requires
        call_ensures(ThreadCompletion::apply_turn_complete, (thread, event, store), progress),
        progress == FlushProgress::Held(pending) || progress == FlushProgress::Delegated(pending),
        !old(thread).ephemeral,
        call_ensures(ThreadCompletion::flush_finished, (later, pending, flush), ()),
        0 <= i < old(later).connections@.len(),
    ensures
        final(later).outgoing@[old(later).outgoing@.len() + i] matches
            OutgoingEnvelope::ToConnection {
            connection_id,
            message: OutgoingMessage::AppServerNotification(
                ServerNotification::TurnCompleted(notification),
            ),
        } && connection_id == old(later).connections@[i] && notification.turn.id == event.turn_id,
{
}

/// What is set for a flush holds for the next one alone, and the last word counts: a
/// held flush waits, a failing one fails with its message, and the one after either is
/// delegated.
pub proof fn setting_holds_for_one_flush(
    held: &mut ControlledFlushStore,
    flushed: &mut ControlledFlushStore,
    action: FlushAction,
    failing: &mut ControlledFlushStore,
    message: String,
    failed: &mut ControlledFlushStore,
    failure: FlushAction,
    next: &mut ControlledFlushStore,
    afterwards: FlushAction,
)
    requires
        call_ensures(ControlledFlushStore::hold_next_flush, (held,), ()),
        *old(flushed) == *final(held),
        call_ensures(ControlledFlushStore::flush_thread, (flushed,), action),
        call_ensures(ControlledFlushStore::fail_next_flush, (failing, message), ()),
        *old(failed) == *final(failing),
        call_ensures(ControlledFlushStore::flush_thread, (failed,), failure),
        *old(next) == *final(flushed) || *old(next) == *final(failed),
        call_ensures(ControlledFlushStore::flush_thread, (next,), afterwards),
    ensures
        action is AwaitRelease,
        failure == FlushAction::Fail(ThreadStoreError::Internal { message }),
        afterwards is Delegate,
{
}

/// Each flush that is asked for is counted once, and to set something for the next one
/// is not to ask for it.
pub proof fn flushes_are_counted_when_asked_for(
    store: &mut ControlledFlushStore,
    action: FlushAction,
    held: &mut ControlledFlushStore,
    failing: &mut ControlledFlushStore,
    message: String,
    fresh: ControlledFlushStore,
    none: usize,
    calls: usize,
    after_flush: usize,
    after_hold: usize,
    after_fail: usize,
)
    requires
        call_ensures(ControlledFlushStore::new, (), fresh),
        call_ensures(ControlledFlushStore::flush_calls, (&fresh,), none),
        call_ensures(ControlledFlushStore::flush_thread, (store,), action),
        call_ensures(ControlledFlushStore::hold_next_flush, (held,), ()),
        call_ensures(ControlledFlushStore::fail_next_flush, (failing, message), ()),
        *old(held) == *old(store),
        *old(failing) == *old(store),
        call_ensures(ControlledFlushStore::flush_calls, (old(store),), calls),
        call_ensures(ControlledFlushStore::flush_calls, (final(store),), after_flush),
        call_ensures(ControlledFlushStore::flush_calls, (final(held),), after_hold),
        call_ensures(ControlledFlushStore::flush_calls, (final(failing),), after_fail),
    ensures
        none == 0,
        calls < usize::MAX ==> after_flush == calls + 1,
        calls == usize::MAX ==> after_flush == 0,
        after_hold == calls,
        after_fail == calls,
{
}

/// A held flush goes on as it is released: to the store underneath, or to the error
/// that it was released with, or to one that says that nobody can release it.
pub proof fn release_decides_the_held_flush(
    release: Release,
    action: FlushAction,
)
    requires
        call_ensures(ControlledFlushStore::flush_released, (release,), action),
    ensures
        release matches Release::Released(Ok(_)) ==> action is Delegate,
        release matches Release::Released(Err(error)) ==> action == FlushAction::Fail(error),
        release is Dropped ==> (action matches FlushAction::Fail(
            ThreadStoreError::Internal { message },
        ) && message@ == "rollout flush test release dropped"@),
{
}

/// A thread whose turn starts is active, without flags, and is counted once however
/// often it starts; every other is as it was.
pub proof fn starting_thread_is_counted_once(
    watch: &mut ThreadWatchManager,
    thread_id: &str,
    name: &str,
    before: ThreadStatus,
    after: ThreadStatus,
    own: ThreadStatus,
    count: usize,
    count_after: usize,
)
    requires
        call_ensures(ThreadWatchManager::note_turn_started, (watch, thread_id), ()),
        call_ensures(ThreadWatchManager::loaded_status_for_thread, (old(watch), name), before),
        call_ensures(ThreadWatchManager::loaded_status_for_thread, (final(watch), name), after),
        call_ensures(ThreadWatchManager::loaded_status_for_thread, (old(watch), thread_id), own),
        call_ensures(ThreadWatchManager::running_turn_count, (old(watch),), count),
        call_ensures(ThreadWatchManager::running_turn_count, (final(watch),), count_after),
    ensures
        name@ == thread_id@ ==> (after matches ThreadStatus::Active { active_flags }
            && active_flags@.len() == 0),
        name@ != thread_id@ ==> after is Active == before is Active,
        own is Idle ==> count_after == count + 1,
        own is Active ==> count_after == count,
{
}

/// A thread whose turn ends is idle, and counts no more however often it ends; every
/// other is as it was.
pub proof fn ending_thread_counts_no_more(
    watch: &mut ThreadWatchManager,
    thread_id: &str,
    name: &str,
    before: ThreadStatus,
    after: ThreadStatus,
    own: ThreadStatus,
    count: usize,
    count_after: usize,
)
    requires
        call_ensures(ThreadWatchManager::note_turn_completed, (watch, thread_id), ()),
        call_ensures(ThreadWatchManager::loaded_status_for_thread, (old(watch), name), before),
        call_ensures(ThreadWatchManager::loaded_status_for_thread, (final(watch), name), after),
        call_ensures(ThreadWatchManager::loaded_status_for_thread, (old(watch), thread_id), own),
        call_ensures(ThreadWatchManager::running_turn_count, (old(watch),), count),
        call_ensures(ThreadWatchManager::running_turn_count, (final(watch),), count_after),
    ensures
        name@ == thread_id@ ==> after is Idle,
        name@ != thread_id@ ==> after is Active == before is Active,
        own is Active ==> count_after == count - 1,
        own is Idle ==> count_after == count,
{
}

/// At first no thread is active.
pub proof fn no_thread_is_active_at_first(
    watch: ThreadWatchManager,
    name: &str,
    status: ThreadStatus,
    count: usize,
)
    requires
        call_ensures(ThreadWatchManager::new, (), watch),
        call_ensures(ThreadWatchManager::loaded_status_for_thread, (&watch, name), status),
        call_ensures(ThreadWatchManager::running_turn_count, (&watch,), count),
    ensures
        status is Idle,
        count == 0,
{
}

/// The end of a turn is read out of an envelope, whomever that is for; anything else is
/// handed back.
pub proof fn end_is_read_whomever_it_is_for(
    envelope: OutgoingEnvelope,
    connection_id: ConnectionId,
    message: OutgoingMessage,
    result: Result<TurnCompletedNotification, UnexpectedOutgoing>,
)
    requires
        call_ensures(OutgoingEnvelope::into_turn_completed, (envelope,), result),
        envelope == (OutgoingEnvelope::ToConnection { connection_id, message }) || envelope == (
        OutgoingEnvelope::Broadcast { message }),
    ensures
        message matches OutgoingMessage::AppServerNotification(
            ServerNotification::TurnCompleted(notification),
        ) ==> result == Ok::<_, UnexpectedOutgoing>(notification),
        message matches OutgoingMessage::AppServerNotification(
            ServerNotification::TurnStarted(notification),
        ) ==> result == Err::<TurnCompletedNotification, _>(
            UnexpectedOutgoing::Notification(ServerNotification::TurnStarted(notification)),
        ),
        message is Error ==> result == Err::<TurnCompletedNotification, _>(
            UnexpectedOutgoing::Message(message),
        ),
{
}

/// What came is read as its envelope is; nothing that came is told by why it did not.
pub proof fn received_end_is_read_as_its_envelope(
    received: Received,
    result: Result<TurnCompletedNotification, RecvTerminalError>,
    envelope: OutgoingEnvelope,
    read: Result<TurnCompletedNotification, UnexpectedOutgoing>,
)
    requires
        call_ensures(Received::recv_terminal, (received,), result),
        call_ensures(OutgoingEnvelope::into_turn_completed, (envelope,), read),
    ensures
        received == Received::Envelope(envelope) ==> match read {
            Ok(notification) => result == Ok::<_, RecvTerminalError>(notification),
            Err(unexpected) => result == Err::<TurnCompletedNotification, _>(
                RecvTerminalError::Unexpected(unexpected),
            ),
        },
        received is TimedOut ==> (result matches Err(RecvTerminalError::Nothing { message })
            && message@ == "terminal notification timed out"@),
        received is Closed ==> (result matches Err(RecvTerminalError::Nothing { message })
            && message@ == "terminal notification channel closed"@),
{
}

/// Each connection is sent the notification once, in order, after all that was sent
/// before.
pub proof fn each_connection_is_sent_the_notification(
    outgoing: &mut Vec<OutgoingEnvelope>,
    connections: Vec<ConnectionId>,
    notification: TurnCompletedNotification,
)
    requires
        call_ensures(send_turn_completed, (outgoing, &connections, &notification), ()),
    ensures
        final(outgoing)@.len() == old(outgoing)@.len() + connections@.len(),
        forall|i: int|
            0 <= i < old(outgoing)@.len() ==> final(outgoing)@[i] == #[trigger] old(outgoing)@[i],
        forall|i: int|
            0 <= i < connections@.len() ==> final(outgoing)@[old(outgoing)@.len() + i] == (
            OutgoingEnvelope::ToConnection {
                connection_id: #[trigger] connections@[i],
                message: OutgoingMessage::AppServerNotification(
                    ServerNotification::TurnCompleted(notification),
                ),
            }),
{
}

/// A copy says the same.
pub proof fn copies_say_the_same(
    error: TurnError,
    error_copy: TurnError,
    turn: Turn,
    turn_copy: Turn,
    notification: TurnCompletedNotification,
    notification_copy: TurnCompletedNotification,
)
    requires
        call_ensures(<TurnError as Clone>::clone, (&error,), error_copy),
        call_ensures(<Turn as Clone>::clone, (&turn,), turn_copy),
        call_ensures(
            <TurnCompletedNotification as Clone>::clone,
            (&notification,),
            notification_copy,
        ),
    ensures
        error_copy == error,
        turn_copy == turn,
        notification_copy == notification,
{
}

/// A client's turn has one id, from the answer to the end: the thread announces the
/// turn that the client is answered with, the session ends that turn, and every
/// connection is told of the end of that turn.
pub proof fn turn_keeps_its_id_to_the_end(
    session: &mut Session,
    request: TurnInputRequest,
    preconditions: StartIfIdlePreconditions,
    turn_id: String,
    submission: StartIfIdlePreconditionSubmission,
    thread_id: String,
    turn_has_input: bool,
    answered: StartIfIdleStep,
    running: &mut Session,
    end: TurnEnd,
    event: TurnCompleteEvent,
    taken: &mut ThreadCompletion,
    pending: PendingEnd,
    reported: &mut ThreadCompletion,
    flush: Result<(), ThreadStoreError>,
    i: int,
)
    requires
        call_ensures(
            Session::start_if_idle_with_preconditions,
            (session, request, preconditions, turn_id),
            submission,
        ),
        submission is Started,
        call_ensures(
            TurnRequestProcessor::turn_start_if_idle_inner,
            (
                StartIfIdleState::Submitting { thread_id, turn_has_input },
                StartIfIdleEvent::TurnSubmitted(Ok(submission)),
            ),
            answered,
        ),
        old(running).active_turn matches Some(now) && final(session).active_turn matches Some(
            started,
        ) && now.task == started.task,
        call_ensures(Session::complete_turn, (running, end), Some(event)),
        call_ensures(
            ThreadCompletion::turn_complete,
            (taken, event),
            CompletionAction::FlushThread(pending),
        ),
        call_ensures(ThreadCompletion::flush_finished, (reported, pending, flush), ()),
        0 <= i < old(reported).connections@.len(),
    ensures
        answered.action matches StartIfIdleAction::Respond(
            Ok(Some(ClientResponsePayload::TurnStartIfIdle(response))),
        ) && response.turn.id == turn_id,
        final(session).events@.last() == (SessionEvent::TurnStarted { turn_id }),
        final(running).active_turn is None,
        final(reported).outgoing@[old(reported).outgoing@.len() + i] matches
            OutgoingEnvelope::ToConnection {
            connection_id,
            message: OutgoingMessage::AppServerNotification(
                ServerNotification::TurnCompleted(notification),
            ),
        } && connection_id == old(reported).connections@[i] && notification.turn.id == turn_id,
{
}

} // verus!
