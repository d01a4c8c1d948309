use turn_admission::completion::{
    CompletionAction, CurrentTurn, FlushProgress, PendingEnd, ThreadCompletion, TurnCompleteEvent,
};
use turn_admission::flush_store::{ControlledFlushStore, FlushAction, Release, ThreadStoreError};
use turn_admission::outgoing::{
    ConnectionId, OutgoingEnvelope, OutgoingMessage, Received, RecvTerminalError,
    ServerNotification, TurnCompletedNotification, TurnStartedNotification, UnexpectedOutgoing,
};
use turn_admission::thread_watch::{ThreadStatus, ThreadWatchManager};
use turn_admission::turn::{CodexErrorInfo, Turn, TurnError, TurnStatus};

const TEST_TURN_COMPLETED_AT: i64 = 1_716_000_456;
const TEST_TURN_DURATION_MS: i64 = 1_234;
const FLUSH_FAILURE: &str = "injected rollout flush failure";

struct CompletionHarness {
    thread: ThreadCompletion,
    store: ControlledFlushStore,
}

impl CompletionHarness {
    fn new(ephemeral: bool) -> Self {
        let mut thread =
            ThreadCompletion::new("thread-1".to_string(), ephemeral, vec![ConnectionId(1)]);
        thread.turn_started("turn-persistence".to_string(), Some(42));
        assert_eq!(
            thread.current_turn,
            Some(CurrentTurn {
                turn_id: "turn-persistence".to_string(),
                started_at: Some(42),
            })
        );
        CompletionHarness {
            thread,
            store: ControlledFlushStore::new(),
        }
    }

    fn apply_turn_complete(&mut self) -> FlushProgress {
        self.thread
            .apply_turn_complete(turn_complete_event(), &mut self.store)
    }

    fn recv_terminal(&mut self) -> TurnCompletedNotification {
        let received = if self.thread.outgoing.is_empty() {
            Received::TimedOut
        } else {
            Received::Envelope(self.thread.outgoing.remove(0))
        };
        match received.recv_terminal() {
            Ok(notification) => notification,
            Err(error) => panic!("no terminal notification: {error:?}"),
        }
    }

    fn assert_watch_idle(&self) {
        assert_eq!(
            self.thread.watch.loaded_status_for_thread("thread-1"),
            ThreadStatus::Idle
        );
        assert_eq!(self.thread.watch.running_turn_count(), 0);
    }

    fn assert_no_more_notifications(&self) {
        assert!(
            self.thread.outgoing.is_empty(),
            "exactly one terminal notification should be emitted"
        );
    }
}

fn turn_complete_event() -> TurnCompleteEvent {
    TurnCompleteEvent {
        turn_id: "turn-persistence".to_string(),
        started_at: Some(42),
        last_agent_message: None,
        error: None,
        completed_at: Some(TEST_TURN_COMPLETED_AT),
        duration_ms: Some(TEST_TURN_DURATION_MS),
        time_to_first_token_ms: None,
    }
}

fn held(progress: FlushProgress) -> PendingEnd {
    match progress {
        FlushProgress::Held(pending) => pending,
        other => panic!("not held: {other:?}"),
    }
}

fn to_flush(action: CompletionAction) -> PendingEnd {
    match action {
        CompletionAction::FlushThread(pending) => pending,
        CompletionAction::Done => panic!("nothing to flush"),
    }
}

fn active() -> ThreadStatus {
    ThreadStatus::Active {
        active_flags: Vec::new(),
    }
}

#[test]
fn turn_complete_persistence_waits_for_rollout_flush_before_success_notification() {
    let mut harness = CompletionHarness::new(/*ephemeral*/ false);
    harness.store.hold_next_flush();

    // The rollout flush enters its durability barrier.
    let pending = held(harness.apply_turn_complete());
    assert_eq!(
        harness.thread.watch.loaded_status_for_thread("thread-1"),
        active()
    );
    assert_eq!(harness.thread.watch.running_turn_count(), 1);
    assert!(
        harness.thread.outgoing.is_empty(),
        "successful v2 completion must remain behind rollout flush"
    );

    assert_eq!(
        ControlledFlushStore::flush_released(Release::Released(Ok(()))),
        FlushAction::Delegate,
        "release held rollout flush"
    );
    harness.thread.flush_finished(pending, Ok(()));

    let completed = harness.recv_terminal();
    assert_eq!(completed.turn.status, TurnStatus::Completed);
    assert_eq!(completed.turn.id, "turn-persistence");
    assert_eq!(completed.turn.started_at, Some(42));
    assert_eq!(completed.turn.completed_at, Some(TEST_TURN_COMPLETED_AT));
    assert_eq!(completed.turn.duration_ms, Some(TEST_TURN_DURATION_MS));
    assert_eq!(harness.thread.current_turn, None);
    harness.assert_watch_idle();
    assert_eq!(harness.store.flush_calls(), 1);
    harness.assert_no_more_notifications();
}

#[test]
fn turn_complete_persistence_failure_emits_failed_notification() {
    let mut harness = CompletionHarness::new(/*ephemeral*/ false);
    harness.store.fail_next_flush(FLUSH_FAILURE.to_string());

    assert_eq!(harness.apply_turn_complete(), FlushProgress::Finished);

    let completed = harness.recv_terminal();
    assert_eq!(completed.turn.status, TurnStatus::Failed);
    let error = completed
        .turn
        .error
        .expect("flush failure should become the terminal error");
    assert!(
        error.message.contains(FLUSH_FAILURE),
        "terminal error should identify the failed persistence barrier: {error:?}"
    );
    harness.assert_watch_idle();
    assert_eq!(harness.store.flush_calls(), 1);
    harness.assert_no_more_notifications();
}

#[test]
fn turn_complete_persistence_failure_preserves_primary_turn_error() {
    let mut harness = CompletionHarness::new(/*ephemeral*/ false);
    let primary_error = TurnError {
        message: "primary model failure".to_string(),
        codex_error_info: Some(CodexErrorInfo::Other),
        additional_details: None,
    };
    harness.thread.handle_error(primary_error.clone());
    harness.store.fail_next_flush(FLUSH_FAILURE.to_string());

    assert_eq!(harness.apply_turn_complete(), FlushProgress::Finished);

    let completed = harness.recv_terminal();
    assert_eq!(completed.turn.status, TurnStatus::Failed);
    assert_eq!(completed.turn.error, Some(primary_error));
    harness.assert_watch_idle();
    assert_eq!(
        harness.store.flush_calls(),
        1,
        "secondary persistence failure must still be observed"
    );
    harness.assert_no_more_notifications();
}

#[test]
fn turn_complete_persistence_ephemeral_completion_remains_unfenced() {
    let mut harness = CompletionHarness::new(/*ephemeral*/ true);
    harness.store.fail_next_flush(FLUSH_FAILURE.to_string());

    assert_eq!(harness.apply_turn_complete(), FlushProgress::Finished);

    let completed = harness.recv_terminal();
    assert_eq!(completed.turn.status, TurnStatus::Completed);
    assert_eq!(completed.turn.error, None);
    harness.assert_watch_idle();
    assert_eq!(
        harness.store.flush_calls(),
        0,
        "ephemeral completion has no persistent rollout barrier"
    );
    harness.assert_no_more_notifications();
}

#[test]
fn own_error_fails_a_turn_that_was_flushed() {
    let mut harness = CompletionHarness::new(/*ephemeral*/ false);
    let error = TurnError {
        message: "stream disconnected".to_string(),
        codex_error_info: None,
        additional_details: Some("after 3 retries".to_string()),
    };
    harness.thread.handle_error(error.clone());
    let pending = to_flush(harness.thread.turn_complete(turn_complete_event()));
    harness.thread.flush_finished(pending, Ok(()));
    let failed = harness.recv_terminal();
    assert_eq!(failed.turn.status, TurnStatus::Failed);
    assert_eq!(failed.turn.error, Some(error));

    harness.thread.turn_started("turn-persistence".to_string(), None);
    match harness.apply_turn_complete() {
        FlushProgress::Delegated(pending) => harness.thread.flush_finished(pending, Ok(())),
        other => panic!("not delegated: {other:?}"),
    }
    let completed = harness.recv_terminal();
    assert_eq!(completed.turn.status, TurnStatus::Completed);
    assert_eq!(completed.turn.error, None);
}

#[test]
fn every_connection_is_told_of_the_end_once() {
    let mut thread = ThreadCompletion::new(
        "thread-7".to_string(),
        true,
        vec![ConnectionId(4), ConnectionId(2)],
    );
    thread.turn_started("turn-persistence".to_string(), Some(42));
    assert_eq!(
        thread.turn_complete(turn_complete_event()),
        CompletionAction::Done
    );
    let envelope = |connection_id| OutgoingEnvelope::ToConnection {
        connection_id,
        message: OutgoingMessage::AppServerNotification(ServerNotification::TurnCompleted(
            TurnCompletedNotification {
                thread_id: "thread-7".to_string(),
                turn: Turn {
                    id: "turn-persistence".to_string(),
                    status: TurnStatus::Completed,
                    error: None,
                    started_at: Some(42),
                    completed_at: Some(TEST_TURN_COMPLETED_AT),
                    duration_ms: Some(TEST_TURN_DURATION_MS),
                },
            },
        )),
    };
    assert_eq!(
        thread.outgoing,
        vec![envelope(ConnectionId(4)), envelope(ConnectionId(2))]
    );
}

#[test]
fn flush_setting_holds_for_one_flush() {
    let mut store = ControlledFlushStore::new();
    assert_eq!(store.flush_thread(), FlushAction::Delegate);
    store.hold_next_flush();
    assert_eq!(store.flush_thread(), FlushAction::AwaitRelease);
    assert_eq!(store.flush_thread(), FlushAction::Delegate);
    store.fail_next_flush(FLUSH_FAILURE.to_string());
    assert_eq!(
        store.flush_thread(),
        FlushAction::Fail(ThreadStoreError::Internal {
            message: FLUSH_FAILURE.to_string(),
        })
    );
    assert_eq!(store.flush_thread(), FlushAction::Delegate);
    assert_eq!(store.flush_calls(), 5);
}

#[test]
fn held_flush_goes_on_as_it_is_released() {
    let error = || ThreadStoreError::Internal {
        message: "disk full".to_string(),
    };
    assert_eq!(
        ControlledFlushStore::flush_released(Release::Released(Err(error()))),
        FlushAction::Fail(error())
    );
    assert_eq!(
        ControlledFlushStore::flush_released(Release::Dropped),
        FlushAction::Fail(ThreadStoreError::Internal {
            message: "rollout flush test release dropped".to_string(),
        })
    );
}

#[test]
fn threads_are_watched_one_by_one() {
    let mut watch = ThreadWatchManager::new();
    assert_eq!(watch.running_turn_count(), 0);
    watch.note_turn_started("a");
    watch.note_turn_started("b");
    watch.note_turn_started("a");
    assert_eq!(watch.running_turn_count(), 2);
    watch.note_turn_completed("c");
    assert_eq!(watch.running_turn_count(), 2);
    watch.note_turn_completed("a");
    assert_eq!(watch.running_turn_count(), 1);
    assert_eq!(watch.loaded_status_for_thread("a"), ThreadStatus::Idle);
    assert_eq!(watch.loaded_status_for_thread("b"), active());
}

#[test]
fn other_messages_are_handed_back() {
    let started = || {
        ServerNotification::TurnStarted(TurnStartedNotification {
            thread_id: "thread-1".to_string(),
            turn: Turn {
                id: "turn-1".to_string(),
                status: TurnStatus::InProgress,
                error: None,
                started_at: None,
                completed_at: None,
                duration_ms: None,
            },
        })
    };
    assert_eq!(
        OutgoingEnvelope::Broadcast {
            message: OutgoingMessage::AppServerNotification(started()),
        }
        .into_turn_completed(),
        Err(UnexpectedOutgoing::Notification(started()))
    );
    let error = turn_admission::error_code::internal_error("boom".to_string());
    assert_eq!(
        OutgoingEnvelope::ToConnection {
            connection_id: ConnectionId(1),
            message: OutgoingMessage::Error(error.clone()),
        }
        .into_turn_completed(),
        Err(UnexpectedOutgoing::Message(OutgoingMessage::Error(error)))
    );
}

#[test]
fn error_that_a_turn_ended_with_fails_it() {
    let mut harness = CompletionHarness::new(/*ephemeral*/ true);
    let error = TurnError {
        message: "context window exceeded".to_string(),
        codex_error_info: None,
        additional_details: None,
    };
    let event = TurnCompleteEvent {
        error: Some(error.clone()),
        ..turn_complete_event()
    };
    assert_eq!(harness.thread.turn_complete(event), CompletionAction::Done);
    let failed = harness.recv_terminal();
    assert_eq!(failed.turn.status, TurnStatus::Failed);
    assert_eq!(failed.turn.error, Some(error));
}

#[test]
fn two_ends_wait_for_their_flushes_side_by_side() {
    let mut harness = CompletionHarness::new(/*ephemeral*/ false);
    let first = to_flush(harness.thread.turn_complete(turn_complete_event()));
    harness.thread.turn_started("turn-2".to_string(), Some(50));
    let second = to_flush(harness.thread.turn_complete(TurnCompleteEvent {
        turn_id: "turn-2".to_string(),
        ..turn_complete_event()
    }));
    harness.assert_no_more_notifications();

    harness.thread.flush_finished(
        first,
        Err(ThreadStoreError::Internal {
            message: FLUSH_FAILURE.to_string(),
        }),
    );
    let failed = harness.recv_terminal();
    assert_eq!(failed.turn.id, "turn-persistence");
    assert_eq!(failed.turn.status, TurnStatus::Failed);
    assert_eq!(
        harness.thread.current_turn,
        Some(CurrentTurn {
            turn_id: "turn-2".to_string(),
            started_at: Some(50),
        })
    );

    harness.thread.flush_finished(second, Ok(()));
    let completed = harness.recv_terminal();
    assert_eq!(completed.turn.id, "turn-2");
    assert_eq!(completed.turn.status, TurnStatus::Completed);
    assert_eq!(harness.thread.current_turn, None);
    harness.assert_watch_idle();
    harness.assert_no_more_notifications();
}

#[test]
fn nothing_received_is_told_apart() {
    assert_eq!(
        Received::TimedOut.recv_terminal(),
        Err(RecvTerminalError::Nothing {
            message: "terminal notification timed out".to_string(),
        })
    );
    assert_eq!(
        Received::Closed.recv_terminal(),
        Err(RecvTerminalError::Nothing {
            message: "terminal notification channel closed".to_string(),
        })
    );
    let error = turn_admission::error_code::internal_error("boom".to_string());
    assert_eq!(
        Received::Envelope(OutgoingEnvelope::Broadcast {
            message: OutgoingMessage::Error(error.clone()),
        })
        .recv_terminal(),
        Err(RecvTerminalError::Unexpected(UnexpectedOutgoing::Message(
            OutgoingMessage::Error(error)
        )))
    );
}
