//! The end of a turn. A thread that is stored is flushed before anyone learns
//! that its turn is over, and a flush that fails makes the turn a failed one.

use vstd::prelude::*;

use crate::flush_store::{ControlledFlushStore, FlushAction, NextFlush, ThreadStoreError};
use crate::outgoing::{
    send_turn_completed, turn_completed_to, ConnectionId, OutgoingEnvelope,
    TurnCompletedNotification,
};
use crate::thread_watch::ThreadWatchManager;
use crate::turn::{Turn, TurnError, TurnStatus};

verus! {

/// How a turn ended: the times are in seconds, the spans in milliseconds.
#[derive(Debug, PartialEq, Eq)]
pub struct TurnEnd {
    pub started_at: Option<i64>,
    pub last_agent_message: Option<String>,
    /// What the turn ended with, if it went wrong.
    pub error: Option<TurnError>,
    pub completed_at: Option<i64>,
    pub duration_ms: Option<i64>,
    pub time_to_first_token_ms: Option<i64>,
}

/// The turn `turn_id` has run to its end.
#[derive(Debug, PartialEq, Eq)]
pub struct TurnCompleteEvent {
    pub turn_id: String,
    pub started_at: Option<i64>,
    pub last_agent_message: Option<String>,
    pub error: Option<TurnError>,
    pub completed_at: Option<i64>,
    pub duration_ms: Option<i64>,
    pub time_to_first_token_ms: Option<i64>,
}

impl TurnEnd {
    /// The end of the turn `turn_id`.
    pub open spec fn of(self, turn_id: String) -> TurnCompleteEvent {
        TurnCompleteEvent {
            turn_id,
            started_at: self.started_at,
            last_agent_message: self.last_agent_message,
            error: self.error,
            completed_at: self.completed_at,
            duration_ms: self.duration_ms,
            time_to_first_token_ms: self.time_to_first_token_ms,
        }
    }

    /// Says that it is the turn `turn_id` that ended like this.
    pub fn into_event(self, turn_id: String) -> (event: TurnCompleteEvent)
        ensures
            event == self.of(turn_id),
    {
        TurnCompleteEvent {
            turn_id,
            started_at: self.started_at,
            last_agent_message: self.last_agent_message,
            error: self.error,
            completed_at: self.completed_at,
            duration_ms: self.duration_ms,
            time_to_first_token_ms: self.time_to_first_token_ms,
        }
    }
}

/// The end of a turn that waits for a flush. Only a thread makes one, out of an
/// end that it was told of.
#[derive(Debug, PartialEq, Eq)]
pub struct PendingEnd {
    event: TurnCompleteEvent,
}

impl PendingEnd {
    /// The end that waits.
    pub closed spec fn event(self) -> TurnCompleteEvent {
        self.event
    }
}

/// What has to be done before a turn is over.
#[derive(Debug, PartialEq, Eq)]
pub enum CompletionAction {
    /// Flush the thread, and say of this end what came of it.
    FlushThread(PendingEnd),
    /// Nothing: the turn is over.
    Done,
}

/// What the flush of a turn's end waits for.
#[derive(Debug, PartialEq, Eq)]
pub enum FlushProgress {
    /// The store underneath is being flushed.
    Delegated(PendingEnd),
    /// The flush is held until it is released.
    Held(PendingEnd),
    /// Nothing: the turn is over.
    Finished,
}

/// The turn that a thread is in.
#[derive(Debug, PartialEq, Eq)]
pub struct CurrentTurn {
    pub turn_id: String,
    /// When the turn started, in seconds.
    pub started_at: Option<i64>,
}

/// A thread, as far as the end of its turns is concerned.
#[derive(Debug, PartialEq, Eq)]
pub struct ThreadCompletion {
    pub thread_id: String,
    /// The thread is not stored.
    pub ephemeral: bool,
    /// Who is told of the thread's turns.
    pub connections: Vec<ConnectionId>,
    /// The turn that started last, unless its end was reported.
    pub current_turn: Option<CurrentTurn>,
    /// What went wrong since the last end was reported.
    pub last_error: Option<TurnError>,
    pub watch: ThreadWatchManager,
    pub outgoing: Vec<OutgoingEnvelope>,
}

/// The error that a turn ends with: the one noted while it ran, else the one
/// that it ended with, else that of the flush.
pub open spec fn terminal_error(
    last_error: Option<TurnError>,
    event_error: Option<TurnError>,
    flush: Result<(), ThreadStoreError>,
) -> Option<TurnError> {
    if last_error is Some {
        last_error
    } else if event_error is Some {
        event_error
    } else {
        match flush {
            Err(ThreadStoreError::Internal { message }) => Some(
                TurnError { message, codex_error_info: None, additional_details: None },
            ),
            Ok(_) => None,
        }
    }
}

/// The turn as it is reported at its end, when `last_error` was noted and the
/// thread was flushed with `flush`: failed if there is an error.
pub open spec fn terminal_turn(
    event: TurnCompleteEvent,
    last_error: Option<TurnError>,
    flush: Result<(), ThreadStoreError>,
) -> Turn {
    let error = terminal_error(last_error, event.error, flush);
    Turn {
        id: event.turn_id,
        status: if error is Some {
            TurnStatus::Failed
        } else {
            TurnStatus::Completed
        },
        error,
        started_at: event.started_at,
        completed_at: event.completed_at,
        duration_ms: event.duration_ms,
    }
}

/// The current turn, once the end of `turn_id` was reported.
pub open spec fn current_turn_after(current: Option<CurrentTurn>, turn_id: String) -> Option<
    CurrentTurn,
> {
    match current {
        Some(turn) => if turn.turn_id@ == turn_id@ {
            None
        } else {
            current
        },
        None => None,
    }
}

impl ThreadCompletion {
    /// From `before`, the end `event` was reported after `flush`: the thread
    /// counts as idle, each connection has been told once how the turn ended,
    /// and the next turn starts without an error.
    pub open spec fn finishes(
        self,
        before: ThreadCompletion,
        event: TurnCompleteEvent,
        flush: Result<(), ThreadStoreError>,
    ) -> bool {
        &&& self.outgoing@ == before.outgoing@ + turn_completed_to(
            before.connections@,
            TurnCompletedNotification {
                thread_id: before.thread_id,
                turn: terminal_turn(event, before.last_error, flush),
            },
        )
        &&& self.watch@ == before.watch@.remove(before.thread_id@)
        &&& self.current_turn == current_turn_after(before.current_turn, event.turn_id)
        &&& self.last_error is None
        &&& self.thread_id == before.thread_id
        &&& self.ephemeral == before.ephemeral
        &&& self.connections == before.connections
    }

    /// A thread in which no turn has run.
    pub fn new(thread_id: String, ephemeral: bool, connections: Vec<ConnectionId>) -> (thread: Self)
        ensures
            thread.thread_id == thread_id,
            thread.ephemeral == ephemeral,
            thread.connections == connections,
            thread.current_turn is None,
            thread.last_error is None,
            thread.watch@ == Set::<Seq<char>>::empty(),
            thread.outgoing@ == Seq::<OutgoingEnvelope>::empty(),
    {
        ThreadCompletion {
            thread_id,
            ephemeral,
            connections,
            current_turn: None,
            last_error: None,
            watch: ThreadWatchManager::new(),
            outgoing: Vec::new(),
        }
    }

    /// Notes that the turn `turn_id` of the thread runs, since `started_at`.
    pub fn turn_started(&mut self, turn_id: String, started_at: Option<i64>)
        ensures
            final(self).current_turn == Some(CurrentTurn { turn_id, started_at }),
            final(self).watch@ == old(self).watch@.insert(old(self).thread_id@),
            *final(self) == (ThreadCompletion {
                current_turn: final(self).current_turn,
                watch: final(self).watch,
                ..*old(self)
            }),
    {
        self.watch.note_turn_started(self.thread_id.as_str());
        self.current_turn = Some(CurrentTurn { turn_id, started_at });
    }

    /// Notes what went wrong in the turn that is running.
    pub fn handle_error(&mut self, error: TurnError)
        ensures
            *final(self) == (ThreadCompletion { last_error: Some(error), ..*old(self) }),
    {
        self.last_error = Some(error);
    }

    /// Reports the end of a turn after `flush`.
    fn finish(&mut self, event: TurnCompleteEvent, flush: Result<(), ThreadStoreError>)
        ensures
            final(self).finishes(*old(self), event, flush),
    {
        let error = match (self.last_error.take(), event.error, flush) {
            (Some(error), _, _) => Some(error),
            (None, Some(error), _) => Some(error),
            (None, None, Err(ThreadStoreError::Internal { message })) => Some(
                TurnError { message, codex_error_info: None, additional_details: None },
            ),
            (None, None, Ok(_)) => None,
        };
        let status = match &error {
            Some(_) => TurnStatus::Failed,
            None => TurnStatus::Completed,
        };
        let is_current = match &self.current_turn {
            Some(turn) => turn.turn_id == event.turn_id,
            None => false,
        };
        if is_current {
            self.current_turn = None;
        }
        let notification = TurnCompletedNotification {
            thread_id: self.thread_id.clone(),
            turn: Turn {
                id: event.turn_id,
                status,
                error,
                started_at: event.started_at,
                completed_at: event.completed_at,
                duration_ms: event.duration_ms,
            },
        };
        self.watch.note_turn_completed(self.thread_id.as_str());
        send_turn_completed(&mut self.outgoing, &self.connections, &notification);
    }

    /// Takes up the end of a turn. A thread that is stored has to be flushed
    /// first: until then nobody learns of the end, and the thread is as it was.
    /// Each end waits for a flush of its own.
    pub fn turn_complete(&mut self, event: TurnCompleteEvent) -> (action: CompletionAction)
        ensures
            if old(self).ephemeral {
                &&& action is Done
                &&& final(self).finishes(*old(self), event, Ok(()))
            } else {
                &&& action matches CompletionAction::FlushThread(pending) && pending.event()
                    == event
                &&& *final(self) == *old(self)
            },
    {
        if self.ephemeral {
            self.finish(event, Ok(()));
            CompletionAction::Done
        } else {
            CompletionAction::FlushThread(PendingEnd { event })
        }
    }

    /// Reports the end that waited for the flush.
    pub fn flush_finished(&mut self, pending: PendingEnd, flush: Result<(), ThreadStoreError>)
        ensures
            final(self).finishes(*old(self), pending.event(), flush),
    {
        self.finish(pending.event, flush);
    }

    /// Takes up the end of a turn with a store whose flushes are controlled. A
    /// thread that is not stored asks for no flush; any other asks for one, and
    /// one that fails at once ends the turn at once.
    pub fn apply_turn_complete(
        &mut self,
        event: TurnCompleteEvent,
        store: &mut ControlledFlushStore,
    ) -> (progress: FlushProgress)
        ensures
            if old(self).ephemeral {
                &&& progress is Finished
                &&& *final(store) == *old(store)
                &&& final(self).finishes(*old(self), event, Ok(()))
            } else {
                &&& final(store).calls() == if old(store).calls() == usize::MAX {
                    0
                } else {
                    old(store).calls() + 1
                }
                &&& final(store).next() is Delegate
                &&& match old(store).next() {
                    NextFlush::Fail(error) => {
                        &&& progress is Finished
                        &&& final(self).finishes(*old(self), event, Err(error))
                    },
                    NextFlush::Hold => {
                        &&& progress matches FlushProgress::Held(pending) && pending.event()
                            == event
                        &&& *final(self) == *old(self)
                    },
                    NextFlush::Delegate => {
                        &&& progress matches FlushProgress::Delegated(pending) && pending.event()
                            == event
                        &&& *final(self) == *old(self)
                    },
                }
            },
    {
        match self.turn_complete(event) {
            CompletionAction::Done => FlushProgress::Finished,
            CompletionAction::FlushThread(pending) => match store.flush_thread() {
                FlushAction::Delegate => FlushProgress::Delegated(pending),
                FlushAction::AwaitRelease => FlushProgress::Held(pending),
                FlushAction::Fail(error) => {
                    self.flush_finished(pending, Err(error));
                    FlushProgress::Finished
                },
            },
        }
    }
}

} // verus!
