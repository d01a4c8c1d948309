//! A turn as clients see it.

use vstd::prelude::*;

verus! {

/// How far a turn has come.
#[derive(Clone, Copy, Debug, PartialEq, Eq, Structural)]
pub enum TurnStatus {
    InProgress,
    Completed,
    Failed,
}

/// The kind of a turn's error.
#[derive(Clone, Copy, Debug, PartialEq, Eq, Structural)]
pub enum CodexErrorInfo {
    Other,
}

/// What went wrong in a turn.
#[derive(Debug, PartialEq, Eq)]
pub struct TurnError {
    pub message: String,
    pub codex_error_info: Option<CodexErrorInfo>,
    pub additional_details: Option<String>,
}

impl Clone for TurnError {
    fn clone(&self) -> (error: Self)
        ensures
            error == *self,
    {
        TurnError {
            message: self.message.clone(),
            codex_error_info: self.codex_error_info,
            additional_details: match &self.additional_details {
                Some(details) => Some(details.clone()),
                None => None,
            },
        }
    }
}

/// A turn of a thread.
#[derive(Debug, PartialEq, Eq)]
pub struct Turn {
    pub id: String,
    pub status: TurnStatus,
    pub error: Option<TurnError>,
    /// When the turn started, in seconds.
    pub started_at: Option<i64>,
    /// When the turn ended, in seconds.
    pub completed_at: Option<i64>,
    pub duration_ms: Option<i64>,
}

impl Clone for Turn {
    fn clone(&self) -> (turn: Self)
        ensures
            turn == *self,
    {
        Turn {
            id: self.id.clone(),
            status: self.status,
            error: match &self.error {
                Some(error) => Some(error.clone()),
                None => None,
            },
            started_at: self.started_at,
            completed_at: self.completed_at,
            duration_ms: self.duration_ms,
        }
    }
}

/// A turn that was admitted and has not ended.
pub open spec fn in_progress_turn(id: String) -> Turn {
    Turn {
        id,
        status: TurnStatus::InProgress,
        error: None,
        started_at: None,
        completed_at: None,
        duration_ms: None,
    }
}

/// The answer to a request that started a turn.
#[derive(Debug, PartialEq, Eq)]
pub struct TurnStartResponse {
    pub turn: Turn,
}

/// What a client gets as the result of its request.
#[derive(Debug, PartialEq, Eq)]
pub enum ClientResponsePayload {
    TurnStartIfIdle(TurnStartResponse),
}

} // verus!
