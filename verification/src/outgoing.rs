//! What the server sends to its clients.

use vstd::prelude::*;

use crate::error_code::JSONRPCErrorError;
use crate::turn::Turn;

verus! {

/// A client's connection.
#[derive(Clone, Copy, Debug, PartialEq, Eq, Structural)]
pub struct ConnectionId(pub u64);

/// Tells clients that a turn runs.
#[derive(Debug, PartialEq, Eq)]
pub struct TurnStartedNotification {
    pub thread_id: String,
    pub turn: Turn,
}

/// Tells clients that a turn is over, and how it ended.
#[derive(Debug, PartialEq, Eq)]
pub struct TurnCompletedNotification {
    pub thread_id: String,
    pub turn: Turn,
}

impl Clone for TurnCompletedNotification {
    fn clone(&self) -> (notification: Self)
        ensures
            notification == *self,
    {
        TurnCompletedNotification { thread_id: self.thread_id.clone(), turn: self.turn.clone() }
    }
}

/// Something that clients are told.
#[derive(Debug, PartialEq, Eq)]
pub enum ServerNotification {
    TurnStarted(TurnStartedNotification),
    TurnCompleted(TurnCompletedNotification),
}

/// A message to a client.
#[derive(Debug, PartialEq, Eq)]
pub enum OutgoingMessage {
    AppServerNotification(ServerNotification),
    Error(JSONRPCErrorError),
}

/// A message, and whom it is for.
#[derive(Debug, PartialEq, Eq)]
pub enum OutgoingEnvelope {
    ToConnection { connection_id: ConnectionId, message: OutgoingMessage },
    Broadcast { message: OutgoingMessage },
}

/// What came where the end of a turn was expected.
#[derive(Debug, PartialEq, Eq)]
pub enum UnexpectedOutgoing {
    Message(OutgoingMessage),
    Notification(ServerNotification),
}

impl OutgoingEnvelope {
    /// The message, whomever it is for.
    pub open spec fn message(self) -> OutgoingMessage {
        match self {
            OutgoingEnvelope::ToConnection { message, .. } => message,
            OutgoingEnvelope::Broadcast { message } => message,
        }
    }

    /// The end of a turn that the envelope tells of, or what else is in it.
    pub open spec fn terminal(self) -> Result<TurnCompletedNotification, UnexpectedOutgoing> {
        match self.message() {
            OutgoingMessage::AppServerNotification(
                ServerNotification::TurnCompleted(notification),
            ) => Ok(notification),
            OutgoingMessage::AppServerNotification(notification) => Err(
                UnexpectedOutgoing::Notification(notification),
            ),
            message => Err(UnexpectedOutgoing::Message(message)),
        }
    }

    /// Reads the end of a turn out of the envelope, or hands back what else is
    /// in it.
    pub fn into_turn_completed(self) -> (result: Result<
        TurnCompletedNotification,
        UnexpectedOutgoing,
    >)
        ensures
            result == self.terminal(),
    {
        let message = match self {
            OutgoingEnvelope::ToConnection { message, .. } => message,
            OutgoingEnvelope::Broadcast { message } => message,
        };
        match message {
            OutgoingMessage::AppServerNotification(
                ServerNotification::TurnCompleted(notification),
            ) => Ok(notification),
            OutgoingMessage::AppServerNotification(notification) => Err(
                UnexpectedOutgoing::Notification(notification),
            ),
            message => Err(UnexpectedOutgoing::Message(message)),
        }
    }
}

/// What came of waiting for the end of a turn.
#[derive(Debug, PartialEq, Eq)]
pub enum Received {
    Envelope(OutgoingEnvelope),
    /// Nothing came in time.
    TimedOut,
    /// Nothing can come any more.
    Closed,
}

/// Why there is no end of a turn to read.
#[derive(Debug, PartialEq, Eq)]
pub enum RecvTerminalError {
    /// Nothing came.
    Nothing { message: String },
    /// Something else came.
    Unexpected(UnexpectedOutgoing),
}

impl Received {
    /// Reads the end of a turn out of what came, or says why there is none.
    pub fn recv_terminal(self) -> (result: Result<TurnCompletedNotification, RecvTerminalError>)
        ensures
            match self {
                Received::Envelope(envelope) => result == match envelope.terminal() {
                    Ok(notification) => Ok(notification),
                    Err(unexpected) => Err(RecvTerminalError::Unexpected(unexpected)),
                },
                Received::TimedOut => result matches Err(RecvTerminalError::Nothing { message })
                    && message@ == "terminal notification timed out"@,
                Received::Closed => result matches Err(RecvTerminalError::Nothing { message })
                    && message@ == "terminal notification channel closed"@,
            },
    {
        match self {
            Received::Envelope(envelope) => match envelope.into_turn_completed() {
                Ok(notification) => Ok(notification),
                Err(unexpected) => Err(RecvTerminalError::Unexpected(unexpected)),
            },
            Received::TimedOut => Err(
                RecvTerminalError::Nothing {
                    message: "terminal notification timed out".to_string(),
                },
            ),
            Received::Closed => Err(
                RecvTerminalError::Nothing {
                    message: "terminal notification channel closed".to_string(),
                },
            ),
        }
    }
}

/// The envelopes that tell each of `connections` of `notification`.
pub open spec fn turn_completed_to(
    connections: Seq<ConnectionId>,
    notification: TurnCompletedNotification,
) -> Seq<OutgoingEnvelope> {
    connections.map_values(
        |connection_id: ConnectionId|
            OutgoingEnvelope::ToConnection {
                connection_id,
                message: OutgoingMessage::AppServerNotification(
                    ServerNotification::TurnCompleted(notification),
                ),
            },
    )
}

/// Tells each of `connections` of `notification`.
pub fn send_turn_completed(
    outgoing: &mut Vec<OutgoingEnvelope>,
    connections: &Vec<ConnectionId>,
    notification: &TurnCompletedNotification,
)
    ensures
        final(outgoing)@ == old(outgoing)@ + turn_completed_to(connections@, *notification),
{
    let ghost before = outgoing@;
    for i in 0..connections.len()
        invariant
            outgoing@ =~= before + turn_completed_to(connections@.take(i as int), *notification),
    {
        outgoing.push(
            OutgoingEnvelope::ToConnection {
                connection_id: connections[i],
                message: OutgoingMessage::AppServerNotification(
                    ServerNotification::TurnCompleted(notification.clone()),
                ),
            },
        );
        assert(connections@.take(i + 1) =~= connections@.take(i as int).push(
            connections@[i as int],
        ));
    }
    assert(connections@.take(connections@.len() as int) =~= connections@);
}

} // verus!
