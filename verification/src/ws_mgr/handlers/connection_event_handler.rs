//! The handler that reconnects a connection after it failed.
use vstd::prelude::*;
use crate::ws_mgr::manager::Message;

verus! {

/// Whether a message reports a failed connection: a read or write error, a
/// close, or a missing pong.
pub open spec fn is_connection_failure(message: Message) -> bool {
    match message {
        Message::ReadError(_, _) => true,
        Message::WriteError(_, _) => true,
        Message::CloseMessage(_, _) => true,
        Message::PongReceiveTimeoutError(_) => true,
        _ => false,
    }
}

/// A reconnection to carry out: of which connection, and whether a close
/// frame is sent on it first.
#[derive(Debug, Clone)]
pub struct ReconnectRequest {
    pub connection: String,
    pub send_close: bool,
}

/// Whether a request reconnects the named connection as the manager's
/// `reconnect` does: closing it first with a close frame.
pub open spec fn reconnects(r: Option<ReconnectRequest>, name: Seq<char>) -> bool {
    r matches Some(q) && q.connection@ == name && q.send_close
}

/// Reconnects its connection through the manager's `reconnect` (which first
/// sends a close frame) whenever a failure is reported on the channel it
/// watches.
#[derive(Debug, Clone)]
pub struct ConnectionEventHandler {
    pub connection_name: String,
}

impl ConnectionEventHandler {
    pub fn new(connection_name: String) -> (r: Self)
        ensures
            r.connection_name == connection_name,
    {
        ConnectionEventHandler { connection_name }
    }

    /// The reconnection due after this message, if any: of its own
    /// connection, with a close frame first, on every failure, whichever
    /// connection of the channel reported it; nothing on any other message.
    pub fn on_message(&self, message: &Message) -> (r: Option<ReconnectRequest>)
        ensures
            is_connection_failure(*message) ==> reconnects(r, self.connection_name@),
            !is_connection_failure(*message) ==> r is None,
            (message is ReadError || message is WriteError || message is CloseMessage
                || message is PongReceiveTimeoutError) ==> reconnects(r, self.connection_name@),
            (message is TextMessage || message is BinaryMessage || message is PingMessage
                || message is PongMessage || message is FrameMessage || message is SuccessfulHandshake
                || message is FailedHandshake || message is ConnectionStarting) ==> r is None,
    {
        match message {
            Message::ReadError(_, _) | Message::WriteError(_, _) | Message::CloseMessage(_, _)
            | Message::PongReceiveTimeoutError(_) => Some(ReconnectRequest { connection: self.connection_name.clone(), send_close: true }),
            _ => None,
        }
    }
}

/// A connection has failed exactly when a read or a write failed, the
/// connection was closed, or a pong did not come in time; data, pings,
/// pongs and handshake events are no failure.
pub proof fn lemma_failures_are_exactly_errors_and_closes(message: Message)
    ensures
        is_connection_failure(message) <==> (message is ReadError || message is WriteError
            || message is CloseMessage || message is PongReceiveTimeoutError),
        (message is TextMessage || message is BinaryMessage || message is PingMessage
            || message is PongMessage) ==> !is_connection_failure(message),
{
}

} // verus!
