//! What the actors of a connection do with each event: the ping actor keeps
//! the connection alive and detects a silent peer, the read actor turns frames
//! into messages, and the write actor turns messages into frames.
use vstd::prelude::*;
use crate::text::{from_utf8_lossy, owned, utf8_lossy};
use crate::ws_mgr::config::Config;
use crate::ws_mgr::manager::Message;

verus! {

#[derive(Debug, Clone, Copy, PartialEq, Eq, Structural)]
pub enum ConnectionError {
    ConnectionInactive,
}

/// The state of a connection's ping actor.
pub struct PingState {
    pub name: String,
    pub ping_message: String,
    pub use_text_ping: bool,
    pub ping_timeout: u64,
    /// When the last pong of this connection arrived, in seconds; none before
    /// the first.
    pub last_pong_time: Option<i64>,
}

impl PingState {
    /// The ping actor of a connection: pings are text frames when the
    /// settings ask for text pings, ping frames otherwise; no pong yet.
    pub fn new(name: String, config: &Config) -> (r: Self)
        ensures
            r.name == name,
            r.ping_message == config.ping_message,
            r.use_text_ping == (config.use_text_ping == Some(true)),
            r.ping_timeout == config.ping_timeout,
            r.last_pong_time is None,
    {
        let use_text_ping = match config.use_text_ping {
            Some(b) => b,
            None => false,
        };
        PingState {
            name,
            ping_message: config.ping_message.clone(),
            use_text_ping,
            ping_timeout: config.ping_timeout,
            last_pong_time: None,
        }
    }

    /// The message to write when the ping interval elapses.
    pub fn on_ping_tick(&self) -> (r: Message)
        ensures
            self.use_text_ping ==> (r matches Message::TextMessage(n, t) && n@ == self.name@ && t@ == self.ping_message@),
            !self.use_text_ping ==> (r matches Message::PingMessage(n, t) && n@ == self.name@ && t@ == self.ping_message@),
    {
        let text = self.ping_message.clone();
        if self.use_text_ping {
            Message::TextMessage(self.name.clone(), text)
        } else {
            Message::PingMessage(self.name.clone(), text)
        }
    }

    /// When the timeout interval elapses at `now` (seconds): a timeout error
    /// is written when a pong arrived once and the last one is more than the
    /// timeout old. Before the first pong no timeout is reported.
    pub fn on_timeout_tick(&self, now: i64) -> (r: Option<Message>)
        requires
            self.last_pong_time matches Some(t) ==> i64::MIN <= now - t <= i64::MAX,
        ensures
            pong_overdue(self.last_pong_time, now, self.ping_timeout) ==> (r matches Some(Message::PongReceiveTimeoutError(n)) && n@ == self.name@),
            !pong_overdue(self.last_pong_time, now, self.ping_timeout) ==> r is None,
    {
        match self.last_pong_time {
            Some(t) => {
                if now - t > self.ping_timeout as i64 {
                    Some(Message::PongReceiveTimeoutError(self.name.clone()))
                } else {
                    None
                }
            },
            None => None,
        }
    }

    /// A message read on the exchange's channel at `now` (seconds): a pong of
    /// this connection records the time; every other message leaves the
    /// state as it was.
    pub fn on_message(&mut self, message: &Message, now: i64)
        ensures
            final(self).name == old(self).name,
            final(self).ping_message == old(self).ping_message,
            final(self).use_text_ping == old(self).use_text_ping,
            final(self).ping_timeout == old(self).ping_timeout,
            final(self).last_pong_time == match message {
                Message::PongMessage(n, _) => if n@ == old(self).name@ { Some(now) } else { old(self).last_pong_time },
                _ => old(self).last_pong_time,
            },
    {
        match message {
            Message::PongMessage(n, _) => {
                if *n == self.name {
                    self.last_pong_time = Some(now);
                }
            },
            _ => {},
        }
    }
}

/// A frame read from the socket.
#[derive(Debug, Clone)]
pub enum IncomingFrame {
    Ping(Vec<u8>),
    Pong(Vec<u8>),
    Text(String),
    Binary(Vec<u8>),
    Close(Option<String>),
    Frame,
}

/// The message that the read actor of connection `name` publishes for a
/// frame; ping and pong payloads are read as UTF-8, invalid sequences
/// replaced.
pub fn read_message(name: &String, frame: IncomingFrame) -> (r: Message)
    ensures
        match frame {
            IncomingFrame::Ping(d) => r matches Message::PingMessage(n, t) && n@ == name@ && t@ == utf8_lossy(d@),
            IncomingFrame::Pong(d) => r matches Message::PongMessage(n, t) && n@ == name@ && t@ == utf8_lossy(d@),
            IncomingFrame::Text(s) => r matches Message::TextMessage(n, t) && n@ == name@ && t@ == s@,
            IncomingFrame::Binary(d) => r matches Message::BinaryMessage(n, b) && n@ == name@ && b@ == d@,
            IncomingFrame::Close(reason) => r matches Message::CloseMessage(n, c) && n@ == name@ && c.deep_view() == reason.deep_view(),
            IncomingFrame::Frame => r matches Message::FrameMessage(n, t) && n@ == name@ && t@ == "Raw frame received"@,
        },
{
    let n = name.clone();
    match frame {
        IncomingFrame::Ping(d) => Message::PingMessage(n, from_utf8_lossy(d.as_slice())),
        IncomingFrame::Pong(d) => Message::PongMessage(n, from_utf8_lossy(d.as_slice())),
        IncomingFrame::Text(s) => Message::TextMessage(n, s),
        IncomingFrame::Binary(d) => Message::BinaryMessage(n, d),
        IncomingFrame::Close(reason) => Message::CloseMessage(n, reason),
        IncomingFrame::Frame => Message::FrameMessage(n, owned("Raw frame received")),
    }
}

/// The message that the read actor publishes when reading fails (with the
/// error's text) or the stream ends (`None`); the actor then stops.
pub fn read_failure(name: &String, error: Option<String>) -> (r: Message)
    ensures
        r matches Message::ReadError(n, e) && n@ == name@ && e@ == match error {
            Some(t) => t@,
            None => "None"@,
        },
{
    match error {
        Some(e) => Message::ReadError(name.clone(), e),
        None => Message::ReadError(name.clone(), owned("None")),
    }
}

/// A frame to write to the socket; a close frame carries the normal close
/// code and the given reason.
#[derive(Debug, Clone)]
pub enum WireFrame {
    Ping(String),
    Pong(String),
    Text(String),
    Binary(Vec<u8>),
    Close(Option<String>),
}

/// The frame that the write actor sends for a message. Pings, pongs, text,
/// binary data and closes are written; every other message is dropped.
pub fn write_frame(message: Message) -> (r: Option<WireFrame>)
    ensures
        match message {
            Message::PingMessage(_, d) => r matches Some(WireFrame::Ping(t)) && t == d,
            Message::PongMessage(_, d) => r matches Some(WireFrame::Pong(t)) && t == d,
            Message::TextMessage(_, d) => r matches Some(WireFrame::Text(t)) && t == d,
            Message::BinaryMessage(_, d) => r matches Some(WireFrame::Binary(t)) && t == d,
            Message::CloseMessage(_, reason) => r matches Some(WireFrame::Close(t)) && t == reason,
            _ => r is None,
        },
{
    match message {
        Message::PingMessage(_, d) => Some(WireFrame::Ping(d)),
        Message::PongMessage(_, d) => Some(WireFrame::Pong(d)),
        Message::TextMessage(_, d) => Some(WireFrame::Text(d)),
        Message::BinaryMessage(_, d) => Some(WireFrame::Binary(d)),
        Message::CloseMessage(_, reason) => Some(WireFrame::Close(reason)),
        _ => None,
    }
}

/// The message that the write actor publishes when a write fails.
pub fn write_failure(name: &String, error: String) -> (r: Message)
    ensures
        r matches Message::WriteError(n, e) && n@ == name@ && e == error,
{
    Message::WriteError(name.clone(), error)
}

impl ConnectionError {
    /// The error's text, as its `Display` shows it.
    pub fn message(&self) -> (r: String)
        ensures
            r@ == "Called interactive function on inactive connection"@,
    {
        owned("Called interactive function on inactive connection")
    }
}

/// Whether, at `now`, the last pong is older than the timeout; never before
/// the first pong.
pub open spec fn pong_overdue(last_pong: Option<i64>, now: i64, timeout: u64) -> bool {
    match last_pong {
        Some(t) => now - t > (timeout as i64),
        None => false,
    }
}

/// No pong timeout is reported before the first pong, nor within the
/// timeout of the last one; one is reported once the last pong is older.
pub proof fn lemma_pong_timeout(last_pong: Option<i64>, now: i64, timeout: u64)
    ensures
        last_pong is None ==> !pong_overdue(last_pong, now, timeout),
        last_pong matches Some(t) ==> (pong_overdue(last_pong, now, timeout) <==> now - t > (timeout as i64)),
{
}

} // verus!
