//! Messages of the connection manager, its errors, and the registry of named
//! connections and exchange channels that decides where each request goes.
use vstd::prelude::*;
use crate::text::{debug_quoted, debug_text, join2, join3, owned};
use crate::ws_mgr::config::Config;
use crate::ws_mgr::table::NamedTable;

verus! {

/// A message on a connection's channels: frames read or to be written, and
/// events of the connection's life.
#[derive(Clone, Debug)]
pub enum Message {
    PingMessage(String, String),
    PongMessage(String, String),
    TextMessage(String, String),
    BinaryMessage(String, Vec<u8>),
    CloseMessage(String, Option<String>),
    FrameMessage(String, String),
    ReadError(String, String),
    WriteError(String, String),
    PongReceiveTimeoutError(String),
    SuccessfulHandshake(String),
    FailedHandshake(String, i32),
    ConnectionStarting(String),
}

/// Why the manager refused a request about a connection.
#[derive(Debug, Clone)]
pub enum ManagerError {
    Unknown(String),
    Inactive(String),
    Restarting(String),
}

/// A registered connection: its settings and, while it runs, the handle of
/// its writer (through which frames are sent and the connection cancelled).
pub struct ConnectionSlot<H> {
    pub config: Config,
    pub writer: Option<H>,
}

/// What closing a connection leaves to do: the connection's settings (to
/// reconnect with), its handle (to cancel), and whether a close frame is to
/// be sent through it first.
pub struct ClosedConnection<H> {
    pub config: Config,
    pub writer: Option<H>,
    pub send_close: bool,
}

/// The connections of a manager, by name, and the broadcast channels of the
/// exchanges, by exchange name.
pub struct ConnectionRegistry<H, S> {
    connections: NamedTable<ConnectionSlot<H>>,
    channels: NamedTable<S>,
}

/// The back-off before reconnect attempt `attempt` (counted from 0), in
/// seconds: it doubles from one second and stops growing at sixty.
pub open spec fn backoff_secs(attempt: nat) -> nat
    decreases attempt,
{
    if attempt == 0 {
        1
    } else {
        let prev = backoff_secs((attempt - 1) as nat);
        if 2 * prev < 60 { 2 * prev } else { 60 }
    }
}

/// The back-off before a reconnect attempt: `min(2^attempt, 60)` seconds.
pub fn reconnect_backoff_secs(attempt: i32) -> (r: u64)
    requires
        attempt >= 0,
    ensures
        r == backoff_secs(attempt as nat),
{
    let mut b: u64 = 1;
    let mut i: i32 = 0;
    while i < attempt
        invariant
            0 <= i <= attempt,
            b == backoff_secs(i as nat),
            1 <= b <= 60,
        decreases attempt - i,
    {
        b = if 2 * b < 60 { 2 * b } else { 60 };
        i = i + 1;
    }
    b
}

/// The back-off never exceeds sixty seconds and never shrinks from one attempt
/// to the next.
pub proof fn lemma_backoff_bounded_and_monotonic(attempt: nat)
    ensures
        1 <= backoff_secs(attempt) <= 60,
        backoff_secs(attempt) <= backoff_secs(attempt + 1),
    decreases attempt,
{
    if attempt > 0 {
        lemma_backoff_bounded_and_monotonic((attempt - 1) as nat);
    }
}

/// The attempts to open one connection, from its start until it is open.
/// `attempt` counts the failed attempts so far.
#[derive(Debug, Clone)]
pub struct ConnectLoop {
    pub name: String,
    pub attempt: i32,
    pub established: bool,
}

/// What the connecting loop does after an attempt.
#[derive(Debug, Clone)]
pub enum ConnectAction {
    /// Register the connection, wait a second, publish `event` (the
    /// successful handshake) on the exchange's channel, and stop.
    Established(Message),
    /// Publish `event` (the failed handshake) on the exchange's channel, wait
    /// `wait_secs` seconds, and try again.
    Retry(Message, u64),
}

impl ConnectLoop {
    /// The loop of a connection about to be opened, and the event that it
    /// publishes first: `ConnectionStarting`.
    pub fn start(name: String) -> (r: (ConnectLoop, Message))
        ensures
            r.0.name@ == name@,
            r.0.attempt == 0,
            !r.0.established,
            r.1 matches Message::ConnectionStarting(n) && n@ == name@,
    {
        let event = Message::ConnectionStarting(name.clone());
        (ConnectLoop { name, attempt: 0, established: false }, event)
    }

    /// Takes the outcome of one attempt. An opened connection ends the loop
    /// with `SuccessfulHandshake`; a failed attempt number `attempt` publishes
    /// `FailedHandshake` with that number, waits the back-off of that number
    /// (doubling from one second, at most sixty), and counts one more failure.
    pub fn on_attempt(&mut self, connected: bool) -> (r: ConnectAction)
        requires
            old(self).attempt >= 0,
        ensures
            final(self).name@ == old(self).name@,
            final(self).attempt >= 0,
            connected ==> {
                &&& r matches ConnectAction::Established(Message::SuccessfulHandshake(n)) && n@ == old(self).name@
                &&& final(self).established
                &&& final(self).attempt == old(self).attempt
            },
            !connected ==> {
                &&& r matches ConnectAction::Retry(Message::FailedHandshake(n, i), wait)
                    && n@ == old(self).name@ && i == old(self).attempt && wait == backoff_secs(old(self).attempt as nat)
                &&& !final(self).established
                &&& final(self).attempt == if old(self).attempt < i32::MAX { old(self).attempt + 1 } else { old(self).attempt as int }
            },
    {
        if connected {
            self.established = true;
            ConnectAction::Established(Message::SuccessfulHandshake(self.name.clone()))
        } else {
            let i = self.attempt;
            let wait = reconnect_backoff_secs(i);
            if i < i32::MAX {
                self.attempt = i + 1;
            }
            self.established = false;
            ConnectAction::Retry(Message::FailedHandshake(self.name.clone(), i), wait)
        }
    }
}

impl<H, S> ConnectionRegistry<H, S> {
    /// The registry's invariant: no connection name and no exchange name
    /// occurs twice.
    pub closed spec fn wf(&self) -> bool {
        self.connections.wf() && self.channels.wf()
    }

    /// The connections, by name.
    pub closed spec fn connections_view(&self) -> Map<Seq<char>, ConnectionSlot<H>> {
        self.connections@
    }

    /// The exchange channels, by exchange name.
    pub closed spec fn channels_view(&self) -> Map<Seq<char>, S> {
        self.channels@
    }

    /// A registry without connections or channels.
    pub fn new() -> (r: Self)
        ensures
            r.wf(),
            r.connections_view() == Map::<Seq<char>, ConnectionSlot<H>>::empty(),
            r.channels_view() == Map::<Seq<char>, S>::empty(),
    {
        ConnectionRegistry { connections: NamedTable::new(), channels: NamedTable::new() }
    }

    /// Makes sure the exchange has a broadcast channel: `fresh` becomes its
    /// channel when it has none, and an existing channel is kept. Returns
    /// whether `fresh` was taken.
    pub fn setup_reader(&mut self, exchange: &str, fresh: S) -> (created: bool)
        requires
            old(self).wf(),
        ensures
            final(self).wf(),
            created == !old(self).channels_view().contains_key(exchange@),
            final(self).channels_view() == if created {
                old(self).channels_view().insert(exchange@, fresh)
            } else {
                old(self).channels_view()
            },
            final(self).connections_view() == old(self).connections_view(),
    {
        if self.channels.contains(exchange) {
            false
        } else {
            self.channels.insert(owned(exchange), fresh);
            true
        }
    }

    /// The broadcast channel of an exchange, if it was set up.
    pub fn channel(&self, exchange: &str) -> (r: Option<&S>)
        requires
            self.wf(),
        ensures
            match r {
                Some(s) => self.channels_view().contains_key(exchange@) && self.channels_view()[exchange@] == *s,
                None => !self.channels_view().contains_key(exchange@),
            },
    {
        self.channels.get(exchange)
    }

    /// The channel on which a new connection with these settings reports: the
    /// channel of its exchange (`config.name`). A connection cannot start
    /// before its exchange's channel is set up.
    pub fn new_conn(&self, config: &Config) -> (r: Result<&S, ManagerError>)
        requires
            self.wf(),
        ensures
            match r {
                Ok(s) => self.channels_view().contains_key(config.name@)
                    && self.channels_view()[config.name@] == *s,
                Err(ManagerError::Unknown(m)) => !self.channels_view().contains_key(config.name@)
                    && m@ == "Exchange '"@ + config.name@ + "' not set up. Call setup_reader first."@,
                Err(_) => false,
            },
    {
        match self.channels.get(config.name.as_str()) {
            Some(s) => Ok(s),
            None => {
                Err(ManagerError::Unknown(join3("Exchange '", config.name.as_str(), "' not set up. Call setup_reader first.")))
            },
        }
    }

    /// Registers an established connection under its name, replacing any
    /// connection of that name.
    pub fn insert_connection(&mut self, name: String, config: Config, writer: H)
        requires
            old(self).wf(),
        ensures
            final(self).wf(),
            final(self).connections_view() == old(self).connections_view().insert(
                name@,
                ConnectionSlot { config, writer: Some(writer) },
            ),
            final(self).channels_view() == old(self).channels_view(),
    {
        self.connections.insert(name, ConnectionSlot { config, writer: Some(writer) });
    }

    /// The writer through which to send to a connection: `Unknown` when no
    /// connection has this name, `Inactive` when it has no writer.
    pub fn write(&self, name: &str) -> (r: Result<&H, ManagerError>)
        requires
            self.wf(),
        ensures
            match r {
                Ok(h) => self.connections_view().contains_key(name@)
                    && self.connections_view()[name@].writer == Some(*h),
                Err(ManagerError::Unknown(n)) => !self.connections_view().contains_key(name@) && n@ == name@,
                Err(ManagerError::Inactive(n)) => self.connections_view().contains_key(name@)
                    && self.connections_view()[name@].writer is None && n@ == name@,
                Err(ManagerError::Restarting(_)) => false,
            },
    {
        match self.connections.get(name) {
            Some(slot) => match &slot.writer {
                Some(h) => Ok(h),
                None => Err(ManagerError::Inactive(owned(name))),
            },
            None => Err(ManagerError::Unknown(owned(name))),
        }
    }

    /// Removes a connection. What is left to do is returned: send a close
    /// frame when `send_close` was asked and the connection has a writer,
    /// cancel the writer, and keep the settings to reconnect with. A name
    /// without a connection gives `Unknown`.
    pub fn close_conn(&mut self, name: &str, send_close: bool) -> (r: Result<ClosedConnection<H>, ManagerError>)
        requires
            old(self).wf(),
        ensures
            final(self).wf(),
            final(self).connections_view() == old(self).connections_view().remove(name@),
            final(self).channels_view() == old(self).channels_view(),
            match r {
                Ok(c) => old(self).connections_view().contains_key(name@)
                    && c.config == old(self).connections_view()[name@].config
                    && c.writer == old(self).connections_view()[name@].writer
                    && c.send_close == (send_close && c.writer is Some),
                Err(ManagerError::Unknown(n)) => !old(self).connections_view().contains_key(name@) && n@ == name@,
                Err(_) => false,
            },
    {
        match self.connections.remove(name) {
            Some(slot) => {
                let has_writer = slot.writer.is_some();
                Ok(ClosedConnection { config: slot.config, writer: slot.writer, send_close: send_close && has_writer })
            },
            None => Err(ManagerError::Unknown(owned(name))),
        }
    }

    /// The writer that answers a ping read on a connection with a pong
    /// carrying the same payload; none for other messages or for connections
    /// without a writer.
    pub fn pong_target(&self, message: &Message) -> (r: Option<&H>)
        requires
            self.wf(),
        ensures
            match message {
                Message::PingMessage(name, _) => match r {
                    Some(h) => self.connections_view().contains_key(name@)
                        && self.connections_view()[name@].writer == Some(*h),
                    None => !self.connections_view().contains_key(name@)
                        || self.connections_view()[name@].writer is None,
                },
                _ => r is None,
            },
    {
        match message {
            Message::PingMessage(name, _) => match self.connections.get(name.as_str()) {
                Some(slot) => match &slot.writer {
                    Some(h) => Some(h),
                    None => None,
                },
                None => None,
            },
            _ => None,
        }
    }
}

/// The text of a manager error: the kind, then the connection name as
/// `Debug` renders it.
pub open spec fn manager_error_text(e: ManagerError) -> Seq<char> {
    match e {
        ManagerError::Unknown(n) => "Connection Unknown: "@ + debug_quoted(n@),
        ManagerError::Inactive(n) => "Connection Inactive: "@ + debug_quoted(n@),
        ManagerError::Restarting(n) => "Connection Restarting: "@ + debug_quoted(n@),
    }
}

impl ManagerError {
    /// The error's text, as its `Display` shows it.
    pub fn message(&self) -> (r: String)
        ensures
            r@ == manager_error_text(*self),
    {
        match self {
            ManagerError::Unknown(n) => join2("Connection Unknown: ", debug_text(n.as_str()).as_str()),
            ManagerError::Inactive(n) => join2("Connection Inactive: ", debug_text(n.as_str()).as_str()),
            ManagerError::Restarting(n) => join2("Connection Restarting: ", debug_text(n.as_str()).as_str()),
        }
    }
}

/// What the registry's contracts give for a connection just registered:
/// its writer is the one to write through, closing it hands back its
/// settings and writer, and after that close no connection of the name is
/// left, so a second close (or a write) is refused with `Unknown`.
pub proof fn lemma_close_returns_registered<H>(
    before: Map<Seq<char>, ConnectionSlot<H>>,
    name: Seq<char>,
    config: Config,
    writer: H,
)
    ensures
        ({
            let registered = before.insert(name, ConnectionSlot { config, writer: Some(writer) });
            &&& registered.contains_key(name)
            &&& registered[name].writer == Some(writer)
            &&& registered[name].config == config
            &&& !registered.remove(name).contains_key(name)
            &&& forall|other: Seq<char>| other != name && before.contains_key(other)
                ==> #[trigger] registered.remove(name).contains_key(other)
        }),
{
}

} // verus!
