//! The settings of the handlers of one connection, built step by step, and the
//! handlers that starting them brings up.
use vstd::prelude::*;
use crate::websocket_supported_exchanges::WebsocketSupportedExchanges;
use crate::websocket_supported_exchanges::OutgoingFrame;
use crate::ws_mgr::handlers::config::{HandlerConfig, DEFAULT_CHANNEL_SIZE};
use crate::ws_mgr::handlers::connection_event_handler::{
    is_connection_failure, reconnects, ConnectionEventHandler, ReconnectRequest,
};
use crate::ws_mgr::handlers::exchange_subscription_manager::{
    channels_view, clone_channels, distinct_kinds, frames_view, subscription_frames_of,
    ExchangeSubscriptionManager,
};
use crate::ws_mgr::handlers::read_timeout_handler::{elapsed_nanos, ReadTimeoutHandler};
use crate::ws_mgr::manager::{ConnectionRegistry, Message};

verus! {

/// A handler that the dispatcher of a connection feeds.
#[derive(Debug, Clone)]
pub enum HandlerKind {
    /// Reconnects on read errors, write errors, closes and missing pongs.
    ConnectionEvent,
    /// Subscribes to the given entries after a successful handshake.
    ExchangeSubscription(WebsocketSupportedExchanges, Vec<(String, Vec<String>)>),
    /// Reconnects after the given number of seconds without a message.
    ReadTimeout(u64),
}

/// Which handlers a connection gets.
#[derive(Debug, Clone)]
pub struct ConnectionHandlers {
    pub connection_name: String,
    pub config: HandlerConfig,
    pub enable_error_handling: bool,
    pub exchange_subscription: Option<(WebsocketSupportedExchanges, Vec<(String, Vec<String>)>)>,
    pub read_timeout_seconds: Option<u64>,
}

/// The number of handlers that a set of settings brings up.
pub open spec fn handler_count(h: ConnectionHandlers) -> nat {
    (if h.enable_error_handling { 1nat } else { 0nat })
        + (if h.exchange_subscription is Some { 1nat } else { 0nat })
        + (if h.read_timeout_seconds is Some { 1nat } else { 0nat })
}

/// Whether a handler is the subscription manager of the configured entries.
pub open spec fn subscribes_as_configured(k: HandlerKind, h: ConnectionHandlers) -> bool {
    match (k, h.exchange_subscription) {
        (HandlerKind::ExchangeSubscription(ex, chans), Some((ex2, chans2))) => ex == ex2 && chans.deep_view() == chans2.deep_view()
            && channels_view(chans@) == channels_view(chans2@),
        _ => false,
    }
}

/// Whether `r` lists the handlers that the settings `h` bring up, in
/// dispatch order: the connection event handler, the subscription manager of
/// the configured entries, the read timeout handler of the configured
/// timeout, each when enabled.
pub open spec fn brings_up(h: ConnectionHandlers, r: Seq<HandlerKind>) -> bool {
    &&& r.len() == handler_count(h)
    &&& h.enable_error_handling ==> r[0] is ConnectionEvent
    &&& forall|i: int| 0 <= i < r.len() ==> (#[trigger] r[i] is ConnectionEvent) == (i == 0 && h.enable_error_handling)
    &&& forall|i: int| 0 <= i < r.len() ==> (#[trigger] r[i] is ExchangeSubscription) == (
        h.exchange_subscription is Some && i == (if h.enable_error_handling { 1int } else { 0int }))
    &&& forall|i: int| 0 <= i < r.len() && #[trigger] r[i] is ExchangeSubscription ==> subscribes_as_configured(r[i], h)
    &&& forall|i: int| 0 <= i < r.len() ==> (#[trigger] r[i] is ReadTimeout) == (
        h.read_timeout_seconds is Some && i == r.len() - 1)
    &&& forall|i: int| 0 <= i < r.len() && #[trigger] r[i] is ReadTimeout ==> r[i] == HandlerKind::ReadTimeout(h.read_timeout_seconds->0)
}

/// Whether a handler is well formed: a subscription manager's entries have
/// distinct channel kinds, as the keys of a map.
pub open spec fn kind_wf(k: HandlerKind) -> bool {
    k matches HandlerKind::ExchangeSubscription(_, chans) ==> distinct_kinds(channels_view(chans@))
}

/// Whether settings are well formed: the subscription entries, when set,
/// have distinct channel kinds.
pub open spec fn settings_wf(h: ConnectionHandlers) -> bool {
    h.exchange_subscription matches Some((_, chans)) ==> distinct_kinds(channels_view(chans@))
}

impl ConnectionHandlers {
    /// The settings of a connection with the default handler configuration and
    /// no handler enabled.
    pub fn new(connection_name: String) -> (r: Self)
        ensures
            r.connection_name == connection_name,
            r.config.channel_size == DEFAULT_CHANNEL_SIZE,
            !r.enable_error_handling,
            r.exchange_subscription is None,
            r.read_timeout_seconds is None,
    {
        ConnectionHandlers {
            connection_name,
            config: HandlerConfig::new(),
            enable_error_handling: false,
            exchange_subscription: None,
            read_timeout_seconds: None,
        }
    }

    /// The same settings with the given handler configuration.
    pub fn with_config(self, config: HandlerConfig) -> (r: Self)
        ensures
            r == (ConnectionHandlers { config, ..self }),
    {
        ConnectionHandlers { config, ..self }
    }

    /// The same settings with reconnection on connection failures.
    pub fn with_error_handling(self) -> (r: Self)
        ensures
            r == (ConnectionHandlers { enable_error_handling: true, ..self }),
    {
        ConnectionHandlers { enable_error_handling: true, ..self }
    }

    /// The same settings with reconnection after `timeout_seconds` without a
    /// message.
    pub fn with_read_timeout(self, timeout_seconds: u64) -> (r: Self)
        ensures
            r == (ConnectionHandlers { read_timeout_seconds: Some(timeout_seconds), ..self }),
    {
        ConnectionHandlers { read_timeout_seconds: Some(timeout_seconds), ..self }
    }

    /// The same settings with automatic subscription to the given entries.
    pub fn with_exchange_subscription(self, exchange: WebsocketSupportedExchanges, channels: Vec<(String, Vec<String>)>) -> (r: Self)
        requires
            distinct_kinds(channels_view(channels@)),
        ensures
            r == (ConnectionHandlers { exchange_subscription: Some((exchange, channels)), ..self }),
    {
        ConnectionHandlers { exchange_subscription: Some((exchange, channels)), ..self }
    }

    /// The handlers that these settings bring up, in the order in which each
    /// message is dispatched to them, as `brings_up` says.
    pub fn handler_kinds(&self) -> (r: Vec<HandlerKind>)
        requires
            settings_wf(*self),
        ensures
            brings_up(*self, r@),
            forall|i: int| 0 <= i < r@.len() ==> kind_wf(#[trigger] r@[i]),
    {
        let mut handlers: Vec<HandlerKind> = Vec::new();
        if self.enable_error_handling {
            handlers.push(HandlerKind::ConnectionEvent);
        }
        match &self.exchange_subscription {
            Some((exchange, channels)) => handlers.push(HandlerKind::ExchangeSubscription(*exchange, clone_channels(channels))),
            None => {},
        }
        match self.read_timeout_seconds {
            Some(t) => handlers.push(HandlerKind::ReadTimeout(t)),
            None => {},
        }
        handlers
    }

    /// Starts the handlers: sets up the reader of the connection's channel in
    /// the registry (`fresh` becomes that channel unless it exists already),
    /// and gives the handlers that the settings bring up, in dispatch order.
    pub fn start<H, S>(&self, registry: &mut ConnectionRegistry<H, S>, fresh: S) -> (r: Vec<HandlerKind>)
        requires
            old(registry).wf(),
            settings_wf(*self),
        ensures
            brings_up(*self, r@),
            forall|i: int| 0 <= i < r@.len() ==> kind_wf(#[trigger] r@[i]),
            final(registry).wf(),
            final(registry).channels_view() == if old(registry).channels_view().contains_key(self.connection_name@) {
                old(registry).channels_view()
            } else {
                old(registry).channels_view().insert(self.connection_name@, fresh)
            },
            final(registry).connections_view() == old(registry).connections_view(),
    {
        let _ = registry.setup_reader(self.connection_name.as_str(), fresh);
        self.handler_kinds()
    }

    /// The number of handlers that starting brings up.
    pub fn len(&self) -> (r: usize)
        ensures
            r == handler_count(*self),
    {
        let mut n: usize = 0;
        if self.enable_error_handling {
            n = n + 1;
        }
        if self.exchange_subscription.is_some() {
            n = n + 1;
        }
        if self.read_timeout_seconds.is_some() {
            n = n + 1;
        }
        n
    }

    /// Whether starting brings up no handler.
    pub fn is_empty(&self) -> (r: bool)
        ensures
            r == (handler_count(*self) == 0),
    {
        self.len() == 0
    }
}


/// A running handler with its state.
#[derive(Debug, Clone)]
pub enum LiveHandler {
    ConnectionEvent(ConnectionEventHandler),
    ExchangeSubscription(ExchangeSubscriptionManager),
    ReadTimeout(ReadTimeoutHandler),
}

/// What a handler asks to be done after a message or a check.
#[derive(Debug, Clone)]
pub enum HandlerAction {
    /// Reconnect a connection.
    Reconnect(ReconnectRequest),
    /// Write these frames on the named connection, in order.
    Write(String, Vec<OutgoingFrame>),
}

/// Whether `live` is the running form, started at `now`, of the handler
/// `kind` of the connection `name`.
pub open spec fn runs_as(kind: HandlerKind, name: Seq<char>, now: u128, live: LiveHandler) -> bool {
    match (kind, live) {
        (HandlerKind::ConnectionEvent, LiveHandler::ConnectionEvent(c)) => c.connection_name@ == name,
        (HandlerKind::ExchangeSubscription(ex, chans), LiveHandler::ExchangeSubscription(m)) =>
            m.connection_name@ == name && m.exchange == ex && m.channels == chans,
        (HandlerKind::ReadTimeout(secs), LiveHandler::ReadTimeout(t)) =>
            t.connection_name@ == name && t.last_message_time == now
                && t.timeout_duration == secs as u128 * 1_000_000_000u128
                && t.check_interval == 10u128 * 1_000_000_000u128,
        _ => false,
    }
}

/// How a handler `h` reacts to `message` read at `now`: what it becomes
/// (`h2`) and what it asks (`a`). The connection event handler asks a
/// reconnect on a failure; the subscription manager asks its subscription
/// frames be written on its connection's handshake; the read timeout handler
/// restarts its timer on any message.
pub open spec fn reacts(h: LiveHandler, message: Message, now: u128, h2: LiveHandler, a: Option<HandlerAction>) -> bool {
    match h {
        LiveHandler::ConnectionEvent(c) => h2 == h && if is_connection_failure(message) {
            a matches Some(HandlerAction::Reconnect(q)) && q.connection@ == c.connection_name@ && q.send_close
        } else {
            a is None
        },
        LiveHandler::ExchangeSubscription(m) => h2 == h && if (message matches Message::SuccessfulHandshake(n) && n@ == m.connection_name@) {
            a matches Some(HandlerAction::Write(n2, frames)) && n2@ == m.connection_name@
                && frames_view(frames@) == subscription_frames_of(m.exchange, channels_view(m.channels@))
        } else {
            a is None
        },
        LiveHandler::ReadTimeout(t) => a is None && (h2 matches LiveHandler::ReadTimeout(t2)
            && t2.connection_name@ == t.connection_name@ && t2.last_message_time == now
            && t2.timeout_duration == t.timeout_duration && t2.check_interval == t.check_interval),
    }
}

/// What a handler asks at a periodic check at `now`: a read timeout handler
/// whose timer is older than its timeout asks a reconnect; nothing else
/// asks anything.
pub open spec fn checks(h: LiveHandler, now: u128, a: Option<HandlerAction>) -> bool {
    match h {
        LiveHandler::ReadTimeout(t) => if elapsed_nanos(t.last_message_time, now) > t.timeout_duration {
            a matches Some(HandlerAction::Reconnect(q)) && q.connection@ == t.connection_name@ && q.send_close
        } else {
            a is None
        },
        _ => a is None,
    }
}

/// The handlers of one connection, fed each message in turn.
pub struct Dispatcher {
    pub handlers: Vec<LiveHandler>,
}

/// The running form of one handler.
fn run_handler(kind: HandlerKind, name: &String, now: u128) -> (r: LiveHandler)
    requires
        kind_wf(kind),
    ensures
        runs_as(kind, name@, now, r),
{
    match kind {
        HandlerKind::ConnectionEvent => LiveHandler::ConnectionEvent(ConnectionEventHandler::new(name.clone())),
        HandlerKind::ExchangeSubscription(ex, chans) =>
            LiveHandler::ExchangeSubscription(ExchangeSubscriptionManager::new(name.clone(), ex, chans)),
        HandlerKind::ReadTimeout(secs) => LiveHandler::ReadTimeout(ReadTimeoutHandler::new(name.clone(), secs, now)),
    }
}

/// How one handler reacts to a message read at `now`.
fn react(h: LiveHandler, message: &Message, now: u128) -> (r: (LiveHandler, Option<HandlerAction>))
    ensures
        reacts(h, *message, now, r.0, r.1),
{
    match h {
        LiveHandler::ConnectionEvent(c) => {
            let a = match c.on_message(message) {
                Some(q) => Some(HandlerAction::Reconnect(q)),
                None => None,
            };
            (LiveHandler::ConnectionEvent(c), a)
        },
        LiveHandler::ExchangeSubscription(m) => {
            let a = if m.on_message(message) {
                Some(HandlerAction::Write(m.connection_name.clone(), m.subscription_frames()))
            } else {
                None
            };
            (LiveHandler::ExchangeSubscription(m), a)
        },
        LiveHandler::ReadTimeout(t) => {
            let mut t = t;
            t.on_message(now);
            (LiveHandler::ReadTimeout(t), None)
        },
    }
}

impl Dispatcher {
    /// The running handlers of the connection `name`, started at `now`, one
    /// for each of `kinds`, in the same order.
    pub fn new(name: String, kinds: Vec<HandlerKind>, now: u128) -> (r: Self)
        requires
            forall|i: int| 0 <= i < kinds@.len() ==> kind_wf(#[trigger] kinds@[i]),
        ensures
            r.handlers@.len() == kinds@.len(),
            forall|i: int| 0 <= i < kinds@.len() ==> runs_as(kinds@[i], name@, now, #[trigger] r.handlers@[i]),
    {
        let mut handlers: Vec<LiveHandler> = Vec::new();
        let mut kinds = kinds;
        let ghost all = kinds@;
        let n = kinds.len();
        let mut i: usize = 0;
        while i < n
            invariant
                n == all.len(),
                i <= n,
                kinds@ == all.subrange(i as int, n as int),
                forall|j: int| 0 <= j < n ==> kind_wf(#[trigger] all[j]),
                handlers@.len() == i,
                forall|j: int| 0 <= j < i ==> runs_as(all[j], name@, now, #[trigger] handlers@[j]),
            decreases n - i,
        {
            let kind = kinds.remove(0);
            assert(kind == all[i as int]);
            handlers.push(run_handler(kind, &name, now));
            assert(kinds@ =~= all.subrange(i + 1, n as int));
            i = i + 1;
        }
        Dispatcher { handlers }
    }

    /// Feeds a message read at `now` to every handler in turn, and gives what
    /// each asks, in handler order.
    pub fn on_message(&mut self, message: &Message, now: u128) -> (r: Vec<Option<HandlerAction>>)
        ensures
            r@.len() == old(self).handlers@.len(),
            final(self).handlers@.len() == old(self).handlers@.len(),
            forall|i: int| 0 <= i < r@.len() ==>
                reacts(old(self).handlers@[i], *message, now, #[trigger] final(self).handlers@[i], r@[i]),
    {
        let mut pending: Vec<LiveHandler> = Vec::new();
        std::mem::swap(&mut self.handlers, &mut pending);
        let ghost before = pending@;
        let mut done: Vec<LiveHandler> = Vec::new();
        let mut actions: Vec<Option<HandlerAction>> = Vec::new();
        let n = pending.len();
        let mut i: usize = 0;
        while i < n
            invariant
                n == before.len(),
                i <= n,
                pending@ == before.subrange(i as int, n as int),
                done@.len() == i,
                actions@.len() == i,
                forall|j: int| 0 <= j < i ==> reacts(before[j], *message, now, #[trigger] done@[j], actions@[j]),
            decreases n - i,
        {
            let h = pending.remove(0);
            assert(h == before[i as int]);
            assert(pending@ =~= before.subrange(i + 1, n as int));
            let (h2, a) = react(h, message, now);
            done.push(h2);
            actions.push(a);
            i = i + 1;
        }
        self.handlers = done;
        actions
    }

    /// The periodic check at `now`: what each handler asks, in handler order.
    pub fn on_check(&self, now: u128) -> (r: Vec<Option<HandlerAction>>)
        ensures
            r@.len() == self.handlers@.len(),
            forall|i: int| 0 <= i < r@.len() ==> checks(self.handlers@[i], now, #[trigger] r@[i]),
    {
        let mut actions: Vec<Option<HandlerAction>> = Vec::new();
        let n = self.handlers.len();
        let mut i: usize = 0;
        while i < n
            invariant
                n == self.handlers@.len(),
                i <= n,
                actions@.len() == i,
                forall|j: int| 0 <= j < i ==> checks(self.handlers@[j], now, #[trigger] actions@[j]),
            decreases n - i,
        {
            let a = match &self.handlers[i] {
                LiveHandler::ReadTimeout(t) => match t.on_check(now) {
                    Some(q) => Some(HandlerAction::Reconnect(q)),
                    None => None,
                },
                _ => None,
            };
            actions.push(a);
            i = i + 1;
        }
        actions
    }

    /// After the reconnect that the handler at `index` asked at a check was
    /// carried out at `now`, that handler's timer starts again.
    pub fn reconnect_done(&mut self, index: usize, now: u128)
        ensures
            final(self).handlers@.len() == old(self).handlers@.len(),
            forall|j: int| 0 <= j < old(self).handlers@.len() && j != index ==> final(self).handlers@[j] == old(self).handlers@[j],
            index < old(self).handlers@.len() ==> match old(self).handlers@[index as int] {
                LiveHandler::ReadTimeout(t) => final(self).handlers@[index as int] matches LiveHandler::ReadTimeout(t2)
                    && t2.connection_name@ == t.connection_name@ && t2.last_message_time == now
                    && t2.timeout_duration == t.timeout_duration && t2.check_interval == t.check_interval,
                _ => final(self).handlers@[index as int] == old(self).handlers@[index as int],
            },
    {
        if index < self.handlers.len() {
            let h = self.handlers.remove(index);
            let h2 = match h {
                LiveHandler::ReadTimeout(t) => {
                    let mut t = t;
                    t.on_reconnect_triggered(now);
                    LiveHandler::ReadTimeout(t)
                },
                other => other,
            };
            self.handlers.insert(index, h2);
        }
    }
}

} // verus!
