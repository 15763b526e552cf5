//! The handler that subscribes a connection to its configured feeds once the
//! connection's handshake succeeded.
use vstd::prelude::*;
use crate::binance::ws::request_view;
use crate::text::{clone_all, eq_str, extend_strings, stream_names};
use crate::websocket_supported_exchanges::{
    depth_frame, trades_frame, FrameView, OutgoingFrame, WebsocketSupportedExchanges,
};
use crate::ws_mgr::manager::Message;

verus! {

/// What a list of channel entries holds: each entry is a channel kind
/// (`depth` or `trades`) with its coins.
pub open spec fn channels_view(channels: Seq<(String, Vec<String>)>) -> Seq<(Seq<char>, Seq<Seq<char>>)> {
    channels.map_values(|c: (String, Vec<String>)| (c.0@, c.1.deep_view()))
}

/// Whether no channel kind has two entries, as the keys of a map.
pub open spec fn distinct_kinds(channels: Seq<(Seq<char>, Seq<Seq<char>>)>) -> bool {
    forall|i: int, j: int| 0 <= i < j < channels.len() ==> #[trigger] channels[i].0 != #[trigger] channels[j].0
}

/// Whether no channel kind has two entries in a list, as `distinct_kinds`
/// says.
pub fn has_distinct_kinds(channels: &Vec<(String, Vec<String>)>) -> (r: bool)
    ensures
        r == distinct_kinds(channels_view(channels@)),
{
    let n = channels.len();
    let ghost v = channels_view(channels@);
    let mut i: usize = 0;
    while i < n
        invariant
            n == channels@.len(),
            v == channels_view(channels@),
            i <= n,
            forall|a: int, b: int| 0 <= a < b < n && a < i ==> #[trigger] v[a].0 != #[trigger] v[b].0,
        decreases n - i,
    {
        let mut j: usize = i + 1;
        while j < n
            invariant
                n == channels@.len(),
                v == channels_view(channels@),
                i < n,
                i + 1 <= j <= n,
                forall|a: int, b: int| 0 <= a < b < n && a < i ==> #[trigger] v[a].0 != #[trigger] v[b].0,
                forall|b: int| i < b < j ==> v[i as int].0 != #[trigger] v[b].0,
            decreases n - j,
        {
            if channels[i].0 == channels[j].0 {
                assert(v[i as int].0 == v[j as int].0);
                return false;
            }
            j = j + 1;
        }
        i = i + 1;
    }
    true
}

/// The coins of every entry of the given kind, in entry order.
pub open spec fn symbols_of(channels: Seq<(Seq<char>, Seq<Seq<char>>)>, kind: Seq<char>) -> Seq<Seq<char>>
    decreases channels.len(),
{
    if channels.len() == 0 {
        Seq::empty()
    } else {
        let prev = symbols_of(channels.drop_last(), kind);
        if channels.last().0 == kind { prev + channels.last().1 } else { prev }
    }
}

/// The subscriptions of one entry, one per coin: depth for `depth`, trades
/// for `trades`, none for any other kind.
pub open spec fn entry_frames(ex: WebsocketSupportedExchanges, kind: Seq<char>, coins: Seq<Seq<char>>) -> Seq<FrameView> {
    if kind == "depth"@ {
        coins.map_values(|c: Seq<char>| depth_frame(ex, c))
    } else if kind == "trades"@ {
        coins.map_values(|c: Seq<char>| trades_frame(ex, c))
    } else {
        Seq::empty()
    }
}

/// The subscriptions sent one coin at a time, entry after entry.
pub open spec fn individual_frames(ex: WebsocketSupportedExchanges, channels: Seq<(Seq<char>, Seq<Seq<char>>)>) -> Seq<FrameView>
    decreases channels.len(),
{
    if channels.len() == 0 {
        Seq::empty()
    } else {
        individual_frames(ex, channels.drop_last()) + entry_frames(ex, channels.last().0, channels.last().1)
    }
}

/// The subscriptions sent to Binance: one batched depth request for all depth
/// coins and one batched trade request for all trade coins, each only when
/// it has coins.
pub open spec fn binance_frames(channels: Seq<(Seq<char>, Seq<Seq<char>>)>) -> Seq<FrameView> {
    let depth = symbols_of(channels, "depth"@);
    let trades = symbols_of(channels, "trades"@);
    (if depth.len() > 0 {
        seq![FrameView::Binance(request_view("SUBSCRIBE"@, stream_names(depth, "@depth@100ms"@)))]
    } else {
        Seq::empty()
    }) + (if trades.len() > 0 {
        seq![FrameView::Binance(request_view("SUBSCRIBE"@, stream_names(trades, "@trade"@)))]
    } else {
        Seq::empty()
    })
}

/// The subscriptions of an exchange for the given entries: Binance batches
/// them; every other exchange gets one request per coin.
pub open spec fn subscription_frames_of(ex: WebsocketSupportedExchanges, channels: Seq<(Seq<char>, Seq<Seq<char>>)>) -> Seq<FrameView> {
    if ex == WebsocketSupportedExchanges::Binance {
        binance_frames(channels)
    } else {
        individual_frames(ex, channels)
    }
}

/// The views of a list of frames.
pub open spec fn frames_view(frames: Seq<OutgoingFrame>) -> Seq<FrameView> {
    frames.map_values(|f: OutgoingFrame| f@)
}

/// Subscribes one connection to the feeds of its entries, once its handshake
/// succeeded. The entries are kept in the order in which they are walked.
#[derive(Debug, Clone)]
pub struct ExchangeSubscriptionManager {
    pub connection_name: String,
    pub exchange: WebsocketSupportedExchanges,
    pub channels: Vec<(String, Vec<String>)>,
}

/// A copy of a list of channel entries.
pub fn clone_channels(channels: &Vec<(String, Vec<String>)>) -> (r: Vec<(String, Vec<String>)>)
    ensures
        r.deep_view() == channels.deep_view(),
        channels_view(r@) == channels_view(channels@),
{
    let mut out: Vec<(String, Vec<String>)> = Vec::new();
    let mut i: usize = 0;
    while i < channels.len()
        invariant
            i <= channels.len(),
            out.deep_view() =~= channels.deep_view().take(i as int),
            channels_view(out@) =~= channels_view(channels@).take(i as int),
        decreases channels.len() - i,
    {
        let name = channels[i].0.clone();
        let coins = clone_all(channels[i].1.as_slice());
        let ghost before = out@;
        out.push((name, coins));
        assert(out@ == before.push((name, coins)));
        assert(channels.deep_view().take(i + 1) =~= channels.deep_view().take(i as int).push(channels.deep_view()[i as int]));
        assert(channels_view(channels@).take(i + 1) =~= channels_view(channels@).take(i as int).push(channels_view(channels@)[i as int]));
        i = i + 1;
    }
    assert(channels.deep_view().take(i as int) =~= channels.deep_view());
    assert(channels_view(channels@).take(i as int) =~= channels_view(channels@));
    out
}

fn symbols_of_kind(channels: &Vec<(String, Vec<String>)>, kind: &str) -> (r: Vec<String>)
    ensures
        r.deep_view() == symbols_of(channels_view(channels@), kind@),
{
    let mut out: Vec<String> = Vec::new();
    let mut i: usize = 0;
    while i < channels.len()
        invariant
            i <= channels.len(),
            out.deep_view() == symbols_of(channels_view(channels@.take(i as int)), kind@),
        decreases channels.len() - i,
    {
        let ghost prefix = channels_view(channels@.take(i as int));
        assert(channels_view(channels@.take(i + 1)).drop_last() =~= prefix);
        if eq_str(&channels[i].0, kind) {
            extend_strings(&mut out, &channels[i].1);
        }
        i = i + 1;
    }
    assert(channels@.take(i as int) =~= channels@);
    out
}

fn entry_frames_exec(ex: WebsocketSupportedExchanges, kind: &String, coins: &Vec<String>, out: &mut Vec<OutgoingFrame>)
    ensures
        frames_view(final(out)@) == frames_view(old(out)@) + entry_frames(ex, kind@, coins.deep_view()),
{
    let is_depth = eq_str(kind, "depth");
    let is_trades = eq_str(kind, "trades");
    if !is_depth && !is_trades {
        assert(frames_view(out@) =~= frames_view(out@) + entry_frames(ex, kind@, coins.deep_view()));
        return;
    }
    let ghost start = frames_view(out@);
    let mut j: usize = 0;
    while j < coins.len()
        invariant
            j <= coins.len(),
            is_depth == (kind@ == "depth"@),
            is_trades == (kind@ == "trades"@),
            is_depth || is_trades,
            frames_view(out@) =~= start + entry_frames(ex, kind@, coins.deep_view().take(j as int)),
        decreases coins.len() - j,
    {
        let ghost before = out@;
        let f = if is_depth { ex.depth(coins[j].as_str()) } else { ex.trades(coins[j].as_str()) };
        out.push(f);
        assert(coins.deep_view().take(j + 1) =~= coins.deep_view().take(j as int).push(coins@[j as int]@));
        assert(frames_view(out@) =~= frames_view(before).push(f@));
        assert(entry_frames(ex, kind@, coins.deep_view().take(j + 1))
            =~= entry_frames(ex, kind@, coins.deep_view().take(j as int)).push(f@));
        j = j + 1;
    }
    assert(coins.deep_view().take(j as int) =~= coins.deep_view());
}

impl ExchangeSubscriptionManager {
    pub fn new(connection_name: String, exchange: WebsocketSupportedExchanges, channels: Vec<(String, Vec<String>)>) -> (r: Self)
        requires
            distinct_kinds(channels_view(channels@)),
        ensures
            r.connection_name == connection_name,
            r.exchange == exchange,
            r.channels == channels,
    {
        ExchangeSubscriptionManager { connection_name, exchange, channels }
    }

    /// The frames that subscribe the connection to all its entries, in the
    /// order in which they are sent.
    pub fn subscription_frames(&self) -> (r: Vec<OutgoingFrame>)
        ensures
            frames_view(r@) == subscription_frames_of(self.exchange, channels_view(self.channels@)),
    {
        let mut out: Vec<OutgoingFrame> = Vec::new();
        if self.exchange == WebsocketSupportedExchanges::Binance {
            let depth = symbols_of_kind(&self.channels, "depth");
            let trades = symbols_of_kind(&self.channels, "trades");
            if depth.len() > 0 {
                match self.exchange.batch_depth(depth.as_slice()) {
                    Some(f) => out.push(f),
                    None => {},
                }
            }
            let ghost after_depth = frames_view(out@);
            if trades.len() > 0 {
                match self.exchange.batch_trades(trades.as_slice()) {
                    Some(f) => out.push(f),
                    None => {},
                }
            }
            assert(frames_view(out@) =~= binance_frames(channels_view(self.channels@)));
        } else {
            let mut i: usize = 0;
            while i < self.channels.len()
                invariant
                    i <= self.channels.len(),
                    self.exchange != WebsocketSupportedExchanges::Binance,
                    frames_view(out@) == individual_frames(self.exchange, channels_view(self.channels@.take(i as int))),
                decreases self.channels.len() - i,
            {
                let ghost prefix = channels_view(self.channels@.take(i as int));
                assert(channels_view(self.channels@.take(i + 1)).drop_last() =~= prefix);
                entry_frames_exec(self.exchange, &self.channels[i].0, &self.channels[i].1, &mut out);
                i = i + 1;
            }
            assert(self.channels@.take(i as int) =~= self.channels@);
        }
        out
    }

    /// Whether a message is the successful handshake of this connection, on
    /// which the subscriptions are sent.
    pub fn on_message(&self, message: &Message) -> (r: bool)
        ensures
            r == (message matches Message::SuccessfulHandshake(n) && n@ == self.connection_name@),
    {
        match message {
            Message::SuccessfulHandshake(n) => *n == self.connection_name,
            _ => false,
        }
    }
}

} // verus!
