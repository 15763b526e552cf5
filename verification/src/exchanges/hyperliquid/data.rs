//! Hyperliquid: stream payloads, subscription requests, and the upkeep of a
//! local order book from full-book messages.
use vstd::prelude::*;
use crate::candle::{checked_time, kept_time, Candle};
use crate::orderbook::{LocalOrderBookError, LocalOrderBookErrorView};
use crate::text::owned;

verus! {

#[derive(Debug, Clone)]
pub struct HyperliquidBookLevel {
    pub n: u32,
    pub px: String,
    pub sz: String,
}

#[derive(Debug, Clone)]
pub struct HyperliquidBook {
    pub coin: String,
    pub levels: Vec<Vec<HyperliquidBookLevel>>,
    pub time: u64,
}

#[derive(Debug, Clone)]
pub struct HyperliquidBookMessage {
    pub channel: String,
    pub data: HyperliquidBook,
}

#[derive(Debug, Clone)]
pub struct HyperliquidTrade {
    pub coin: String,
    pub hash: String,
    pub px: String,
    pub side: String,
    pub sz: String,
    pub tid: u64,
    pub time: u64,
    pub users: Vec<String>,
}

#[derive(Debug, Clone)]
pub struct HyperliquidTradesMessage {
    pub channel: String,
    pub data: Vec<HyperliquidTrade>,
}

#[derive(Debug, Clone)]
pub struct HyperliquidCandleData {
    pub close_time: u64,
    pub c: String,
    pub h: String,
    pub i: String,
    pub l: String,
    pub n: u32,
    pub o: String,
    pub s: String,
    pub t: u64,
    pub v: String,
}

#[derive(Debug, Clone)]
pub struct HyperliquidCandleMessage {
    pub channel: String,
    pub data: HyperliquidCandleData,
}

#[derive(Debug, Clone)]
pub struct WsBasicOrder {
    pub coin: String,
    pub side: String,
    pub limit_px: String,
    pub sz: String,
    pub oid: u64,
    pub timestamp: u64,
    pub orig_sz: String,
    pub cloid: Option<String>,
}

#[derive(Debug, Clone)]
pub struct WsOrder {
    pub order: WsBasicOrder,
    pub status: String,
    pub status_timestamp: u64,
}

#[derive(Debug, Clone)]
pub struct HyperliquidOrderUpdatesMessage {
    pub channel: String,
    pub data: Vec<WsOrder>,
}

#[derive(Debug, Clone)]
pub struct WsLevel {
    pub px: String,
    pub sz: String,
    pub n: u32,
}

#[derive(Debug, Clone)]
pub struct HyperliquidBbo {
    pub coin: String,
    pub time: u64,
    pub bbo: [Option<WsLevel>; 2],
}

#[derive(Debug, Clone)]
pub struct HyperliquidBboMessage {
    pub channel: String,
    pub data: HyperliquidBbo,
}

#[derive(Debug, Clone)]
pub struct HyperliquidMessage {
    pub method: String,
    pub subscription: Option<HyperliquidSubscriptionType>,
}

#[derive(Debug, Clone)]
pub struct HyperliquidSubscriptionType {
    pub typ: String,
    pub interval: Option<String>,
    pub coin: Option<String>,
    pub user: Option<String>,
}

#[derive(Debug, Clone)]
pub struct WssApi;

/// What a subscription holds.
#[verifier::ext_equal]
pub struct SubscriptionView {
    pub typ: Seq<char>,
    pub interval: Option<Seq<char>>,
    pub coin: Option<Seq<char>>,
    pub user: Option<Seq<char>>,
}

impl View for HyperliquidSubscriptionType {
    type V = SubscriptionView;

    open spec fn view(&self) -> SubscriptionView {
        SubscriptionView {
            typ: self.typ@,
            interval: match self.interval { Some(s) => Some(s@), None => None },
            coin: match self.coin { Some(s) => Some(s@), None => None },
            user: match self.user { Some(s) => Some(s@), None => None },
        }
    }
}

/// What a request holds.
#[verifier::ext_equal]
pub struct HyperliquidMessageView {
    pub method: Seq<char>,
    pub subscription: Option<SubscriptionView>,
}

impl View for HyperliquidMessage {
    type V = HyperliquidMessageView;

    open spec fn view(&self) -> HyperliquidMessageView {
        HyperliquidMessageView {
            method: self.method@,
            subscription: match self.subscription { Some(s) => Some(s@), None => None },
        }
    }
}

/// A subscription of the given type on one coin (no interval, no user).
pub open spec fn coin_view(typ: Seq<char>, coin: Seq<char>) -> SubscriptionView {
    SubscriptionView { typ, interval: None, coin: Some(coin), user: None }
}

/// A subscription of the given type for one user address.
pub open spec fn user_view(typ: Seq<char>, user: Seq<char>) -> SubscriptionView {
    SubscriptionView { typ, interval: None, coin: None, user: Some(user) }
}

impl HyperliquidSubscriptionType {
    fn on_coin(typ: &str, coin: &str) -> (r: Self)
        ensures
            r@ == coin_view(typ@, coin@),
    {
        let r = HyperliquidSubscriptionType { typ: owned(typ), interval: None, coin: Some(owned(coin)), user: None };
        assert(r@ =~~= coin_view(typ@, coin@));
        r
    }

    fn for_user(typ: &str, user: &str) -> (r: Self)
        ensures
            r@ == user_view(typ@, user@),
    {
        let r = HyperliquidSubscriptionType { typ: owned(typ), interval: None, coin: None, user: Some(owned(user)) };
        assert(r@ =~~= user_view(typ@, user@));
        r
    }

    pub fn all_mids() -> (r: Self)
        ensures
            r@ == (SubscriptionView { typ: "allMids"@, interval: None, coin: None, user: None }),
    {
        let r = HyperliquidSubscriptionType { typ: owned("allMids"), interval: None, coin: None, user: None };
        assert(r@ =~~= (SubscriptionView { typ: "allMids"@, interval: None, coin: None, user: None }));
        r
    }

    pub fn l2_book(coin: &str) -> (r: Self)
        ensures
            r@ == coin_view("l2Book"@, coin@),
    {
        Self::on_coin("l2Book", coin)
    }

    pub fn candle(coin: &str) -> (r: Self)
        ensures
            r@ == (SubscriptionView { typ: "candle"@, interval: Some("1m"@), coin: Some(coin@), user: None }),
    {
        let r = HyperliquidSubscriptionType {
            typ: owned("candle"),
            interval: Some(owned("1m")),
            coin: Some(owned(coin)),
            user: None,
        };
        assert(r@ =~~= (SubscriptionView { typ: "candle"@, interval: Some("1m"@), coin: Some(coin@), user: None }));
        r
    }

    pub fn trades(coin: &str) -> (r: Self)
        ensures
            r@ == coin_view("trades"@, coin@),
    {
        Self::on_coin("trades", coin)
    }

    pub fn user_fills(user_address: &str) -> (r: Self)
        ensures
            r@ == user_view("userFills"@, user_address@),
    {
        Self::for_user("userFills", user_address)
    }

    pub fn order_updates(user_address: &str) -> (r: Self)
        ensures
            r@ == user_view("orderUpdates"@, user_address@),
    {
        Self::for_user("orderUpdates", user_address)
    }

    pub fn bbo(coin: &str) -> (r: Self)
        ensures
            r@ == coin_view("bbo"@, coin@),
    {
        Self::on_coin("bbo", coin)
    }
}

/// Upkeep of the local book of one coin. Every book message is a full book,
/// so the caller replaces its book by each one accepted.
pub struct HlOrderBook {
    pub symbol: String,
    pub book_built: bool,
}

impl HlOrderBook {
    pub fn new(symbol: String) -> (r: Self)
        ensures
            r.symbol@ == symbol@,
            !r.book_built,
    {
        HlOrderBook { symbol, book_built: false }
    }

    /// Takes a book message: one for another coin is refused with
    /// `WrongSymbol` and changes nothing; else the book is to be replaced by
    /// it.
    pub fn new_message(&mut self, msg: &HyperliquidBookMessage) -> (r: Result<(), LocalOrderBookError>)
        ensures
            final(self).symbol@ == old(self).symbol@,
            msg.data.coin@ != old(self).symbol@ ==> final(self).book_built == old(self).book_built
                && (r matches Err(e) && e@ == LocalOrderBookErrorView::WrongSymbol(old(self).symbol@, msg.data.coin@)),
            msg.data.coin@ == old(self).symbol@ ==> r is Ok && final(self).book_built,
    {
        if msg.data.coin != self.symbol {
            return Err(LocalOrderBookError::WrongSymbol(self.symbol.clone(), msg.data.coin.clone()));
        }
        self.book_built = true;
        Ok(())
    }
}

/// The request with the given method and subscription.
pub open spec fn message_view(method: Seq<char>, sub: SubscriptionView) -> HyperliquidMessageView {
    HyperliquidMessageView { method, subscription: Some(sub) }
}

impl WssApi {
    fn request(method: &str, sub: HyperliquidSubscriptionType) -> (r: HyperliquidMessage)
        ensures
            r@ == message_view(method@, sub@),
    {
        HyperliquidMessage { method: owned(method), subscription: Some(sub) }
    }

    /// The ping request, to be sent as JSON like every request here.
    pub fn ping() -> (r: HyperliquidMessage)
        ensures
            r@ == (HyperliquidMessageView { method: "ping"@, subscription: None }),
    {
        HyperliquidMessage { method: owned("ping"), subscription: None }
    }

    pub fn candle(coin: &str) -> (r: HyperliquidMessage)
        ensures
            r@ == message_view("subscribe"@, SubscriptionView { typ: "candle"@, interval: Some("1m"@), coin: Some(coin@), user: None }),
    {
        Self::request("subscribe", HyperliquidSubscriptionType::candle(coin))
    }

    pub fn depth(coin: &str) -> (r: HyperliquidMessage)
        ensures
            r@ == message_view("subscribe"@, coin_view("l2Book"@, coin@)),
    {
        Self::request("subscribe", HyperliquidSubscriptionType::l2_book(coin))
    }

    pub fn depth_unsub(coin: &str) -> (r: HyperliquidMessage)
        ensures
            r@ == message_view("unsubscribe"@, coin_view("l2Book"@, coin@)),
    {
        Self::request("unsubscribe", HyperliquidSubscriptionType::l2_book(coin))
    }

    pub fn trades(coin: &str) -> (r: HyperliquidMessage)
        ensures
            r@ == message_view("subscribe"@, coin_view("trades"@, coin@)),
    {
        Self::request("subscribe", HyperliquidSubscriptionType::trades(coin))
    }

    pub fn trades_unsub(coin: &str) -> (r: HyperliquidMessage)
        ensures
            r@ == message_view("unsubscribe"@, coin_view("trades"@, coin@)),
    {
        Self::request("unsubscribe", HyperliquidSubscriptionType::trades(coin))
    }

    pub fn user_fills(user_address: &str) -> (r: HyperliquidMessage)
        ensures
            r@ == message_view("subscribe"@, user_view("userFills"@, user_address@)),
    {
        Self::request("subscribe", HyperliquidSubscriptionType::user_fills(user_address))
    }

    pub fn user_fills_unsub(user_address: &str) -> (r: HyperliquidMessage)
        ensures
            r@ == message_view("unsubscribe"@, user_view("userFills"@, user_address@)),
    {
        Self::request("unsubscribe", HyperliquidSubscriptionType::user_fills(user_address))
    }

    pub fn order_updates(user_address: &str) -> (r: HyperliquidMessage)
        ensures
            r@ == message_view("subscribe"@, user_view("orderUpdates"@, user_address@)),
    {
        Self::request("subscribe", HyperliquidSubscriptionType::order_updates(user_address))
    }

    pub fn order_updates_unsub(user_address: &str) -> (r: HyperliquidMessage)
        ensures
            r@ == message_view("unsubscribe"@, user_view("orderUpdates"@, user_address@)),
    {
        Self::request("unsubscribe", HyperliquidSubscriptionType::order_updates(user_address))
    }

    pub fn bbo(coin: &str) -> (r: HyperliquidMessage)
        ensures
            r@ == message_view("subscribe"@, coin_view("bbo"@, coin@)),
    {
        Self::request("subscribe", HyperliquidSubscriptionType::bbo(coin))
    }

    pub fn bbo_unsub(coin: &str) -> (r: HyperliquidMessage)
        ensures
            r@ == message_view("unsubscribe"@, coin_view("bbo"@, coin@)),
    {
        Self::request("unsubscribe", HyperliquidSubscriptionType::bbo(coin))
    }
}

/// The candle of a Hyperliquid candle message: its prices and volume, its
/// open and close times (each kept as `kept_time` says) and its coin.
impl From<HyperliquidCandleMessage> for Candle {
    fn from(value: HyperliquidCandleMessage) -> (r: Candle)
        ensures
            r.open == value.data.o,
            r.high == value.data.h,
            r.low == value.data.l,
            r.close == value.data.c,
            r.volume == value.data.v,
            r.coin == value.data.s,
            r.time == kept_time(value.data.t as i64),
            r.close_time == kept_time(value.data.close_time as i64),
    {
        let t = value.data.t as i64;
        let close_t = value.data.close_time as i64;
        Candle {
            open: value.data.o,
            high: value.data.h,
            low: value.data.l,
            close: value.data.c,
            volume: value.data.v,
            exchange: "hyperliquid",
            time: checked_time(t),
            close_time: checked_time(close_t),
            coin: value.data.s,
        }
    }
}

impl vstd::std_specs::convert::FromSpecImpl<HyperliquidCandleMessage> for Candle {
    open spec fn obeys_from_spec() -> bool {
        true
    }

    open spec fn from_spec(value: HyperliquidCandleMessage) -> Candle {
        Candle {
            open: value.data.o,
            high: value.data.h,
            low: value.data.l,
            close: value.data.c,
            volume: value.data.v,
            exchange: "hyperliquid",
            time: kept_time(value.data.t as i64),
            close_time: kept_time(value.data.close_time as i64),
            coin: value.data.s,
        }
    }
}

/// A Hyperliquid candle keeps the message's prices where they belong: its
/// open, high, low and close are the message's `o`, `h`, `l` and `c`, its
/// volume `v` and its coin `s`.
pub proof fn lemma_hyperliquid_candle_fields(m: HyperliquidCandleMessage)
    ensures
        <Candle as vstd::std_specs::convert::FromSpec<HyperliquidCandleMessage>>::obeys_from_spec(),
        ({
            let c = <Candle as vstd::std_specs::convert::FromSpec<HyperliquidCandleMessage>>::from_spec(m);
            &&& c.open == m.data.o
            &&& c.high == m.data.h
            &&& c.low == m.data.l
            &&& c.close == m.data.c
            &&& c.volume == m.data.v
            &&& c.coin == m.data.s
        }),
{
}

} // verus!
