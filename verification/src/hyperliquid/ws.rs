//! Hyperliquid WebSocket requests and stream payloads.
use vstd::prelude::*;
use crate::text::owned;

verus! {

#[derive(Debug, Clone)]
pub struct HyperliquidWssSubscription {
    pub typ: String,
    pub interval: Option<String>,
    pub coin: Option<String>,
    pub user: Option<String>,
}

/// Subscribe / unsubscribe / ping request for Hyperliquid streams.
#[derive(Debug, Clone)]
pub struct HyperliquidWssMessage {
    pub method: String,
    pub subscription: Option<HyperliquidWssSubscription>,
}

/// What the subscription of a Hyperliquid request holds.
#[verifier::ext_equal]
pub struct HyperliquidSubscriptionView {
    pub typ: Seq<char>,
    pub interval: Option<Seq<char>>,
    pub coin: Option<Seq<char>>,
    pub user: Option<Seq<char>>,
}

/// What a Hyperliquid request holds.
#[verifier::ext_equal]
pub struct HyperliquidRequestView {
    pub method: Seq<char>,
    pub subscription: Option<HyperliquidSubscriptionView>,
}

impl View for HyperliquidWssSubscription {
    type V = HyperliquidSubscriptionView;

    open spec fn view(&self) -> HyperliquidSubscriptionView {
        HyperliquidSubscriptionView {
            typ: self.typ@,
            interval: self.interval.deep_view(),
            coin: self.coin.deep_view(),
            user: self.user.deep_view(),
        }
    }
}

impl View for HyperliquidWssMessage {
    type V = HyperliquidRequestView;

    open spec fn view(&self) -> HyperliquidRequestView {
        HyperliquidRequestView {
            method: self.method@,
            subscription: match self.subscription {
                Some(s) => Some(s@),
                None => None,
            },
        }
    }
}

/// The subscription of a coin-level stream.
pub open spec fn coin_subscription(typ: Seq<char>, interval: Option<Seq<char>>, coin: Seq<char>) -> HyperliquidSubscriptionView {
    HyperliquidSubscriptionView { typ, interval, coin: Some(coin), user: None }
}

/// The subscription of a user-level stream.
pub open spec fn user_subscription(typ: Seq<char>, user: Seq<char>) -> HyperliquidSubscriptionView {
    HyperliquidSubscriptionView { typ, interval: None, coin: None, user: Some(user) }
}

/// The request with the given method and subscription.
pub open spec fn hyperliquid_view(method: Seq<char>, subscription: HyperliquidSubscriptionView) -> HyperliquidRequestView {
    HyperliquidRequestView { method, subscription: Some(subscription) }
}

impl HyperliquidWssMessage {
    fn coin_request(method: &str, typ: &str, interval: Option<&str>, coin: &str) -> (r: Self)
        ensures
            r@ == hyperliquid_view(method@, coin_subscription(typ@, match interval {
                Some(i) => Some(i@),
                None => None,
            }, coin@)),
    {
        let interval = match interval {
            Some(i) => Some(owned(i)),
            None => None,
        };
        let r = HyperliquidWssMessage {
            method: owned(method),
            subscription: Some(HyperliquidWssSubscription {
                typ: owned(typ),
                interval,
                coin: Some(owned(coin)),
                user: None,
            }),
        };
        r
    }

    fn user_request(method: &str, typ: &str, user: &str) -> (r: Self)
        ensures
            r@ == hyperliquid_view(method@, user_subscription(typ@, user@)),
    {
        HyperliquidWssMessage {
            method: owned(method),
            subscription: Some(HyperliquidWssSubscription {
                typ: owned(typ),
                interval: None,
                coin: None,
                user: Some(owned(user)),
            }),
        }
    }

    pub fn ping() -> (r: Self)
        ensures
            r@ == (HyperliquidRequestView { method: "ping"@, subscription: None }),
    {
        HyperliquidWssMessage { method: owned("ping"), subscription: None }
    }

    /// Mid prices of every coin.
    pub fn all_mids() -> (r: Self)
        ensures
            r@ == hyperliquid_view("subscribe"@, HyperliquidSubscriptionView { typ: "allMids"@, interval: None, coin: None, user: None }),
    {
        HyperliquidWssMessage {
            method: owned("subscribe"),
            subscription: Some(HyperliquidWssSubscription { typ: owned("allMids"), interval: None, coin: None, user: None }),
        }
    }

    pub fn l2_book(coin: &str) -> (r: Self)
        ensures
            r@ == hyperliquid_view("subscribe"@, coin_subscription("l2Book"@, None, coin@)),
    {
        Self::coin_request("subscribe", "l2Book", None, coin)
    }

    pub fn l2_book_unsub(coin: &str) -> (r: Self)
        ensures
            r@ == hyperliquid_view("unsubscribe"@, coin_subscription("l2Book"@, None, coin@)),
    {
        Self::coin_request("unsubscribe", "l2Book", None, coin)
    }

    /// One-minute candles of a coin.
    pub fn candle(coin: &str) -> (r: Self)
        ensures
            r@ == hyperliquid_view("subscribe"@, coin_subscription("candle"@, Some("1m"@), coin@)),
    {
        Self::coin_request("subscribe", "candle", Some("1m"), coin)
    }

    pub fn candle_unsub(coin: &str) -> (r: Self)
        ensures
            r@ == hyperliquid_view("unsubscribe"@, coin_subscription("candle"@, Some("1m"@), coin@)),
    {
        Self::coin_request("unsubscribe", "candle", Some("1m"), coin)
    }

    pub fn trades(coin: &str) -> (r: Self)
        ensures
            r@ == hyperliquid_view("subscribe"@, coin_subscription("trades"@, None, coin@)),
    {
        Self::coin_request("subscribe", "trades", None, coin)
    }

    pub fn trades_unsub(coin: &str) -> (r: Self)
        ensures
            r@ == hyperliquid_view("unsubscribe"@, coin_subscription("trades"@, None, coin@)),
    {
        Self::coin_request("unsubscribe", "trades", None, coin)
    }

    pub fn user_fills(user_address: &str) -> (r: Self)
        ensures
            r@ == hyperliquid_view("subscribe"@, user_subscription("userFills"@, user_address@)),
    {
        Self::user_request("subscribe", "userFills", user_address)
    }

    pub fn user_fills_unsub(user_address: &str) -> (r: Self)
        ensures
            r@ == hyperliquid_view("unsubscribe"@, user_subscription("userFills"@, user_address@)),
    {
        Self::user_request("unsubscribe", "userFills", user_address)
    }

    pub fn order_updates(user_address: &str) -> (r: Self)
        ensures
            r@ == hyperliquid_view("subscribe"@, user_subscription("orderUpdates"@, user_address@)),
    {
        Self::user_request("subscribe", "orderUpdates", user_address)
    }

    pub fn order_updates_unsub(user_address: &str) -> (r: Self)
        ensures
            r@ == hyperliquid_view("unsubscribe"@, user_subscription("orderUpdates"@, user_address@)),
    {
        Self::user_request("unsubscribe", "orderUpdates", user_address)
    }

    /// Best bid and offer of a coin.
    pub fn bbo(coin: &str) -> (r: Self)
        ensures
            r@ == hyperliquid_view("subscribe"@, coin_subscription("bbo"@, None, coin@)),
    {
        Self::coin_request("subscribe", "bbo", None, coin)
    }

    pub fn bbo_unsub(coin: &str) -> (r: Self)
        ensures
            r@ == hyperliquid_view("unsubscribe"@, coin_subscription("bbo"@, None, coin@)),
    {
        Self::coin_request("unsubscribe", "bbo", None, coin)
    }
}

#[derive(Debug, Clone)]
pub struct HyperliquidBookLevel {
    pub n: u32,
    pub px: String,
    pub sz: String,
}

#[derive(Debug, Clone)]
pub struct HyperliquidBook {
    pub coin: String,
    pub levels: Vec<Vec<HyperliquidBookLevel>>,
    pub time: u64,
}

#[derive(Debug, Clone)]
pub struct HyperliquidBookMessage {
    pub channel: String,
    pub data: HyperliquidBook,
}

#[derive(Debug, Clone)]
pub struct HyperliquidTrade {
    pub coin: String,
    pub hash: String,
    pub px: String,
    pub side: String,
    pub sz: String,
    pub tid: u64,
    pub time: u64,
    pub users: Vec<String>,
}

#[derive(Debug, Clone)]
pub struct HyperliquidTradesMessage {
    pub channel: String,
    pub data: Vec<HyperliquidTrade>,
}

#[derive(Debug, Clone)]
pub struct HyperliquidCandleData {
    pub close_time: u64,
    pub c: String,
    pub h: String,
    pub i: String,
    pub l: String,
    pub n: u32,
    pub o: String,
    pub s: String,
    pub t: u64,
    pub v: String,
}

#[derive(Debug, Clone)]
pub struct HyperliquidCandleMessage {
    pub channel: String,
    pub data: HyperliquidCandleData,
}

#[derive(Debug, Clone)]
pub struct WsBasicOrder {
    pub coin: String,
    pub side: String,
    pub limit_px: String,
    pub sz: String,
    pub oid: u64,
    pub timestamp: u64,
    pub orig_sz: String,
    pub cloid: Option<String>,
}

#[derive(Debug, Clone)]
pub struct WsOrder {
    pub order: WsBasicOrder,
    pub status: String,
    pub status_timestamp: u64,
}

#[derive(Debug, Clone)]
pub struct HyperliquidOrderUpdatesMessage {
    pub channel: String,
    pub data: Vec<WsOrder>,
}

#[derive(Debug, Clone)]
pub struct WsLevel {
    pub px: String,
    pub sz: String,
    pub n: u32,
}

#[derive(Debug, Clone)]
pub struct HyperliquidBbo {
    pub coin: String,
    pub time: u64,
    pub bbo: [Option<WsLevel>; 2],
}

#[derive(Debug, Clone)]
pub struct HyperliquidBboMessage {
    pub channel: String,
    pub data: HyperliquidBbo,
}

} // verus!
