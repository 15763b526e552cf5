//! Lighter: WebSocket requests and REST payloads.
use vstd::prelude::*;
use crate::text::{decimal, join2, owned, u64_to_decimal};

verus! {

/// Subscribe / unsubscribe request for Lighter streams, such as
/// `{"type": "subscribe", "channel": "order_book/0"}`.
#[derive(Debug, Clone)]
pub struct LighterWssMessage {
    pub msg_type: String,
    pub channel: String,
}

/// What a Lighter request holds.
#[verifier::ext_equal]
pub struct LighterRequestView {
    pub msg_type: Seq<char>,
    pub channel: Seq<char>,
}

impl View for LighterWssMessage {
    type V = LighterRequestView;

    open spec fn view(&self) -> LighterRequestView {
        LighterRequestView { msg_type: self.msg_type@, channel: self.channel@ }
    }
}

/// The channel of a market: the prefix and the market index in decimal.
pub open spec fn market_channel(prefix: Seq<char>, market_index: u32) -> Seq<char> {
    prefix + decimal(market_index as nat)
}

impl LighterWssMessage {
    fn market_request(msg_type: &str, prefix: &str, market_index: u32) -> (r: Self)
        ensures
            r@ == (LighterRequestView { msg_type: msg_type@, channel: market_channel(prefix@, market_index) }),
    {
        let index = u64_to_decimal(market_index as u64);
        LighterWssMessage { msg_type: owned(msg_type), channel: join2(prefix, index.as_str()) }
    }

    /// Lighter closes connections idle for two minutes; the ping request keeps
    /// one alive.
    pub fn ping() -> (r: Self)
        ensures
            r@ == (LighterRequestView { msg_type: "ping"@, channel: Seq::<char>::empty() }),
    {
        LighterWssMessage { msg_type: owned("ping"), channel: String::new() }
    }

    pub fn depth(market_index: u32) -> (r: Self)
        ensures
            r@ == (LighterRequestView { msg_type: "subscribe"@, channel: market_channel("order_book/"@, market_index) }),
    {
        Self::market_request("subscribe", "order_book/", market_index)
    }

    pub fn depth_unsub(market_index: u32) -> (r: Self)
        ensures
            r@ == (LighterRequestView { msg_type: "unsubscribe"@, channel: market_channel("order_book/"@, market_index) }),
    {
        Self::market_request("unsubscribe", "order_book/", market_index)
    }

    pub fn trades(market_index: u32) -> (r: Self)
        ensures
            r@ == (LighterRequestView { msg_type: "subscribe"@, channel: market_channel("trade/"@, market_index) }),
    {
        Self::market_request("subscribe", "trade/", market_index)
    }

    pub fn trades_unsub(market_index: u32) -> (r: Self)
        ensures
            r@ == (LighterRequestView { msg_type: "unsubscribe"@, channel: market_channel("trade/"@, market_index) }),
    {
        Self::market_request("unsubscribe", "trade/", market_index)
    }

    pub fn market_stats(market_index: u32) -> (r: Self)
        ensures
            r@ == (LighterRequestView { msg_type: "subscribe"@, channel: market_channel("market_stats/"@, market_index) }),
    {
        Self::market_request("subscribe", "market_stats/", market_index)
    }

    pub fn all_market_stats() -> (r: Self)
        ensures
            r@ == (LighterRequestView { msg_type: "subscribe"@, channel: "market_stats/all"@ }),
    {
        LighterWssMessage { msg_type: owned("subscribe"), channel: owned("market_stats/all") }
    }

    pub fn ticker(market_index: u32) -> (r: Self)
        ensures
            r@ == (LighterRequestView { msg_type: "subscribe"@, channel: market_channel("ticker/"@, market_index) }),
    {
        Self::market_request("subscribe", "ticker/", market_index)
    }
}

/// Market metadata from `GET /api/v1/orderBooks`.
#[derive(Debug, Clone)]
pub struct LighterMarket {
    pub market_id: u32,
    pub name: String,
    pub maker_fee: String,
    pub taker_fee: String,
    pub min_order_size: String,
    pub min_order_size_increment: String,
    pub min_price_increment: String,
    pub status: String,
    pub contract_type: String,
}

/// Extended market detail from `GET /api/v1/orderBookDetails`.
#[derive(Debug, Clone)]
pub struct LighterMarketDetail {
    pub market_id: u32,
    pub name: String,
    pub mark_price: String,
    pub index_price: String,
    pub last_price: String,
    pub daily_volume: String,
    pub daily_price_change: String,
    pub open_interest: String,
    pub funding_rate: String,
    pub next_funding_time: i64,
}

/// Order book snapshot from `GET /api/v1/orderBookOrders`.
#[derive(Debug, Clone)]
pub struct LighterOrderBook {
    pub asks: Vec<LighterLevel>,
    pub bids: Vec<LighterLevel>,
}

/// Single price level in the order book.
#[derive(Debug, Clone)]
pub struct LighterLevel {
    pub price: String,
    pub size: String,
}

/// Single trade from `GET /api/v1/recentTrades`.
#[derive(Debug, Clone)]
pub struct LighterTrade {
    pub price: String,
    pub size: String,
    pub side: String,
    pub timestamp: i64,
    pub market_id: u32,
}

/// Funding rate entry from `GET /api/v1/funding-rates`.
#[derive(Debug, Clone)]
pub struct LighterFundingRate {
    pub market_id: u32,
    pub name: String,
    pub funding_rate: String,
    pub funding_period: String,
    pub binance_funding_rate: String,
    pub bybit_funding_rate: String,
    pub hyperliquid_funding_rate: String,
}

/// Wrapper returned by the `/orderBooks` endpoint.
#[derive(Debug, Clone)]
pub struct LighterMarketsResponse {
    pub order_books: Vec<LighterMarket>,
}

/// Wrapper returned by the `/orderBookDetails` endpoint.
#[derive(Debug, Clone)]
pub struct LighterMarketDetailsResponse {
    pub order_book_details: Vec<LighterMarketDetail>,
}

/// Wrapper returned by the `/funding-rates` endpoint.
#[derive(Debug, Clone)]
pub struct LighterFundingRatesResponse {
    pub funding_rates: Vec<LighterFundingRate>,
}


} // verus!
