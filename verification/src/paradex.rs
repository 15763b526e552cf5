//! Paradex: JSON-RPC WebSocket requests and REST payloads.
use vstd::prelude::*;
use crate::text::{join2, owned};

verus! {

/// JSON-RPC 2.0 subscribe / unsubscribe request for Paradex, such as
/// `{"id":1,"jsonrpc":"2.0","method":"subscribe","params":{"channel":"order_book.BTC-USD-PERP"}}`.
#[derive(Debug, Clone)]
pub struct ParadexWssMessage {
    pub id: u32,
    pub jsonrpc: String,
    pub method: String,
    pub params: ParadexWssParams,
}

#[derive(Debug, Clone)]
pub struct ParadexWssParams {
    pub channel: String,
}

/// What a Paradex request holds.
#[verifier::ext_equal]
pub struct ParadexRequestView {
    pub id: u32,
    pub jsonrpc: Seq<char>,
    pub method: Seq<char>,
    pub channel: Seq<char>,
}

impl View for ParadexWssMessage {
    type V = ParadexRequestView;

    open spec fn view(&self) -> ParadexRequestView {
        ParadexRequestView { id: self.id, jsonrpc: self.jsonrpc@, method: self.method@, channel: self.params.channel@ }
    }
}

/// The request with id 1 and the given method and channel.
pub open spec fn paradex_view(method: Seq<char>, channel: Seq<char>) -> ParadexRequestView {
    ParadexRequestView { id: 1, jsonrpc: "2.0"@, method, channel }
}

impl ParadexWssMessage {
    fn new(method: &str, channel: String) -> (r: Self)
        ensures
            r@ == paradex_view(method@, channel@),
    {
        ParadexWssMessage { id: 1, jsonrpc: owned("2.0"), method: owned(method), params: ParadexWssParams { channel } }
    }

    /// Paradex pings every 55 seconds and wants a pong within five. The
    /// manager answers protocol pings itself, so the client-side ping is a
    /// heartbeat subscribe that keeps the connection alive.
    pub fn ping() -> (r: Self)
        ensures
            r@ == paradex_view("subscribe"@, "heartbeat"@),
    {
        Self::new("subscribe", owned("heartbeat"))
    }

    pub fn depth(market: &str) -> (r: Self)
        ensures
            r@ == paradex_view("subscribe"@, "order_book."@ + market@),
    {
        Self::new("subscribe", join2("order_book.", market))
    }

    pub fn depth_unsub(market: &str) -> (r: Self)
        ensures
            r@ == paradex_view("unsubscribe"@, "order_book."@ + market@),
    {
        Self::new("unsubscribe", join2("order_book.", market))
    }

    pub fn trades(market: &str) -> (r: Self)
        ensures
            r@ == paradex_view("subscribe"@, "trades."@ + market@),
    {
        Self::new("subscribe", join2("trades.", market))
    }

    pub fn trades_unsub(market: &str) -> (r: Self)
        ensures
            r@ == paradex_view("unsubscribe"@, "trades."@ + market@),
    {
        Self::new("unsubscribe", join2("trades.", market))
    }

    pub fn bbo(market: &str) -> (r: Self)
        ensures
            r@ == paradex_view("subscribe"@, "bbo."@ + market@),
    {
        Self::new("subscribe", join2("bbo.", market))
    }

    pub fn funding(market: &str) -> (r: Self)
        ensures
            r@ == paradex_view("subscribe"@, "funding_data."@ + market@),
    {
        Self::new("subscribe", join2("funding_data.", market))
    }

    pub fn markets_summary() -> (r: Self)
        ensures
            r@ == paradex_view("subscribe"@, "markets_summary"@),
    {
        Self::new("subscribe", owned("markets_summary"))
    }
}

/// Single market definition from `GET /v1/markets`.
#[derive(Debug, Clone)]
pub struct ParadexMarket {
    pub symbol: String,
    pub base_currency: String,
    pub quote_currency: String,
    pub settlement_currency: String,
    pub expiry_at: i64,
    pub asset_kind: String,
    pub min_notional: String,
    pub tick_size: String,
    pub order_size_increment: String,
    pub max_funding_rate: String,
    pub max_open_orders: u32,
    pub max_order_size: String,
    pub delta_strike: String,
    pub position_limit: String,
}

/// Ticker snapshot from `GET /v1/markets/summary`.
#[derive(Debug, Clone)]
pub struct ParadexMarketSummary {
    pub symbol: String,
    pub bid: String,
    pub ask: String,
    pub last_traded_price: String,
    pub mark_price: String,
    pub index_price: String,
    pub funding_rate: String,
    pub future_funding_rate: String,
    pub total_volume: String,
    pub volume_24h: String,
    pub open_interest: String,
    pub price_change_rate_24h: String,
    pub created_at: i64,
    pub underlying_price: String,
}

/// Order book snapshot from `GET /v1/orderbook/{market}`.
#[derive(Debug, Clone)]
pub struct ParadexOrderBook {
    pub bids: Vec<[String; 2]>,
    pub asks: Vec<[String; 2]>,
    pub seq_no: u64,
    pub last_updated_at: i64,
}

/// Single trade from `GET /v1/markets/{market}/trades`.
#[derive(Debug, Clone)]
pub struct ParadexTrade {
    pub id: String,
    pub symbol: String,
    pub price: String,
    pub size: String,
    pub side: String,
    pub trade_type: String,
    pub created_at: i64,
}

/// OHLCV kline from `GET /v1/markets/{market}/klines`.
#[derive(Debug, Clone)]
pub struct ParadexKline {
    /// Unix timestamp in seconds.
    pub ts: i64,
    pub open: String,
    pub high: String,
    pub low: String,
    pub close: String,
    pub volume: String,
}

/// Historical funding rate from `GET /v1/markets/{market}/funding`.
#[derive(Debug, Clone)]
pub struct ParadexFundingEntry {
    pub symbol: String,
    pub funding_index: String,
    pub funding_premium: String,
    pub funding_rate: String,
    pub created_at: i64,
}

/// Paginated list wrapper used by Paradex REST responses.
#[derive(Debug, Clone)]
pub struct ParadexListResponse<T> {
    pub results: Vec<T>,
    pub next: Option<String>,
    pub prev: Option<String>,
}


} // verus!
