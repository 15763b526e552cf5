//! Pacifica: WebSocket requests and REST payloads.
use vstd::prelude::*;
use crate::text::owned;

verus! {

/// Subscribe / unsubscribe / ping request for Pacifica streams.
#[derive(Debug, Clone)]
pub struct PacificaWssMessage {
    pub method: String,
    pub params: Option<PacificaSubscribeParams>,
}

#[derive(Debug, Clone)]
pub struct PacificaSubscribeParams {
    pub channel: String,
    pub market: Option<String>,
    pub interval: Option<String>,
}

/// What the parameters of a Pacifica request hold.
#[verifier::ext_equal]
pub struct PacificaParamsView {
    pub channel: Seq<char>,
    pub market: Option<Seq<char>>,
    pub interval: Option<Seq<char>>,
}

/// What a Pacifica request holds.
#[verifier::ext_equal]
pub struct PacificaRequestView {
    pub method: Seq<char>,
    pub params: Option<PacificaParamsView>,
}

impl View for PacificaSubscribeParams {
    type V = PacificaParamsView;

    open spec fn view(&self) -> PacificaParamsView {
        PacificaParamsView { channel: self.channel@, market: self.market.deep_view(), interval: self.interval.deep_view() }
    }
}

impl View for PacificaWssMessage {
    type V = PacificaRequestView;

    open spec fn view(&self) -> PacificaRequestView {
        PacificaRequestView {
            method: self.method@,
            params: match self.params {
                Some(p) => Some(p@),
                None => None,
            },
        }
    }
}

/// The request with the given method on one channel of one market.
pub open spec fn pacifica_view(method: Seq<char>, channel: Seq<char>, market: Seq<char>, interval: Option<Seq<char>>) -> PacificaRequestView {
    PacificaRequestView {
        method,
        params: Some(PacificaParamsView { channel, market: Some(market), interval }),
    }
}

impl PacificaWssMessage {
    fn market_request(method: &str, channel: &str, symbol: &str) -> (r: Self)
        ensures
            r@ == pacifica_view(method@, channel@, symbol@, None),
    {
        let params = PacificaSubscribeParams { channel: owned(channel), market: Some(owned(symbol)), interval: None };
        let r = PacificaWssMessage { method: owned(method), params: Some(params) };
        assert(r@ =~~= pacifica_view(method@, channel@, symbol@, None));
        r
    }

    pub fn ping() -> (r: Self)
        ensures
            r@ == (PacificaRequestView { method: "ping"@, params: None }),
    {
        PacificaWssMessage { method: owned("ping"), params: None }
    }

    pub fn depth(symbol: &str) -> (r: Self)
        ensures
            r@ == pacifica_view("subscribe"@, "orderbook"@, symbol@, None),
    {
        Self::market_request("subscribe", "orderbook", symbol)
    }

    pub fn depth_unsub(symbol: &str) -> (r: Self)
        ensures
            r@ == pacifica_view("unsubscribe"@, "orderbook"@, symbol@, None),
    {
        Self::market_request("unsubscribe", "orderbook", symbol)
    }

    pub fn trades(symbol: &str) -> (r: Self)
        ensures
            r@ == pacifica_view("subscribe"@, "trade"@, symbol@, None),
    {
        Self::market_request("subscribe", "trade", symbol)
    }

    pub fn trades_unsub(symbol: &str) -> (r: Self)
        ensures
            r@ == pacifica_view("unsubscribe"@, "trade"@, symbol@, None),
    {
        Self::market_request("unsubscribe", "trade", symbol)
    }

    /// One-minute candles of a market.
    pub fn candles(symbol: &str) -> (r: Self)
        ensures
            r@ == pacifica_view("subscribe"@, "candle"@, symbol@, Some("1m"@)),
    {
        let params = PacificaSubscribeParams {
            channel: owned("candle"),
            market: Some(owned(symbol)),
            interval: Some(owned("1m")),
        };
        let r = PacificaWssMessage { method: owned("subscribe"), params: Some(params) };
        assert(r@ =~~= pacifica_view("subscribe"@, "candle"@, symbol@, Some("1m"@)));
        r
    }

    /// The mark price, read from the `ticker` channel.
    pub fn mark_price(symbol: &str) -> (r: Self)
        ensures
            r@ == pacifica_view("subscribe"@, "ticker"@, symbol@, None),
    {
        Self::market_request("subscribe", "ticker", symbol)
    }
}

/// Market metadata from `GET /api/v1/markets`.
#[derive(Debug, Clone)]
pub struct PacificaMarket {
    pub symbol: String,
    pub base_asset: String,
    pub quote_asset: String,
    pub status: String,
    pub min_qty: String,
    pub max_qty: String,
    pub tick_size: String,
    pub step_size: String,
    pub max_leverage: String,
}

/// Ticker snapshot from `GET /api/v1/ticker`.
#[derive(Debug, Clone)]
pub struct PacificaTicker {
    pub symbol: String,
    pub last_price: String,
    pub mark_price: String,
    pub index_price: String,
    pub funding_rate: String,
    pub next_funding_time: i64,
    pub open_interest: String,
    pub volume_24h: String,
    pub price_change_24h: String,
    pub high_price_24h: String,
    pub low_price_24h: String,
}

/// Order book snapshot from `GET /api/v1/orderbook`.
#[derive(Debug, Clone)]
pub struct PacificaOrderBook {
    pub bids: Vec<[String; 2]>,
    pub asks: Vec<[String; 2]>,
    pub timestamp: i64,
    pub symbol: String,
}

/// Single trade from `GET /api/v1/trades`.
#[derive(Debug, Clone)]
pub struct PacificaTrade {
    pub symbol: String,
    pub price: String,
    pub qty: String,
    pub side: String,
    pub timestamp: i64,
    pub trade_id: String,
}

/// Historical funding rate from `GET /api/v1/funding-rate`.
#[derive(Debug, Clone)]
pub struct PacificaFundingRate {
    pub symbol: String,
    pub funding_rate: String,
    pub funding_time: i64,
    pub mark_price: String,
}

/// OHLCV kline from `GET /api/v1/klines`.
#[derive(Debug, Clone)]
pub struct PacificaKline {
    pub open_time: i64,
    pub open: String,
    pub high: String,
    pub low: String,
    pub close: String,
    pub volume: String,
    pub close_time: i64,
}


} // verus!
