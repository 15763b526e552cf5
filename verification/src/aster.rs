//! Aster: subscription requests (Aster speaks the Binance Futures stream
//! protocol) and the shapes of its REST and stream payloads.
use vstd::prelude::*;
use crate::binance::ws::{request_view, ping_view, RequestView};
use crate::text::{owned, single, stream, stream_name};

verus! {

/// Subscribe / unsubscribe / ping request for Aster WebSocket streams.
#[derive(Debug, Clone)]
pub struct AsterWssMessage {
    pub id: u32,
    pub method: String,
    pub params: Option<Vec<String>>,
}

impl View for AsterWssMessage {
    type V = RequestView;

    open spec fn view(&self) -> RequestView {
        RequestView { id: self.id, method: self.method@, params: self.params.deep_view() }
    }
}

impl AsterWssMessage {
    fn request(method: &str, param: String) -> (r: Self)
        ensures
            r@ == request_view(method@, seq![param@]),
    {
        let r = AsterWssMessage { id: 1, method: owned(method), params: Some(single(param)) };
        assert(r@ =~~= request_view(method@, seq![param@]));
        r
    }

    pub fn ping() -> (r: Self)
        ensures
            r@ == ping_view(),
    {
        let r = AsterWssMessage { id: 1, method: owned("ping"), params: None };
        assert(r@ =~~= ping_view());
        r
    }

    pub fn depth(symbol: &str) -> (r: Self)
        ensures
            r@ == request_view("SUBSCRIBE"@, seq![stream_name(symbol@, "@depth@100ms"@)]),
    {
        Self::request("SUBSCRIBE", stream(symbol, "@depth@100ms"))
    }

    pub fn depth_unsub(symbol: &str) -> (r: Self)
        ensures
            r@ == request_view("UNSUBSCRIBE"@, seq![stream_name(symbol@, "@depth@100ms"@)]),
    {
        Self::request("UNSUBSCRIBE", stream(symbol, "@depth@100ms"))
    }

    pub fn trades(symbol: &str) -> (r: Self)
        ensures
            r@ == request_view("SUBSCRIBE"@, seq![stream_name(symbol@, "@aggTrade"@)]),
    {
        Self::request("SUBSCRIBE", stream(symbol, "@aggTrade"))
    }

    pub fn trades_unsub(symbol: &str) -> (r: Self)
        ensures
            r@ == request_view("UNSUBSCRIBE"@, seq![stream_name(symbol@, "@aggTrade"@)]),
    {
        Self::request("UNSUBSCRIBE", stream(symbol, "@aggTrade"))
    }

    pub fn mark_price(symbol: &str) -> (r: Self)
        ensures
            r@ == request_view("SUBSCRIBE"@, seq![stream_name(symbol@, "@markPrice"@)]),
    {
        Self::request("SUBSCRIBE", stream(symbol, "@markPrice"))
    }

    pub fn klines(symbol: &str) -> (r: Self)
        ensures
            r@ == request_view("SUBSCRIBE"@, seq![stream_name(symbol@, "@kline_1m"@)]),
    {
        Self::request("SUBSCRIBE", stream(symbol, "@kline_1m"))
    }
}

/// Mark price and funding rate for a single symbol (`GET /fapi/v1/markPrice`).
#[derive(Debug, Clone)]
pub struct AsterMarkPrice {
    pub symbol: String,
    pub mark_price: String,
    pub index_price: String,
    pub last_funding_rate: String,
    pub next_funding_time: i64,
    pub time: i64,
}

/// Historical funding rate entry (`GET /fapi/v1/fundingRate`).
#[derive(Debug, Clone)]
pub struct AsterFundingRate {
    pub symbol: String,
    pub funding_rate: String,
    pub funding_time: i64,
    pub mark_price: String,
}

/// 24-hour ticker statistics (`GET /fapi/v1/ticker/24hr`).
#[derive(Debug, Clone)]
pub struct AsterTicker24hr {
    pub symbol: String,
    pub price_change: String,
    pub price_change_percent: String,
    pub weighted_avg_price: String,
    pub last_price: String,
    pub volume: String,
    pub quote_volume: String,
    pub open_time: i64,
    pub close_time: i64,
    pub open_price: String,
    pub high_price: String,
    pub low_price: String,
}

/// OHLCV kline entry.
/// Aster returns klines as arrays: [open_time, open, high, low, close, volume,
/// close_time, quote_volume, num_trades, taker_buy_base, taker_buy_quote, ignore]
#[derive(Debug, Clone)]
pub struct AsterKline {
    pub open_time: i64,
    pub open: String,
    pub high: String,
    pub low: String,
    pub close: String,
    pub volume: String,
    pub close_time: i64,
    pub quote_volume: String,
    pub num_trades: i64,
}

/// Order book snapshot from `GET /fapi/v1/depth`.
#[derive(Debug, Clone)]
pub struct AsterOrderBook {
    pub last_update_id: u64,
    pub transaction_time: u64,
    pub event_time: u64,
    pub bids: Vec<[String; 2]>,
    pub asks: Vec<[String; 2]>,
}

/// Diff depth update stream (`{symbol}@depth@100ms`).
#[derive(Debug, Clone)]
pub struct AsterDepthMessage {
    pub event_type: String,
    pub event_time: u64,
    pub symbol: String,
    pub first_update_id: u64,
    pub final_update_id: u64,
    pub bids: Vec<[String; 2]>,
    pub asks: Vec<[String; 2]>,
    pub previous_final_update_id: u64,
}

/// Aggregate trade stream (`{symbol}@aggTrade`).
#[derive(Debug, Clone)]
pub struct AsterAggTradeMessage {
    pub event_type: String,
    pub event_time: u64,
    pub symbol: String,
    pub agg_trade_id: u64,
    pub price: String,
    pub qty: String,
    pub trade_time: u64,
    pub is_buyer_maker: bool,
}

/// Mark price stream (`{symbol}@markPrice`).
#[derive(Debug, Clone)]
pub struct AsterMarkPriceMessage {
    pub event_type: String,
    pub event_time: u64,
    pub symbol: String,
    pub mark_price: String,
    pub index_price: String,
    pub funding_rate: String,
    pub next_funding_time: u64,
}


} // verus!
