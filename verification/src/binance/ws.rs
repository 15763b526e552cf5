//! Binance Futures WebSocket requests and stream payloads.
use vstd::prelude::*;
use crate::text::{owned, single, stream, stream_name, stream_names, streams};

verus! {

/// Subscribe / unsubscribe / ping request for Binance Futures streams.
#[derive(Debug, Clone)]
pub struct BinanceWssMessage {
    pub id: u32,
    pub method: String,
    pub params: Option<Vec<String>>,
}

/// What a request of the `id` / `method` / `params` shape holds.
#[verifier::ext_equal]
pub struct RequestView {
    pub id: u32,
    pub method: Seq<char>,
    pub params: Option<Seq<Seq<char>>>,
}

impl View for BinanceWssMessage {
    type V = RequestView;

    open spec fn view(&self) -> RequestView {
        RequestView { id: self.id, method: self.method@, params: self.params.deep_view() }
    }
}

/// The request with id 1, the given method and the given stream names.
pub open spec fn request_view(method: Seq<char>, params: Seq<Seq<char>>) -> RequestView {
    RequestView { id: 1, method, params: Some(params) }
}

/// The ping request.
pub open spec fn ping_view() -> RequestView {
    RequestView { id: 1, method: "ping"@, params: None }
}

impl BinanceWssMessage {
    fn request(method: &str, params: Vec<String>) -> (r: Self)
        ensures
            r@ == request_view(method@, params.deep_view()),
    {
        let r = BinanceWssMessage { id: 1, method: owned(method), params: Some(params) };
        assert(r@ =~~= request_view(method@, params.deep_view()));
        r
    }

    pub fn ping() -> (r: Self)
        ensures
            r@ == ping_view(),
    {
        let r = BinanceWssMessage { id: 1, method: owned("ping"), params: None };
        assert(r@ =~~= ping_view());
        r
    }

    pub fn depth_unsub(symbol: &str) -> (r: Self)
        ensures
            r@ == request_view("UNSUBSCRIBE"@, seq![stream_name(symbol@, "@depth@100ms"@)]),
    {
        Self::request("UNSUBSCRIBE", single(stream(symbol, "@depth@100ms")))
    }

    pub fn trades_unsub(symbol: &str) -> (r: Self)
        ensures
            r@ == request_view("UNSUBSCRIBE"@, seq![stream_name(symbol@, "@trade"@)]),
    {
        Self::request("UNSUBSCRIBE", single(stream(symbol, "@trade")))
    }

    pub fn candle_unsub(symbol: &str) -> (r: Self)
        ensures
            r@ == request_view("UNSUBSCRIBE"@, seq![stream_name(symbol@, "@kline_1m"@)]),
    {
        Self::request("UNSUBSCRIBE", single(stream(symbol, "@kline_1m")))
    }

    pub fn batch_depth(symbols: &[String]) -> (r: Self)
        ensures
            r@ == request_view("SUBSCRIBE"@, stream_names(symbols.deep_view(), "@depth@100ms"@)),
    {
        Self::request("SUBSCRIBE", streams(symbols, "@depth@100ms"))
    }

    pub fn batch_trades(symbols: &[String]) -> (r: Self)
        ensures
            r@ == request_view("SUBSCRIBE"@, stream_names(symbols.deep_view(), "@trade"@)),
    {
        Self::request("SUBSCRIBE", streams(symbols, "@trade"))
    }

    pub fn batch_candles(symbols: &[String]) -> (r: Self)
        ensures
            r@ == request_view("SUBSCRIBE"@, stream_names(symbols.deep_view(), "@kline_1m"@)),
    {
        Self::request("SUBSCRIBE", streams(symbols, "@kline_1m"))
    }

    /// Subscribes to the given stream names (such as `btcusdt@depth@100ms`),
    /// taken as they are.
    pub fn batch_subscribe(streams: Vec<String>) -> (r: Self)
        ensures
            r@ == request_view("SUBSCRIBE"@, streams.deep_view()),
    {
        Self::request("SUBSCRIBE", streams)
    }
}

#[derive(Debug, Clone)]
pub struct BinanceDepthDiffMessage {
    pub event_type: String,
    pub event_time: u64,
    pub symbol: String,
    pub first_update_id: u64,
    pub final_update_id: u64,
    pub bids: Vec<[String; 2]>,
    pub asks: Vec<[String; 2]>,
    pub previous_final_update_id: u64,
}

#[derive(Debug, Clone)]
pub struct BinanceOrderBookSnapshot {
    pub last_update_id: u64,
    pub bids: Vec<[String; 2]>,
    pub asks: Vec<[String; 2]>,
}

#[derive(Debug, Clone)]
pub struct BinanceKlineData {
    pub open_time: u64,
    pub close_time: u64,
    pub symbol: String,
    pub interval: String,
    pub first_trade_id: Option<i64>,
    pub last_trade_id: Option<i64>,
    pub open: String,
    pub close: String,
    pub high: String,
    pub low: String,
    pub volume: String,
    pub trades: u64,
    pub closed: bool,
    pub quote_volume: String,
    pub taker_buy_volume: String,
    pub taker_buy_quote_volume: String,
    pub ignore: String,
}

#[derive(Debug, Clone)]
pub struct BinanceCandleMessage {
    pub event_type: String,
    pub event_time: u64,
    pub symbol: String,
    pub kline: BinanceKlineData,
}

#[derive(Debug, Clone)]
pub struct BinanceTradeMessage {
    pub event_type: String,
    pub event_time: u64,
    pub symbol: String,
    pub trade_id: u64,
    pub price: String,
    pub qty: String,
    pub trade_time: u64,
    pub order_type: Option<String>,
    pub is_buyer_maker: bool,
}

#[derive(Debug, Clone)]
pub struct ExchangeInfo {
    pub timezone: String,
    pub server_time: i64,
    pub symbols: Vec<SymbolInfo>,
}

#[derive(Debug, Clone)]
pub struct SymbolInfo {
    pub symbol: String,
    pub status: String,
    pub contract_type: String,
    pub base_asset: String,
    pub quote_asset: String,
}

#[derive(Debug, Clone)]
pub struct OpenInterestData {
    pub symbol: String,
    pub open_interest: String,
    pub time: i64,
}

#[derive(Debug, Clone)]
pub struct TickerData {
    pub symbol: String,
    pub volume: String,
    pub quote_volume: String,
    pub last_price: String,
    pub price_change: String,
    pub price_change_percent: String,
    pub high_price: String,
    pub low_price: String,
    pub open_price: String,
    pub weighted_avg_price: String,
    pub last_qty: String,
    pub open_time: i64,
    pub close_time: i64,
    pub first_id: i64,
    pub last_id: i64,
    pub count: u64,
}


} // verus!
