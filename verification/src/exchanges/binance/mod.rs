//! Binance Futures: request texts and order-book synchronisation.
use vstd::prelude::*;

pub mod data;
pub mod market_data;

use data::{batch_text, single_stream_text, WssApi};
pub use data::{
    BinanceCandleMessage, BinanceDepthDiffMessage, BinanceErrorResponse, BinanceKlineData,
    BinanceOrderBook, BinanceOrderBookSnapshot, BinanceTradeMessage,
};
pub use market_data::{BinanceRestClient, ExchangeInfo, OpenInterestData, SymbolInfo, TickerData};

verus! {

/// Entry point to the Binance Futures request texts.
pub struct Binance;

impl Default for Binance {
    fn default() -> (r: Self)
        ensures
            r == Binance,
    {
        Binance
    }
}

impl Binance {
    pub fn new() -> (r: Self)
        ensures
            r == Binance,
    {
        Binance
    }

    pub fn ping() -> (r: String)
        ensures
            r@ == "{\"id\": 1, \"method\": \"ping\"}"@,
    {
        WssApi::ping()
    }

    pub fn depth(symbol: &str) -> (r: String)
        ensures
            r@ == single_stream_text("SUBSCRIBE"@, symbol@, "@depth@100ms"@),
    {
        WssApi::depth(symbol)
    }

    pub fn depth_unsub(symbol: &str) -> (r: String)
        ensures
            r@ == single_stream_text("UNSUBSCRIBE"@, symbol@, "@depth@100ms"@),
    {
        WssApi::depth_unsub(symbol)
    }

    pub fn trades(symbol: &str) -> (r: String)
        ensures
            r@ == single_stream_text("SUBSCRIBE"@, symbol@, "@trade"@),
    {
        WssApi::trades(symbol)
    }

    pub fn trades_unsub(symbol: &str) -> (r: String)
        ensures
            r@ == single_stream_text("UNSUBSCRIBE"@, symbol@, "@trade"@),
    {
        WssApi::trades_unsub(symbol)
    }

    pub fn candle(symbol: &str) -> (r: String)
        ensures
            r@ == single_stream_text("SUBSCRIBE"@, symbol@, "@kline_1m"@),
    {
        WssApi::candle(symbol)
    }

    pub fn candle_unsub(symbol: &str) -> (r: String)
        ensures
            r@ == single_stream_text("UNSUBSCRIBE"@, symbol@, "@kline_1m"@),
    {
        WssApi::candle_unsub(symbol)
    }

    pub fn batch_depth(symbols: &[String]) -> (r: String)
        ensures
            r@ == batch_text(symbols.deep_view(), "@depth@100ms"@),
    {
        WssApi::batch_depth(symbols)
    }

    pub fn batch_trades(symbols: &[String]) -> (r: String)
        ensures
            r@ == batch_text(symbols.deep_view(), "@trade"@),
    {
        WssApi::batch_trades(symbols)
    }
}

} // verus!
