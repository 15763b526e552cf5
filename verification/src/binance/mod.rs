//! Binance Futures: WebSocket requests, stream payloads and REST payloads.
use vstd::prelude::*;

pub mod ws;

pub use ws::{
    BinanceCandleMessage, BinanceDepthDiffMessage, BinanceKlineData, BinanceOrderBookSnapshot,
    BinanceTradeMessage, BinanceWssMessage, ExchangeInfo, OpenInterestData, RequestView,
    SymbolInfo, TickerData,
};

verus! {

/// Historical funding rate data from Binance Futures API
#[derive(Debug, Clone)]
pub struct BinanceHistoricalFundingRate {
    pub symbol: String,
    pub funding_rate: String,
    pub funding_time: i64,
    pub mark_price: Option<String>,
}

/// Aggregate trade data from Binance API
#[derive(Debug, Clone)]
pub struct BinanceAggTrade {
    pub agg_trade_id: i64,
    pub price: String,
    pub quantity: String,
    pub first_trade_id: i64,
    pub last_trade_id: i64,
    pub timestamp: i64,
    pub is_buyer_maker: bool,
}


} // verus!
