//! Bitget: WebSocket requests and REST payloads.
use vstd::prelude::*;

pub mod ws;

pub use ws::{BitgetArgView, BitgetMessageView, BitgetWssArg, BitgetWssMessage};

verus! {

/// Generic Bitget API response envelope.
/// Success is indicated by code "00000".
#[derive(Debug, Clone)]
pub struct BitgetResponse<T> {
    pub code: String,
    pub msg: String,
    pub data: T,
}

#[derive(Debug, Clone)]
pub struct BitgetContract {
    pub symbol: String,
    pub base_coin: String,
    pub quote_coin: String,
    pub buy_limit_price_ratio: String,
    pub sell_limit_price_ratio: String,
    pub maker_fee_rate: String,
    pub taker_fee_rate: String,
    pub min_trade_num: String,
    pub price_end_step: String,
    pub volume_place: String,
    pub price_place: String,
    pub size_multiplier: String,
    /// "perpetual" or "delivery"
    pub symbol_type: String,
    pub min_lever: String,
    pub max_lever: String,
    /// "normal", "halt", etc.
    pub symbol_status: String,
    /// Funding interval in hours
    pub fund_interval: String,
}

#[derive(Debug, Clone)]
pub struct BitgetTickerData {
    pub symbol: String,
    /// Last traded price
    pub last_pr: String,
    pub ask_pr: String,
    pub bid_pr: String,
    pub bid_sz: String,
    pub ask_sz: String,
    pub high_24h: String,
    pub low_24h: String,
    /// Timestamp in milliseconds
    pub ts: String,
    pub change_24h: String,
    pub base_volume: String,
    pub quote_volume: String,
    pub usdt_volume: String,
    pub funding_rate: String,
    pub mark_price: String,
    pub index_price: String,
    pub holding_amount: String,
    pub open_24h: String,
}

#[derive(Debug, Clone)]
pub struct BitgetHistoricalFundingRate {
    pub symbol: String,
    pub funding_rate: String,
    /// Settlement time in milliseconds
    pub settle_time: String,
}


} // verus!
