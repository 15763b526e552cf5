//! ByBit linear tickers, as the market REST endpoint lists them.
use vstd::prelude::*;

verus! {

#[derive(Debug, Clone)]
pub struct ByBitTickersResult {
    pub category: String,
    pub list: Vec<ByBitTickerData>,
}

#[derive(Debug, Clone)]
pub struct ByBitTickerData {
    pub symbol: String,
    pub last_price: String,
    pub index_price: String,
    pub mark_price: String,
    pub prev_price_24h: String,
    pub price_24h_pcnt: String,
    pub high_price_24h: String,
    pub low_price_24h: String,
    pub prev_price_1h: String,
    pub open_interest: String,
    pub open_interest_value: String,
    pub turnover_24h: String,
    pub volume_24h: String,
    pub funding_rate: String,
    pub next_funding_time: String,
    pub predicted_delivery_price: String,
    pub basis_rate: String,
    pub delivery_fee_rate: String,
    pub delivery_time: String,
    pub ask1_size: String,
    pub bid1_price: String,
    pub ask1_price: String,
    pub bid1_size: String,
    pub basis: String,
}

#[derive(Debug, Clone)]
pub struct MarketApi;

} // verus!
