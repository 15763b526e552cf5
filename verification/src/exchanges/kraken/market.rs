//! Kraken Futures REST payloads: candles.
use vstd::prelude::*;

verus! {

#[derive(Debug, Clone)]
pub struct KrakenRestCandleData {
    pub time: i64,
    pub open: String,
    pub high: String,
    pub low: String,
    pub close: String,
    pub volume: String,
}

#[derive(Debug, Clone)]
pub struct KrakenRestCandleResponse {
    pub candles: Vec<KrakenRestCandleData>,
}

#[derive(Debug, Clone)]
pub struct MarketApi;

} // verus!
