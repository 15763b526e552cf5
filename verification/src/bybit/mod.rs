//! ByBit: WebSocket requests, stream payloads and REST payloads.
use vstd::prelude::*;

pub mod ws;

pub use ws::{
    ByBitCandleData, ByBitCandleMessage, ByBitDepthBookData, ByBitDepthMessage, ByBitMessage,
    ByBitRequestView, ByBitTradesData, ByBitTradesMessage, ByBitWssMessage,
};

verus! {

/// Historical funding rate data from ByBit
#[derive(Debug, Clone)]
pub struct ByBitHistoricalFundingRate {
    pub symbol: String,
    pub funding_rate: String,
    pub funding_rate_timestamp: String,
}


} // verus!
