//! ByBit linear perpetuals: stream payloads, requests and order-book upkeep.
pub mod market;
pub mod ws;

pub use market::{ByBitTickerData, ByBitTickersResult, MarketApi};
pub use ws::{
    ByBitCandleData, ByBitCandleMessage, ByBitDepthBookData, ByBitDepthMessage, ByBitMessage,
    ByBitTradesData, ByBitTradesMessage, ByBitWssMessage, BybitOrderBook,
};
