//! Kraken Futures: requests, REST payloads and order-book sequencing.
pub mod data;
pub mod market;
pub mod order_management;

pub use data::{KrakenBookSequence, KrakenOrderBook, KrakenSubscribeMessage, WssApi};
pub use market::{KrakenRestCandleData, KrakenRestCandleResponse, MarketApi};
