//! Kraken Futures: WebSocket requests.
pub mod ws;

pub use ws::{KrakenRequestView, KrakenSubscribeMessage, KrakenWssMessage};
