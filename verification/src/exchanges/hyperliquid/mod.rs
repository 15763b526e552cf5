//! Hyperliquid: stream payloads and requests, exchange actions, and the
//! info endpoint's payloads.
pub mod data;
pub mod exchange;
pub mod info;
pub mod ticks;
