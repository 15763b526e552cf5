//! Coinbase Advanced Trade: WebSocket requests and REST payloads.
use vstd::prelude::*;

pub mod ws;

pub use ws::{CoinbaseRequestView, CoinbaseWssMessage};

verus! {

/// A single product from GET /api/v3/brokerage/market/products.
///
/// Coinbase Advanced Trade is a spot exchange; there are no perpetual
/// futures with funding rates, so this struct covers spot/SPOT products.
#[derive(Debug, Clone)]
pub struct CoinbaseProduct {
    pub product_id: String,
    pub price: String,
    pub price_percentage_change_24h: String,
    pub volume_24h: String,
    pub volume_percentage_change_24h: String,
    pub base_increment: String,
    pub quote_increment: String,
    pub quote_min_size: String,
    pub base_min_size: String,
    pub base_max_size: String,
    pub base_name: String,
    pub quote_name: String,
    /// "online", "offline", etc.
    pub status: String,
    pub cancel_only: bool,
    pub limit_only: bool,
    pub post_only: bool,
    pub trading_disabled: bool,
    /// "SPOT", "FUTURE", etc.
    pub product_type: String,
    pub quote_currency_id: String,
    pub base_currency_id: String,
    pub mid_market_price: String,
}

/// Top-level response from GET /api/v3/brokerage/market/products.
#[derive(Debug, Clone)]
pub struct CoinbaseProductsResponse {
    pub products: Vec<CoinbaseProduct>,
    pub num_products: Option<i32>,
}


} // verus!
