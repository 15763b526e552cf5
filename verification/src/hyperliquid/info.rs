//! Hyperliquid info endpoint payloads.
use vstd::prelude::*;

verus! {

#[derive(Debug, Clone)]
pub struct UserOrder {
    pub asset: String,
    pub is_buy: bool,
    pub limit_px: String,
    pub sz: String,
    pub oid: u64,
    pub timestamp: u64,
    pub order_type: String,
    pub reduce_only: bool,
}

#[derive(Debug, Clone)]
pub struct FundingHistory {
    pub asset: String,
    pub time: u64,
    pub funding_rate: String,
    pub payment: String,
    pub position_size: String,
}

#[derive(Debug, Clone)]
pub struct HistoricalFundingRate {
    pub coin: String,
    pub funding_rate: String,
    pub premium: String,
    pub time: u64,
}

#[derive(Debug, Clone)]
pub struct SpotBalance {
    pub coin: String,
    pub token: u32,
    pub hold: String,
    pub total: String,
    pub entry_ntl: String,
}

#[derive(Debug, Clone)]
pub struct SpotClearinghouseState {
    pub balances: Vec<SpotBalance>,
}

#[derive(Debug, Clone)]
pub struct UserPerpetualsState {
    pub asset_positions: Vec<AssetPosition>,
    pub cross_maintenance_margin_used: String,
    pub cross_margin_summary: CrossMarginSummary,
    pub withdrawable: String,
}

#[derive(Debug, Clone)]
pub struct AssetPosition {
    pub position: Position,
    pub position_type: String,
}

#[derive(Debug, Clone)]
pub struct Position {
    pub coin: String,
    pub entry_px: Option<String>,
    pub leverage: Leverage,
    pub liquidation_px: Option<String>,
    pub margin_used: String,
    pub max_leverage: u32,
    pub position_value: String,
    pub return_on_equity: String,
    pub szi: String,
    pub unrealized_pnl: String,
}

#[derive(Debug, Clone)]
pub struct Leverage {
    pub leverage_type: String,
    pub value: u32,
}

#[derive(Debug, Clone)]
pub struct CrossMarginSummary {
    pub account_value: String,
    pub total_margin_used: String,
    pub total_ntl_pos: String,
    pub total_raw_usd: String,
}

#[derive(Debug, Clone)]
pub struct InfoApiRequest {
    pub typ: String,
}

#[derive(Debug, Clone)]
pub struct MetaAndAssetCtxs(pub Universe, pub Vec<MarketData>);

#[derive(Debug, Clone)]
pub struct Universe {
    pub universe: Vec<Asset>,
}

#[derive(Debug, Clone)]
pub struct Asset {
    pub name: String,
    pub sz_decimals: u8,
    pub max_leverage: u32,
    pub only_isolated: Option<bool>,
}

#[derive(Debug, Clone)]
pub struct MarketData {
    pub day_notional_volume: Option<String>,
    pub funding: Option<String>,
    pub impact_prices: Option<Vec<String>>,
    pub mark_price: Option<String>,
    pub mid_price: Option<String>,
    pub open_interest: Option<String>,
    pub oracle_price: Option<String>,
    pub premium: Option<String>,
    pub prev_day_price: Option<String>,
}

#[derive(Debug, Clone)]
pub struct AssetInfo {
    pub asset: Asset,
    pub market_data: MarketData,
}

#[derive(Debug, Clone)]
pub struct SpotMetaAndAssetCtxs(pub SpotMeta, pub Vec<SpotMarketData>);

#[derive(Debug, Clone)]
pub struct SpotMeta {
    pub tokens: Vec<SpotToken>,
    pub universe: Vec<SpotAsset>,
}

#[derive(Debug, Clone)]
pub struct SpotToken {
    pub name: String,
    pub sz_decimals: u8,
    pub wei_decimals: u8,
    pub index: u32,
    pub token_id: String,
    pub is_canonical: bool,
    pub evm_contract: Option<EvmContract>,
    pub full_name: Option<String>,
}

#[derive(Debug, Clone)]
pub struct EvmContract {
    pub address: String,
    pub evm_extra_wei_decimals: i8,
}

#[derive(Debug, Clone)]
pub struct SpotAsset {
    pub name: String,
    pub tokens: Vec<u32>,
    pub index: u32,
    pub is_canonical: bool,
}

#[derive(Debug, Clone)]
pub struct SpotMarketData {
    pub day_notional_volume: String,
    pub mark_price: String,
    pub mid_price: Option<String>,
    pub prev_day_price: String,
    pub circulating_supply: String,
    pub coin: String,
    pub total_supply: String,
    pub day_base_volume: String,
    pub tokens: Vec<u32>,
}


} // verus!
