//! Hyperliquid: WebSocket requests, stream payloads and info payloads.
pub mod info;
pub mod ws;

pub use info::{
    Asset, AssetInfo, AssetPosition, CrossMarginSummary, EvmContract, FundingHistory,
    HistoricalFundingRate, InfoApiRequest, Leverage, MarketData, MetaAndAssetCtxs, Position,
    SpotAsset, SpotBalance, SpotClearinghouseState, SpotMarketData, SpotMeta, SpotMetaAndAssetCtxs,
    SpotToken, Universe, UserOrder, UserPerpetualsState,
};
pub use ws::{
    HyperliquidBbo, HyperliquidBboMessage, HyperliquidBook, HyperliquidBookLevel,
    HyperliquidBookMessage, HyperliquidCandleData, HyperliquidCandleMessage,
    HyperliquidOrderUpdatesMessage, HyperliquidRequestView, HyperliquidSubscriptionView,
    HyperliquidTrade, HyperliquidTradesMessage, HyperliquidWssMessage, HyperliquidWssSubscription,
    WsBasicOrder, WsLevel, WsOrder,
};
