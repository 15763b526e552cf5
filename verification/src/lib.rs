//! Message types and subscription builders for crypto exchange WebSocket
//! feeds, together with the decision logic of a WebSocket connection manager.
pub mod text;
pub mod orderbook;
pub mod candle;
pub mod decimal;
pub mod exchanges;
pub mod aster;
pub mod binance;
pub mod bitget;
pub mod bybit;
pub mod coinbase;
pub mod deribit;
pub mod kraken;
pub mod kucoin;
pub mod lighter;
pub mod okx;
pub mod pacifica;
pub mod paradex;
pub mod phoenix;
pub mod hyperliquid;
pub mod polymarket;
pub mod websocket_supported_exchanges;
pub mod ws_mgr;
