//! OKX: WebSocket requests, stream payloads and REST payloads.
use vstd::prelude::*;

pub mod ws;

pub use ws::{
    OkxArgView, OkxDepthBookData, OkxDepthMessage, OkxMessageView, OkxTradeData,
    OkxTradesMessage, OkxWssArg, OkxWssMessage,
};

verus! {

/// OKX instrument information for SWAP (perpetual) contracts.
///
/// Corresponds to the response from `GET /api/v5/public/instruments?instType=SWAP`.
#[derive(Debug, Clone)]
pub struct OkxInstrumentInfo {
    /// Instrument type (e.g. "SWAP")
    pub inst_type: String,
    /// Instrument ID (e.g. "BTC-USDT-SWAP")
    pub inst_id: String,
    /// Underlying (e.g. "BTC-USDT")
    pub uly: String,
    /// Instrument family (e.g. "BTC-USDT")
    pub inst_family: String,
    /// Settlement currency (e.g. "USDT")
    pub settle_ccy: String,
    /// Contract value (e.g. "0.01")
    pub ct_val: String,
    /// Contract multiplier
    pub ct_mult: String,
    /// Contract value currency (e.g. "BTC")
    pub ct_val_ccy: String,
    /// Contract type: "linear" or "inverse"
    pub ct_type: String,
    /// Tick size - minimum price increment (e.g. "0.1")
    pub tick_sz: String,
    /// Lot size - minimum trading size (e.g. "1")
    pub lot_sz: String,
    /// Minimum order size
    pub min_sz: String,
    /// Maximum leverage
    pub lever: String,
    /// Instrument state: "live", "suspend", "preopen", etc.
    pub state: String,
    /// Listing time (ms timestamp)
    pub list_time: String,
    /// Expiry time (empty for perpetuals)
    pub exp_time: String,
    /// Maximum order size
    pub max_lmt_sz: String,
    /// Maximum market order size
    pub max_mkt_sz: String,
}


} // verus!
