//! Deribit: JSON-RPC requests over WebSocket.
pub mod ws;

pub use ws::{DeribitParams, DeribitParamsView, DeribitRequestView, DeribitWssMessage};
