//! KuCoin Futures: WebSocket requests and REST payloads.
use vstd::prelude::*;

pub mod ws;

pub use ws::{KuCoinRequestView, KuCoinWssMessage};

verus! {

#[derive(Debug, Clone)]
pub struct KuCoinResponse<T> {
    pub code: String,
    pub msg: String,
    pub data: T,
}

/// Token and connection info returned by POST /api/v1/bullet-public
#[derive(Debug, Clone)]
pub struct KuCoinWsInstanceServer {
    pub endpoint: String,
    pub encrypt: bool,
    pub protocol: String,
    pub ping_interval: u64,
    pub ping_timeout: u64,
}

#[derive(Debug, Clone)]
pub struct KuCoinWsTokenData {
    pub token: String,
    pub instance_servers: Vec<KuCoinWsInstanceServer>,
}


} // verus!
