//! Kraken Futures order-management REST payloads.
use vstd::prelude::*;

verus! {

#[derive(Debug, Clone)]
pub struct KrakenResponse<T> {
    pub result: String,
    pub data: T,
    pub server_time: String,
}

#[derive(Debug, Clone)]
pub struct KrakenOrderRequest {
    pub order_type: String,
    pub symbol: String,
    pub side: String,
    pub size: String,
    pub limit_price: String,
    pub cli_ord_id: Option<String>,
    pub stop_price: Option<String>,
    pub reduce_only: Option<bool>,
    pub time_in_force: Option<String>,
    pub post_only: Option<bool>,
}

#[derive(Debug, Clone)]
pub struct KrakenCancelOrderRequest {
    pub order_id: Option<String>,
    pub cli_ord_id: Option<String>,
}

#[derive(Debug, Clone)]
pub struct KrakenDeadMansSwitchRequest {
    pub timeout: u32,
}

#[derive(Debug, Clone)]
pub struct KrakenOperationStatus<T> {
    pub order_id: String,
    pub status: String,
    pub received_time: String,
    pub order_events: Vec<T>,
}

#[derive(Debug, Clone)]
pub struct KrakenDeadMansSwitchData {
    pub status: KrakenDeadMansSwitchStatus,
}

#[derive(Debug, Clone)]
pub struct KrakenDeadMansSwitchStatus {
    pub current_time: String,
    pub trigger_time: String,
}

#[derive(Debug, Clone)]
pub struct OrderManagementApi;

} // verus!
