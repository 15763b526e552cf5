//! ByBit spot: depth and trade payloads and subscription requests.
use vstd::prelude::*;
use crate::bybit::ws::{bybit_topic_view, ByBitRequestView, ByBitWssMessage};
use crate::text::eq_str;

verus! {

#[derive(Debug, Clone)]
pub struct ByBitSpotMessage {
    pub req_id: String,
    pub op: String,
    pub args: Option<Vec<String>>,
}

#[derive(Debug, Clone)]
pub struct ByBitSpotDepthMessage {
    pub topic: String,
    pub snapshot_type: String,
    pub ts: u64,
    pub data: ByBitSpotDepthBookData,
    pub cts: u64,
}

#[derive(Debug, Clone)]
pub struct ByBitSpotDepthBookData {
    pub s: String,
    pub b: Vec<[String; 2]>,
    pub a: Vec<[String; 2]>,
    pub u: u64,
    pub seq: u64,
}

#[derive(Debug, Clone)]
pub struct ByBitSpotTradesMessage {
    pub topic: String,
    pub snapshot_type: String,
    pub ts: u64,
    pub data: Vec<ByBitSpotTradesData>,
}

#[derive(Debug, Clone)]
pub struct ByBitSpotTradesData {
    pub trade_time: u64,
    pub s: String,
    pub side: String,
    pub v: String,
    pub p: String,
    pub tick_direction: Option<String>,
    pub i: String,
    pub is_block_trade: bool,
    pub is_rpi_trade: Option<bool>,
}

#[derive(Debug, Clone)]
pub struct ByBitSpot {}

impl View for ByBitSpotMessage {
    type V = ByBitRequestView;

    open spec fn view(&self) -> ByBitRequestView {
        ByBitRequestView { req_id: self.req_id@, op: self.op@, args: self.args.deep_view() }
    }
}

impl ByBitSpotDepthMessage {
    /// A depth message is a full book when its type is `snapshot`.
    pub fn is_full_update(&self) -> (r: bool)
        ensures
            r == (self.snapshot_type@ == "snapshot"@),
    {
        eq_str(&self.snapshot_type, "snapshot")
    }
}

impl ByBitSpot {
    fn from_request(m: ByBitWssMessage) -> (r: ByBitSpotMessage)
        ensures
            r@ == m@,
    {
        ByBitSpotMessage { req_id: m.req_id, op: m.op, args: m.args }
    }

    /// The ping request (`req_id` `100001`), to be sent as JSON.
    pub fn ping() -> (r: ByBitSpotMessage)
        ensures
            r@ == (ByBitRequestView { req_id: "100001"@, op: "ping"@, args: None }),
    {
        Self::from_request(ByBitWssMessage::ping())
    }

    /// Subscribes to the 50-level book of `coin`.
    pub fn depth(coin: &str) -> (r: ByBitSpotMessage)
        ensures
            r@ == bybit_topic_view("subscribe"@, "orderbook.50."@ + coin@),
    {
        Self::from_request(ByBitWssMessage::depth(coin))
    }

    /// Subscribes to the public trades of `coin`.
    pub fn trades(coin: &str) -> (r: ByBitSpotMessage)
        ensures
            r@ == bybit_topic_view("subscribe"@, "publicTrade."@ + coin@),
    {
        Self::from_request(ByBitWssMessage::trades(coin))
    }
}

} // verus!
