//! ByBit WebSocket requests and stream payloads.
use vstd::prelude::*;
use crate::text::{eq_str, join2, owned, single};

verus! {

impl ByBitDepthMessage {
    /// A depth message is a full book when its type is `snapshot`.
    pub fn is_full_update(&self) -> (r: bool)
        ensures
            r == (self.snapshot_type@ == "snapshot"@),
    {
        eq_str(&self.snapshot_type, "snapshot")
    }
}

/// Subscribe / unsubscribe / ping request for ByBit streams.
#[derive(Debug, Clone)]
pub struct ByBitWssMessage {
    pub req_id: String,
    pub op: String,
    pub args: Option<Vec<String>>,
}

/// What a ByBit request holds.
#[verifier::ext_equal]
pub struct ByBitRequestView {
    pub req_id: Seq<char>,
    pub op: Seq<char>,
    pub args: Option<Seq<Seq<char>>>,
}

impl View for ByBitWssMessage {
    type V = ByBitRequestView;

    open spec fn view(&self) -> ByBitRequestView {
        ByBitRequestView { req_id: self.req_id@, op: self.op@, args: self.args.deep_view() }
    }
}

/// The request with id `test` on one topic.
pub open spec fn bybit_topic_view(op: Seq<char>, topic: Seq<char>) -> ByBitRequestView {
    ByBitRequestView { req_id: "test"@, op, args: Some(seq![topic]) }
}

impl ByBitWssMessage {
    fn topic_request(op: &str, prefix: &str, coin: &str) -> (r: Self)
        ensures
            r@ == bybit_topic_view(op@, prefix@ + coin@),
    {
        let r = ByBitWssMessage {
            req_id: owned("test"),
            op: owned(op),
            args: Some(single(join2(prefix, coin))),
        };
        assert(r@ =~~= bybit_topic_view(op@, prefix@ + coin@));
        r
    }

    pub fn ping() -> (r: Self)
        ensures
            r@ == (ByBitRequestView { req_id: "100001"@, op: "ping"@, args: None }),
    {
        let r = ByBitWssMessage { req_id: owned("100001"), op: owned("ping"), args: None };
        assert(r@ =~~= (ByBitRequestView { req_id: "100001"@, op: "ping"@, args: None }));
        r
    }

    pub fn depth(coin: &str) -> (r: Self)
        ensures
            r@ == bybit_topic_view("subscribe"@, "orderbook.50."@ + coin@),
    {
        Self::topic_request("subscribe", "orderbook.50.", coin)
    }

    pub fn depth_unsub(coin: &str) -> (r: Self)
        ensures
            r@ == bybit_topic_view("unsubscribe"@, "orderbook.50."@ + coin@),
    {
        Self::topic_request("unsubscribe", "orderbook.50.", coin)
    }

    pub fn trades(coin: &str) -> (r: Self)
        ensures
            r@ == bybit_topic_view("subscribe"@, "publicTrade."@ + coin@),
    {
        Self::topic_request("subscribe", "publicTrade.", coin)
    }

    pub fn trades_unsub(coin: &str) -> (r: Self)
        ensures
            r@ == bybit_topic_view("unsubscribe"@, "publicTrade."@ + coin@),
    {
        Self::topic_request("unsubscribe", "publicTrade.", coin)
    }

    pub fn candle(coin: &str) -> (r: Self)
        ensures
            r@ == bybit_topic_view("subscribe"@, "kline.1."@ + coin@),
    {
        Self::topic_request("subscribe", "kline.1.", coin)
    }
}

#[derive(Debug, Clone)]
pub struct ByBitMessage {
    pub req_id: String,
    pub op: String,
    pub args: Option<Vec<String>>,
    pub success: Option<bool>,
    pub ret_msg: Option<String>,
}

#[derive(Debug, Clone)]
pub struct ByBitDepthMessage {
    pub topic: String,
    pub snapshot_type: String,
    pub ts: u64,
    pub data: ByBitDepthBookData,
    pub cts: u64,
}

#[derive(Debug, Clone)]
pub struct ByBitDepthBookData {
    pub s: String,
    pub b: Vec<[String; 2]>,
    pub a: Vec<[String; 2]>,
    pub u: u64,
    pub seq: u64,
}

#[derive(Debug, Clone)]
pub struct ByBitTradesMessage {
    pub topic: String,
    pub snapshot_type: String,
    pub ts: u64,
    pub data: Vec<ByBitTradesData>,
}

#[derive(Debug, Clone)]
pub struct ByBitTradesData {
    pub trade_time: u64,
    pub s: String,
    pub side: String,
    pub v: String,
    pub p: String,
    pub tick_direction: Option<String>,
    pub i: String,
    pub is_block_trade: bool,
    pub is_rpi_trade: Option<bool>,
}

impl ByBitTradesData {
    /// A trade is a sell when its side is `Sell`.
    pub fn is_sell(&self) -> (r: bool)
        ensures
            r == (self.side@ == "Sell"@),
    {
        eq_str(&self.side, "Sell")
    }

    /// The trade's time in milliseconds, as a signed number: the trade time
    /// cast to `i64`.
    pub fn time_ms(&self) -> (r: i64)
        ensures
            r == self.trade_time as i64,
    {
        self.trade_time as i64
    }
}

#[derive(Debug, Clone)]
pub struct ByBitCandleMessage {
    pub topic: String,
    pub snapshot_type: String,
    pub ts: u64,
    pub data: Vec<ByBitCandleData>,
}

#[derive(Debug, Clone)]
pub struct ByBitCandleData {
    pub start_time: u64,
    pub end_time: u64,
    pub interval: String,
    pub open: String,
    pub high: String,
    pub low: String,
    pub close: String,
    pub volume: String,
    pub turnover: String,
    pub confirm: bool,
    pub timestamp: u64,
}

} // verus!
