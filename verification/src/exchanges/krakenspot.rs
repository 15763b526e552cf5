//! Kraken spot (v2 API): candle payloads and the requests sent on the socket.
use vstd::prelude::*;
use crate::text::{owned, single};

verus! {

#[derive(Debug, Clone)]
pub struct KrakenSpotOhlcData {
    pub symbol: String,
    pub open: String,
    pub high: String,
    pub low: String,
    pub close: String,
    pub volume: String,
    pub vwap: String,
    pub trades: u64,
    pub interval: u32,
    pub timestamp: String,
}

#[derive(Debug, Clone)]
pub struct KrakenSpotOhlcMessage {
    pub channel: String,
    pub msg_type: String,
    pub data: Vec<KrakenSpotOhlcData>,
}

#[derive(Debug, Clone)]
pub struct KrakenSpot {}

/// A request on the Kraken spot socket, to be sent as JSON.
#[derive(Debug, Clone)]
pub struct KrakenSpotMessage {
    pub method: String,
    pub req_id: Option<u32>,
    pub params: Option<KrakenSpotSubscribeParams>,
}

/// The parameters of a subscription.
#[derive(Debug, Clone)]
pub struct KrakenSpotSubscribeParams {
    pub channel: String,
    pub symbol: Vec<String>,
    pub depth: Option<u32>,
    pub interval: Option<u32>,
}

/// What the parameters of a subscription hold.
#[verifier::ext_equal]
pub struct KrakenSpotParamsView {
    pub channel: Seq<char>,
    pub symbol: Seq<Seq<char>>,
    pub depth: Option<u32>,
    pub interval: Option<u32>,
}

/// What a request holds.
#[verifier::ext_equal]
pub struct KrakenSpotMessageView {
    pub method: Seq<char>,
    pub req_id: Option<u32>,
    pub params: Option<KrakenSpotParamsView>,
}

impl View for KrakenSpotSubscribeParams {
    type V = KrakenSpotParamsView;

    open spec fn view(&self) -> KrakenSpotParamsView {
        KrakenSpotParamsView {
            channel: self.channel@,
            symbol: self.symbol.deep_view(),
            depth: self.depth,
            interval: self.interval,
        }
    }
}

impl View for KrakenSpotMessage {
    type V = KrakenSpotMessageView;

    open spec fn view(&self) -> KrakenSpotMessageView {
        KrakenSpotMessageView {
            method: self.method@,
            req_id: self.req_id,
            params: match self.params {
                Some(p) => Some(p@),
                None => None,
            },
        }
    }
}

/// The subscription (request id 1) to one channel of one symbol.
pub open spec fn spot_subscribe_view(channel: Seq<char>, coin: Seq<char>, depth: Option<u32>, interval: Option<u32>) -> KrakenSpotMessageView {
    KrakenSpotMessageView {
        method: "subscribe"@,
        req_id: Some(1),
        params: Some(KrakenSpotParamsView { channel, symbol: seq![coin], depth, interval }),
    }
}

impl KrakenSpot {
    fn subscribe(channel: &str, coin: &str, depth: Option<u32>, interval: Option<u32>) -> (r: KrakenSpotMessage)
        ensures
            r@ == spot_subscribe_view(channel@, coin@, depth, interval),
    {
        let params = KrakenSpotSubscribeParams { channel: owned(channel), symbol: single(owned(coin)), depth, interval };
        let r = KrakenSpotMessage { method: owned("subscribe"), req_id: Some(1), params: Some(params) };
        assert(r@ =~~= spot_subscribe_view(channel@, coin@, depth, interval));
        r
    }

    /// The ping request (request id 1).
    pub fn ping() -> (r: KrakenSpotMessage)
        ensures
            r@ == (KrakenSpotMessageView { method: "ping"@, req_id: Some(1), params: None }),
    {
        KrakenSpotMessage { method: owned("ping"), req_id: Some(1), params: None }
    }

    /// Subscribes to the 25-level book of `coin`.
    pub fn depth(coin: &str) -> (r: KrakenSpotMessage)
        ensures
            r@ == spot_subscribe_view("book"@, coin@, Some(25), None),
    {
        Self::subscribe("book", coin, Some(25), None)
    }

    /// Subscribes to the trades of `coin`.
    pub fn trades(coin: &str) -> (r: KrakenSpotMessage)
        ensures
            r@ == spot_subscribe_view("trade"@, coin@, None, None),
    {
        Self::subscribe("trade", coin, None, None)
    }

    /// Subscribes to the one-minute candles of `coin`.
    pub fn candle(coin: &str) -> (r: KrakenSpotMessage)
        ensures
            r@ == spot_subscribe_view("ohlc"@, coin@, None, Some(1)),
    {
        Self::subscribe("ohlc", coin, None, Some(1))
    }
}

} // verus!
