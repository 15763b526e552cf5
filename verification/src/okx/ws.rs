//! OKX WebSocket requests and stream payloads.
use vstd::prelude::*;
use crate::text::{eq_str, owned};

verus! {

#[derive(Debug, Clone)]
pub struct OkxWssArg {
    pub channel: String,
    pub inst_id: String,
}

#[derive(Debug, Clone)]
pub struct OkxWssMessage {
    pub op: String,
    pub args: Vec<OkxWssArg>,
}

/// What one channel argument of an OKX request holds.
#[verifier::ext_equal]
pub struct OkxArgView {
    pub channel: Seq<char>,
    pub inst_id: Seq<char>,
}

/// What an OKX request holds.
#[verifier::ext_equal]
pub struct OkxMessageView {
    pub op: Seq<char>,
    pub args: Seq<OkxArgView>,
}

impl View for OkxWssArg {
    type V = OkxArgView;

    open spec fn view(&self) -> OkxArgView {
        OkxArgView { channel: self.channel@, inst_id: self.inst_id@ }
    }
}

impl View for OkxWssMessage {
    type V = OkxMessageView;

    open spec fn view(&self) -> OkxMessageView {
        OkxMessageView { op: self.op@, args: self.args@.map_values(|a: OkxWssArg| a@) }
    }
}

/// The request on one channel of one instrument.
pub open spec fn okx_view(op: Seq<char>, channel: Seq<char>, inst_id: Seq<char>) -> OkxMessageView {
    OkxMessageView { op, args: seq![OkxArgView { channel, inst_id }] }
}

impl OkxWssMessage {
    fn channel_request(op: &str, channel: &str, coin: &str) -> (r: Self)
        ensures
            r@ == okx_view(op@, channel@, coin@),
    {
        let arg = OkxWssArg { channel: owned(channel), inst_id: owned(coin) };
        let r = OkxWssMessage { op: owned(op), args: vec![arg] };
        assert(r@ =~~= okx_view(op@, channel@, coin@));
        r
    }

    /// OKX pings with the plain text frame `ping`.
    pub fn ping() -> (r: String)
        ensures
            r@ == "ping"@,
    {
        owned("ping")
    }

    pub fn depth(coin: &str) -> (r: Self)
        ensures
            r@ == okx_view("subscribe"@, "books"@, coin@),
    {
        Self::channel_request("subscribe", "books", coin)
    }

    pub fn depth_unsub(coin: &str) -> (r: Self)
        ensures
            r@ == okx_view("unsubscribe"@, "books"@, coin@),
    {
        Self::channel_request("unsubscribe", "books", coin)
    }

    pub fn trades(coin: &str) -> (r: Self)
        ensures
            r@ == okx_view("subscribe"@, "trades"@, coin@),
    {
        Self::channel_request("subscribe", "trades", coin)
    }

    pub fn trades_unsub(coin: &str) -> (r: Self)
        ensures
            r@ == okx_view("unsubscribe"@, "trades"@, coin@),
    {
        Self::channel_request("unsubscribe", "trades", coin)
    }
}

impl OkxDepthMessage {
    /// The instrument of the message, from its `arg`.
    pub fn inst_id(&self) -> (r: &str)
        ensures
            r@ == self.arg.inst_id@,
    {
        self.arg.inst_id.as_str()
    }

    /// A depth message is a full book when its action is `snapshot`, a delta
    /// when it is `update`.
    pub fn is_snapshot(&self) -> (r: bool)
        ensures
            r == (self.action@ == "snapshot"@),
    {
        eq_str(&self.action, "snapshot")
    }
}

#[derive(Debug, Clone)]
pub struct OkxDepthMessage {
    pub arg: OkxWssArg,
    /// "snapshot" for the initial full book, "update" for incremental deltas
    pub action: String,
    pub data: Vec<OkxDepthBookData>,
}

#[derive(Debug, Clone)]
pub struct OkxDepthBookData {
    pub asks: Vec<[String; 4]>,
    pub bids: Vec<[String; 4]>,
    pub ts: String,
}

#[derive(Debug, Clone)]
pub struct OkxTradesMessage {
    pub arg: OkxWssArg,
    pub data: Vec<OkxTradeData>,
}

#[derive(Debug, Clone)]
pub struct OkxTradeData {
    pub inst_id: String,
    pub trade_id: String,
    pub px: String,
    pub sz: String,
    pub side: String,
    pub ts: String,
}


} // verus!
