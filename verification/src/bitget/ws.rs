//! Bitget WebSocket requests.
use vstd::prelude::*;
use crate::text::owned;

verus! {

#[derive(Debug, Clone)]
pub struct BitgetWssArg {
    pub inst_type: String,
    pub channel: String,
    pub inst_id: String,
}

#[derive(Debug, Clone)]
pub struct BitgetWssMessage {
    pub op: String,
    pub args: Vec<BitgetWssArg>,
}

/// What one channel argument of a Bitget request holds.
#[verifier::ext_equal]
pub struct BitgetArgView {
    pub inst_type: Seq<char>,
    pub channel: Seq<char>,
    pub inst_id: Seq<char>,
}

/// What a Bitget request holds.
#[verifier::ext_equal]
pub struct BitgetMessageView {
    pub op: Seq<char>,
    pub args: Seq<BitgetArgView>,
}

impl View for BitgetWssArg {
    type V = BitgetArgView;

    open spec fn view(&self) -> BitgetArgView {
        BitgetArgView { inst_type: self.inst_type@, channel: self.channel@, inst_id: self.inst_id@ }
    }
}

impl View for BitgetWssMessage {
    type V = BitgetMessageView;

    open spec fn view(&self) -> BitgetMessageView {
        BitgetMessageView { op: self.op@, args: self.args@.map_values(|a: BitgetWssArg| a@) }
    }
}

/// The request on one USDT-margined perpetual channel of one instrument.
pub open spec fn bitget_view(op: Seq<char>, channel: Seq<char>, symbol: Seq<char>) -> BitgetMessageView {
    BitgetMessageView {
        op,
        args: seq![BitgetArgView { inst_type: "USDT-FUTURES"@, channel, inst_id: symbol }],
    }
}

impl BitgetWssMessage {
    fn channel_request(op: &str, channel: &str, symbol: &str) -> (r: Self)
        ensures
            r@ == bitget_view(op@, channel@, symbol@),
    {
        let arg = BitgetWssArg {
            inst_type: owned("USDT-FUTURES"),
            channel: owned(channel),
            inst_id: owned(symbol),
        };
        let r = BitgetWssMessage { op: owned(op), args: vec![arg] };
        assert(r@ =~~= bitget_view(op@, channel@, symbol@));
        r
    }

    /// Bitget pings with the plain text frame `ping`.
    pub fn ping() -> (r: String)
        ensures
            r@ == "ping"@,
    {
        owned("ping")
    }

    /// Full order book (`books` channel) of a USDT-margined perpetual.
    pub fn depth(symbol: &str) -> (r: Self)
        ensures
            r@ == bitget_view("subscribe"@, "books"@, symbol@),
    {
        Self::channel_request("subscribe", "books", symbol)
    }

    pub fn depth_unsub(symbol: &str) -> (r: Self)
        ensures
            r@ == bitget_view("unsubscribe"@, "books"@, symbol@),
    {
        Self::channel_request("unsubscribe", "books", symbol)
    }

    pub fn trades(symbol: &str) -> (r: Self)
        ensures
            r@ == bitget_view("subscribe"@, "trade"@, symbol@),
    {
        Self::channel_request("subscribe", "trade", symbol)
    }

    pub fn trades_unsub(symbol: &str) -> (r: Self)
        ensures
            r@ == bitget_view("unsubscribe"@, "trade"@, symbol@),
    {
        Self::channel_request("unsubscribe", "trade", symbol)
    }

    pub fn tickers(symbol: &str) -> (r: Self)
        ensures
            r@ == bitget_view("subscribe"@, "ticker"@, symbol@),
    {
        Self::channel_request("subscribe", "ticker", symbol)
    }
}



} // verus!
