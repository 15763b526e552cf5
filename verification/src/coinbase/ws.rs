//! Coinbase Advanced Trade WebSocket requests.
use vstd::prelude::*;
use crate::text::{owned, owned_all, single};

verus! {

/// Subscribe / unsubscribe request for the Coinbase Advanced Trade WebSocket.
/// Coinbase closes a connection that sends no subscribe request within five
/// seconds of connecting.
#[derive(Debug, Clone)]
pub struct CoinbaseWssMessage {
    pub msg_type: String,
    pub channel: String,
    pub product_ids: Vec<String>,
}

/// What a Coinbase request holds.
#[verifier::ext_equal]
pub struct CoinbaseRequestView {
    pub msg_type: Seq<char>,
    pub channel: Seq<char>,
    pub product_ids: Seq<Seq<char>>,
}

impl View for CoinbaseWssMessage {
    type V = CoinbaseRequestView;

    open spec fn view(&self) -> CoinbaseRequestView {
        CoinbaseRequestView {
            msg_type: self.msg_type@,
            channel: self.channel@,
            product_ids: self.product_ids.deep_view(),
        }
    }
}

/// The request of the given type on one channel for one product.
pub open spec fn coinbase_view(msg_type: Seq<char>, channel: Seq<char>, product_id: Seq<char>) -> CoinbaseRequestView {
    CoinbaseRequestView { msg_type, channel, product_ids: seq![product_id] }
}

impl CoinbaseWssMessage {
    fn channel_request(msg_type: &str, channel: &str, product_id: &str) -> (r: Self)
        ensures
            r@ == coinbase_view(msg_type@, channel@, product_id@),
    {
        let r = CoinbaseWssMessage {
            msg_type: owned(msg_type),
            channel: owned(channel),
            product_ids: single(owned(product_id)),
        };
        assert(r@ =~~= coinbase_view(msg_type@, channel@, product_id@));
        r
    }

    /// Subscribes to the `level2` order book channel of a product.
    pub fn depth(product_id: &str) -> (r: Self)
        ensures
            r@ == coinbase_view("subscribe"@, "level2"@, product_id@),
    {
        Self::channel_request("subscribe", "level2", product_id)
    }

    pub fn depth_unsub(product_id: &str) -> (r: Self)
        ensures
            r@ == coinbase_view("unsubscribe"@, "level2"@, product_id@),
    {
        Self::channel_request("unsubscribe", "level2", product_id)
    }

    /// Subscribes to the `market_trades` channel of a product.
    pub fn trades(product_id: &str) -> (r: Self)
        ensures
            r@ == coinbase_view("subscribe"@, "market_trades"@, product_id@),
    {
        Self::channel_request("subscribe", "market_trades", product_id)
    }

    pub fn trades_unsub(product_id: &str) -> (r: Self)
        ensures
            r@ == coinbase_view("unsubscribe"@, "market_trades"@, product_id@),
    {
        Self::channel_request("unsubscribe", "market_trades", product_id)
    }

    /// Subscribes to the `heartbeats` channel, which keeps a connection alive
    /// when market data is sparse; the product list may be empty.
    pub fn heartbeats(product_ids: &[&str]) -> (r: Self)
        ensures
            r@ == (CoinbaseRequestView {
                msg_type: "subscribe"@,
                channel: "heartbeats"@,
                product_ids: product_ids.deep_view(),
            }),
    {
        let r = CoinbaseWssMessage {
            msg_type: owned("subscribe"),
            channel: owned("heartbeats"),
            product_ids: owned_all(product_ids),
        };
        assert(r@ =~~= (CoinbaseRequestView {
            msg_type: "subscribe"@,
            channel: "heartbeats"@,
            product_ids: product_ids.deep_view(),
        }));
        r
    }
}



} // verus!
