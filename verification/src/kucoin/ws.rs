//! KuCoin Futures WebSocket requests.
use vstd::prelude::*;
use crate::text::{join2, owned};

verus! {

/// Subscribe / unsubscribe / ping request for KuCoin Futures topics.
#[derive(Debug, Clone)]
pub struct KuCoinWssMessage {
    pub id: String,
    pub msg_type: String,
    pub topic: Option<String>,
    pub private_channel: Option<bool>,
    pub response: Option<bool>,
}

/// What a KuCoin request holds.
#[verifier::ext_equal]
pub struct KuCoinRequestView {
    pub id: Seq<char>,
    pub msg_type: Seq<char>,
    pub topic: Option<Seq<char>>,
    pub private_channel: Option<bool>,
    pub response: Option<bool>,
}

impl View for KuCoinWssMessage {
    type V = KuCoinRequestView;

    open spec fn view(&self) -> KuCoinRequestView {
        KuCoinRequestView {
            id: self.id@,
            msg_type: self.msg_type@,
            topic: self.topic.deep_view(),
            private_channel: self.private_channel,
            response: self.response,
        }
    }
}

/// The public topic request of the given type, asking for an acknowledgement.
pub open spec fn kucoin_view(msg_type: Seq<char>, topic: Seq<char>) -> KuCoinRequestView {
    KuCoinRequestView { id: "1"@, msg_type, topic: Some(topic), private_channel: Some(false), response: Some(true) }
}

impl KuCoinWssMessage {
    fn topic_request(msg_type: &str, prefix: &str, symbol: &str) -> (r: Self)
        ensures
            r@ == kucoin_view(msg_type@, prefix@ + symbol@),
    {
        let r = KuCoinWssMessage {
            id: owned("1"),
            msg_type: owned(msg_type),
            topic: Some(join2(prefix, symbol)),
            private_channel: Some(false),
            response: Some(true),
        };
        assert(r@ =~~= kucoin_view(msg_type@, prefix@ + symbol@));
        r
    }

    pub fn ping() -> (r: Self)
        ensures
            r@ == (KuCoinRequestView { id: "1"@, msg_type: "ping"@, topic: None, private_channel: None, response: None }),
    {
        KuCoinWssMessage { id: owned("1"), msg_type: owned("ping"), topic: None, private_channel: None, response: None }
    }

    pub fn depth(symbol: &str) -> (r: Self)
        ensures
            r@ == kucoin_view("subscribe"@, "/contractMarket/level2:"@ + symbol@),
    {
        Self::topic_request("subscribe", "/contractMarket/level2:", symbol)
    }

    pub fn depth_unsub(symbol: &str) -> (r: Self)
        ensures
            r@ == kucoin_view("unsubscribe"@, "/contractMarket/level2:"@ + symbol@),
    {
        Self::topic_request("unsubscribe", "/contractMarket/level2:", symbol)
    }

    pub fn trades(symbol: &str) -> (r: Self)
        ensures
            r@ == kucoin_view("subscribe"@, "/contractMarket/execution:"@ + symbol@),
    {
        Self::topic_request("subscribe", "/contractMarket/execution:", symbol)
    }

    pub fn trades_unsub(symbol: &str) -> (r: Self)
        ensures
            r@ == kucoin_view("unsubscribe"@, "/contractMarket/execution:"@ + symbol@),
    {
        Self::topic_request("unsubscribe", "/contractMarket/execution:", symbol)
    }
}



} // verus!
