//! Kraken Futures WebSocket requests.
use vstd::prelude::*;
use crate::text::{owned, single};

verus! {

/// Subscribe / unsubscribe / ping request for Kraken Futures feeds.
#[derive(Debug, Clone)]
pub struct KrakenWssMessage {
    pub event: String,
    pub feed: Option<String>,
    pub product_ids: Option<Vec<String>>,
}

/// What a Kraken request holds.
#[verifier::ext_equal]
pub struct KrakenRequestView {
    pub event: Seq<char>,
    pub feed: Option<Seq<char>>,
    pub product_ids: Option<Seq<Seq<char>>>,
}

impl View for KrakenWssMessage {
    type V = KrakenRequestView;

    open spec fn view(&self) -> KrakenRequestView {
        KrakenRequestView {
            event: self.event@,
            feed: self.feed.deep_view(),
            product_ids: self.product_ids.deep_view(),
        }
    }
}

/// The request of the given event on one feed for one product.
pub open spec fn kraken_view(event: Seq<char>, feed: Seq<char>, product_id: Seq<char>) -> KrakenRequestView {
    KrakenRequestView { event, feed: Some(feed), product_ids: Some(seq![product_id]) }
}

impl KrakenWssMessage {
    fn feed_request(event: &str, feed: &str, product_id: &str) -> (r: Self)
        ensures
            r@ == kraken_view(event@, feed@, product_id@),
    {
        let r = KrakenWssMessage {
            event: owned(event),
            feed: Some(owned(feed)),
            product_ids: Some(single(owned(product_id))),
        };
        assert(r@ =~~= kraken_view(event@, feed@, product_id@));
        r
    }

    pub fn ping() -> (r: Self)
        ensures
            r@ == (KrakenRequestView { event: "ping"@, feed: None, product_ids: None }),
    {
        KrakenWssMessage { event: owned("ping"), feed: None, product_ids: None }
    }

    pub fn depth(product_id: &str) -> (r: Self)
        ensures
            r@ == kraken_view("subscribe"@, "book"@, product_id@),
    {
        Self::feed_request("subscribe", "book", product_id)
    }

    pub fn depth_unsub(product_id: &str) -> (r: Self)
        ensures
            r@ == kraken_view("unsubscribe"@, "book"@, product_id@),
    {
        Self::feed_request("unsubscribe", "book", product_id)
    }

    pub fn trades(product_id: &str) -> (r: Self)
        ensures
            r@ == kraken_view("subscribe"@, "trade"@, product_id@),
    {
        Self::feed_request("subscribe", "trade", product_id)
    }

    pub fn trades_unsub(product_id: &str) -> (r: Self)
        ensures
            r@ == kraken_view("unsubscribe"@, "trade"@, product_id@),
    {
        Self::feed_request("unsubscribe", "trade", product_id)
    }
}

#[derive(Debug, Clone)]
pub struct KrakenSubscribeMessage {
    pub event: String,
    pub feed: String,
    pub product_ids: Vec<String>,
}

} // verus!
