//! Kraken Futures: subscription requests and the sequencing of a local
//! order book against the book feed.
use vstd::prelude::*;
use crate::kraken::ws::{KrakenRequestView, KrakenWssMessage};
use crate::orderbook::{LocalOrderBookError, LocalOrderBookErrorView};
use crate::text::{owned, single};

pub use crate::kraken::ws::KrakenSubscribeMessage;

verus! {

/// What a subscription request holds.
#[verifier::ext_equal]
pub struct KrakenSubscribeView {
    pub event: Seq<char>,
    pub feed: Seq<char>,
    pub product_ids: Seq<Seq<char>>,
}

impl View for KrakenSubscribeMessage {
    type V = KrakenSubscribeView;

    open spec fn view(&self) -> KrakenSubscribeView {
        KrakenSubscribeView { event: self.event@, feed: self.feed@, product_ids: self.product_ids.deep_view() }
    }
}

/// The request for one feed of one product.
pub open spec fn subscribe_view(event: Seq<char>, feed: Seq<char>, product_id: Seq<char>) -> KrakenSubscribeView {
    KrakenSubscribeView { event, feed, product_ids: seq![product_id] }
}

/// Builders of the requests sent on the Kraken Futures socket, each to be
/// sent as JSON.
pub struct WssApi {}

impl WssApi {
    fn feed_request(event: &str, feed: &str, product_id: &str) -> (r: KrakenSubscribeMessage)
        ensures
            r@ == subscribe_view(event@, feed@, product_id@),
    {
        let r = KrakenSubscribeMessage { event: owned(event), feed: owned(feed), product_ids: single(owned(product_id)) };
        assert(r@ =~~= subscribe_view(event@, feed@, product_id@));
        r
    }

    /// The ping request (`{"event":"ping"}`).
    pub fn ping() -> (r: KrakenWssMessage)
        ensures
            r@ == (KrakenRequestView { event: "ping"@, feed: None, product_ids: None }),
    {
        KrakenWssMessage::ping()
    }

    pub fn depth(product_id: &str) -> (r: KrakenSubscribeMessage)
        ensures
            r@ == subscribe_view("subscribe"@, "book"@, product_id@),
    {
        Self::feed_request("subscribe", "book", product_id)
    }

    pub fn depth_unsub(product_id: &str) -> (r: KrakenSubscribeMessage)
        ensures
            r@ == subscribe_view("unsubscribe"@, "book"@, product_id@),
    {
        Self::feed_request("unsubscribe", "book", product_id)
    }

    pub fn trades(product_id: &str) -> (r: KrakenSubscribeMessage)
        ensures
            r@ == subscribe_view("subscribe"@, "trade"@, product_id@),
    {
        Self::feed_request("subscribe", "trade", product_id)
    }

    pub fn trades_unsub(product_id: &str) -> (r: KrakenSubscribeMessage)
        ensures
            r@ == subscribe_view("unsubscribe"@, "trade"@, product_id@),
    {
        Self::feed_request("unsubscribe", "trade", product_id)
    }
}

/// The fields of a book snapshot or delta that sequencing reads: the product
/// and the sequence number. Prices and sizes stay with the caller.
#[derive(Debug, Clone)]
pub struct KrakenBookSequence {
    pub product_id: String,
    pub seq: i64,
}

/// Sequencing of the local order book of one Kraken Futures product: whether
/// a book is held and the sequence number of the last message applied.
pub struct KrakenOrderBook {
    pub symbol: String,
    pub book_built: bool,
    pub counter: i64,
}

impl KrakenOrderBook {
    pub fn new(symbol: String) -> (r: Self)
        ensures
            r.symbol@ == symbol@,
            !r.book_built,
            r.counter == 0,
    {
        KrakenOrderBook { symbol, book_built: false, counter: 0 }
    }

    /// Takes a delta. One for another product is refused with `WrongSymbol`;
    /// with no book it is refused with `BookUpdateBeforeSnapshot`; one whose
    /// sequence number is not the next is refused with `OutOfOrderUpdate`
    /// (expected, received). Otherwise it is to be applied, and the counter
    /// becomes its sequence number. A refused delta changes nothing.
    pub fn new_update(&mut self, msg: &KrakenBookSequence) -> (r: Result<(), LocalOrderBookError>)
        requires
            old(self).book_built ==> old(self).counter < i64::MAX,
        ensures
            final(self).symbol@ == old(self).symbol@,
            final(self).book_built == old(self).book_built,
            msg.product_id@ != old(self).symbol@ ==> final(self).counter == old(self).counter
                && (r matches Err(e) && e@ == LocalOrderBookErrorView::WrongSymbol(old(self).symbol@, msg.product_id@)),
            msg.product_id@ == old(self).symbol@ && !old(self).book_built ==> final(self).counter == old(self).counter
                && (r matches Err(e) && e@ == LocalOrderBookErrorView::BookUpdateBeforeSnapshot("kraken"@, msg.product_id@)),
            msg.product_id@ == old(self).symbol@ && old(self).book_built && msg.seq != old(self).counter + 1
                ==> final(self).counter == old(self).counter
                && (r matches Err(e) && e@ == LocalOrderBookErrorView::OutOfOrderUpdate(
                    "kraken"@, msg.product_id@, (old(self).counter + 1) as i64, msg.seq)),
            msg.product_id@ == old(self).symbol@ && old(self).book_built && msg.seq == old(self).counter + 1
                ==> r is Ok && final(self).counter == msg.seq,
    {
        if msg.product_id != self.symbol {
            return Err(LocalOrderBookError::WrongSymbol(self.symbol.clone(), msg.product_id.clone()));
        }
        if !self.book_built {
            return Err(LocalOrderBookError::BookUpdateBeforeSnapshot(owned("kraken"), msg.product_id.clone()));
        }
        let expected = self.counter + 1;
        if msg.seq == expected {
            self.counter = msg.seq;
            Ok(())
        } else {
            Err(LocalOrderBookError::OutOfOrderUpdate(owned("kraken"), msg.product_id.clone(), expected, msg.seq))
        }
    }

    /// Takes a snapshot: one for another product is ignored (`false`); else
    /// the book is to be replaced by it (`true`) and the counter becomes its
    /// sequence number.
    pub fn new_snapshot(&mut self, msg: &KrakenBookSequence) -> (r: bool)
        ensures
            final(self).symbol@ == old(self).symbol@,
            r == (msg.product_id@ == old(self).symbol@),
            r ==> final(self).book_built && final(self).counter == msg.seq,
            !r ==> final(self).book_built == old(self).book_built && final(self).counter == old(self).counter,
    {
        if msg.product_id != self.symbol {
            return false;
        }
        self.counter = msg.seq;
        self.book_built = true;
        true
    }
}

} // verus!
