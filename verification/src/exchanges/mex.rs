//! MEXC spot: depth and deal payloads, subscription requests, and the upkeep
//! of one local order book per symbol.
use vstd::prelude::*;
use crate::orderbook::{LocalOrderBookError, LocalOrderBookErrorView};
use crate::text::{join2, owned, single, starts_with};
use crate::ws_mgr::table::NamedTable;

verus! {

#[derive(Debug, Clone)]
pub struct MexOrder {
    pub p: String,
    pub v: String,
}

#[derive(Debug, Clone)]
pub struct MexDepth {
    pub asks: Vec<MexOrder>,
    pub bids: Vec<MexOrder>,
    pub e: String,
    pub r: String,
}

#[derive(Debug, Clone)]
pub struct MexDepthMessage {
    pub c: String,
    pub d: MexDepth,
    pub s: String,
    pub t: u64,
}

#[derive(Debug, Clone)]
pub struct MexDeal {
    pub s: u8,
    pub p: String,
    pub t: u64,
    pub v: String,
}

#[derive(Debug, Clone)]
pub struct MexDeals {
    pub deals: Vec<MexDeal>,
    pub e: String,
}

#[derive(Debug, Clone)]
pub struct MexDealsMessage {
    pub c: String,
    pub d: MexDeals,
    pub s: String,
    pub t: u64,
}

#[derive(Debug, Clone)]
pub struct MexMessage {
    pub method: String,
    pub params: Option<Vec<String>>,
}

#[derive(Debug, Clone)]
pub struct Mex {}

/// What a MEXC request holds.
#[verifier::ext_equal]
pub struct MexMessageView {
    pub method: Seq<char>,
    pub params: Option<Seq<Seq<char>>>,
}

impl View for MexMessage {
    type V = MexMessageView;

    open spec fn view(&self) -> MexMessageView {
        MexMessageView { method: self.method@, params: self.params.deep_view() }
    }
}

/// The channel prefix of a full (limit-depth) book.
pub open spec fn full_depth_prefix() -> Seq<char> {
    "spot@public.limit.depth.v3.api"@
}

impl MexDepthMessage {
    /// A depth message is a full book when its channel starts with the
    /// limit-depth prefix.
    pub fn is_full_update(&self) -> (r: bool)
        ensures
            r == (full_depth_prefix().len() <= self.c@.len()
                && self.c@.subrange(0, full_depth_prefix().len() as int) == full_depth_prefix()),
    {
        starts_with(self.c.as_str(), "spot@public.limit.depth.v3.api")
    }

    /// A message converts to incremental updates unless it carries twenty
    /// levels on each side (a full book).
    pub fn is_partial(&self) -> (r: bool)
        ensures
            r == !(self.d.asks@.len() == 20 && self.d.bids@.len() == 20),
    {
        !(self.d.asks.len() == 20 && self.d.bids.len() == 20)
    }
}

impl Mex {
    /// The ping request, to be sent as JSON.
    pub fn ping() -> (r: MexMessage)
        ensures
            r@ == (MexMessageView { method: "PING"@, params: None }),
    {
        let r = MexMessage { method: owned("PING"), params: None };
        assert(r@ =~~= (MexMessageView { method: "PING"@, params: None }));
        r
    }

    /// Subscribes to the 20-level limit depth and to the incremental depth of
    /// `coin`.
    pub fn depth(coin: &str) -> (r: MexMessage)
        ensures
            r@ == (MexMessageView {
                method: "SUBSCRIPTION"@,
                params: Some(seq![
                    "spot@public.limit.depth.v3.api@"@ + coin@ + "@20"@,
                    "spot@public.increase.depth.v3.api@"@ + coin@,
                ]),
            }),
    {
        let limit = join2(join2("spot@public.limit.depth.v3.api@", coin).as_str(), "@20");
        let increase = join2("spot@public.increase.depth.v3.api@", coin);
        let ghost l = limit@;
        let ghost i = increase@;
        let params = vec![limit, increase];
        assert(params.deep_view() =~= seq![l, i]);
        let r = MexMessage { method: owned("SUBSCRIPTION"), params: Some(params) };
        assert(r@ =~~= (MexMessageView {
            method: "SUBSCRIPTION"@,
            params: Some(seq![
                "spot@public.limit.depth.v3.api@"@ + coin@ + "@20"@,
                "spot@public.increase.depth.v3.api@"@ + coin@,
            ]),
        }));
        r
    }

    /// Subscribes to the deals of `coin`.
    pub fn trades(coin: &str) -> (r: MexMessage)
        ensures
            r@ == (MexMessageView {
                method: "SUBSCRIPTION"@,
                params: Some(seq!["spot@public.deals.v3.api@"@ + coin@]),
            }),
    {
        let r = MexMessage {
            method: owned("SUBSCRIPTION"),
            params: Some(single(join2("spot@public.deals.v3.api@", coin))),
        };
        assert(r@ =~~= (MexMessageView {
            method: "SUBSCRIPTION"@,
            params: Some(seq!["spot@public.deals.v3.api@"@ + coin@]),
        }));
        r
    }
}

/// What the holder of the books is to do with an accepted depth message.
#[derive(Debug, PartialEq, Eq, Structural)]
pub enum MexBookStep {
    /// Replace (or start) the symbol's book by the message's levels.
    Replace,
    /// Apply the message's levels to the symbol's book, if they convert.
    ApplyDelta,
}

/// The books held, one per symbol. The levels are held by the caller, who
/// carries out each returned step; this records which symbols have a book.
pub struct MexOrderBook {
    books: NamedTable<()>,
}

impl MexOrderBook {
    /// The symbols that have a book.
    pub closed spec fn symbols(&self) -> Set<Seq<char>> {
        self.books@.dom()
    }

    pub closed spec fn wf(&self) -> bool {
        self.books.wf()
    }

    pub fn new() -> (r: Self)
        ensures
            r.wf(),
            r.symbols() == Set::<Seq<char>>::empty(),
    {
        MexOrderBook { books: NamedTable::new() }
    }

    /// Whether `coin` has a book.
    pub fn has_book(&self, coin: &str) -> (r: bool)
        requires
            self.wf(),
        ensures
            r == self.symbols().contains(coin@),
    {
        self.books.contains(coin)
    }

    /// Takes one depth message: a full book starts or replaces the symbol's
    /// book; an increment goes to the symbol's book, and is refused with
    /// `BookUpdateBeforeSnapshot` when the symbol has none.
    pub fn new_message(&mut self, msg: &MexDepthMessage) -> (r: Result<MexBookStep, LocalOrderBookError>)
        requires
            old(self).wf(),
        ensures
            final(self).wf(),
            msg.is_full_update_spec() ==> {
                &&& r == Ok::<MexBookStep, LocalOrderBookError>(MexBookStep::Replace)
                &&& final(self).symbols() == old(self).symbols().insert(msg.s@)
            },
            !msg.is_full_update_spec() ==> {
                &&& final(self).symbols() == old(self).symbols()
                &&& old(self).symbols().contains(msg.s@) ==> r == Ok::<MexBookStep, LocalOrderBookError>(MexBookStep::ApplyDelta)
                &&& !old(self).symbols().contains(msg.s@) ==> (r matches Err(e)
                    && e@ == LocalOrderBookErrorView::BookUpdateBeforeSnapshot("mex"@, msg.s@))
            },
    {
        if msg.is_full_update() {
            self.books.insert(msg.s.clone(), ());
            assert(self.books@.dom() =~= old(self).books@.dom().insert(msg.s@));
            Ok(MexBookStep::Replace)
        } else if self.books.contains(msg.s.as_str()) {
            Ok(MexBookStep::ApplyDelta)
        } else {
            Err(LocalOrderBookError::BookUpdateBeforeSnapshot(owned("mex"), msg.s.clone()))
        }
    }
}

impl MexDepthMessage {
    pub open spec fn is_full_update_spec(&self) -> bool {
        full_depth_prefix().len() <= self.c@.len()
            && self.c@.subrange(0, full_depth_prefix().len() as int) == full_depth_prefix()
    }
}

} // verus!
