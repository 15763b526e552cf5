//! Binance Futures: the text of the stream requests, and the rules that keep a
//! local order book in step with the depth-diff stream and a REST snapshot.
use vstd::prelude::*;
use crate::candle::{checked_time, kept_time, Candle};
use crate::orderbook::{LocalOrderBookError, LocalOrderBookErrorView};
use crate::text::{join2, join_quoted, owned, to_uppercase, uppercase, push_quoted, quoted, quoted_csv, stream, stream_name, stream_names, streams};

pub use crate::binance::ws::{
    BinanceCandleMessage, BinanceDepthDiffMessage, BinanceKlineData, BinanceOrderBookSnapshot,
    BinanceTradeMessage,
};

verus! {

/// The text of a request with id 1, the given method and the given list of
/// parameters (already quoted and comma-separated).
pub open spec fn request_text(method: Seq<char>, params: Seq<char>) -> Seq<char> {
    "{\"id\": 1, \"method\": \""@ + method + "\", \"params\": ["@ + params + "]}"@
}

/// The request text that subscribes to, or unsubscribes from, one stream.
pub open spec fn single_stream_text(method: Seq<char>, symbol: Seq<char>, suffix: Seq<char>) -> Seq<char> {
    request_text(method, quoted(stream_name(symbol, suffix)))
}

/// The request text that subscribes to one stream per symbol, in order.
pub open spec fn batch_text(symbols: Seq<Seq<char>>, suffix: Seq<char>) -> Seq<char> {
    request_text("SUBSCRIBE"@, quoted_csv(stream_names(symbols, suffix)))
}

/// Builders of the request texts sent on the Binance Futures socket.
pub struct WssApi;

impl WssApi {
    fn request(method: &str, params: &str) -> (r: String)
        ensures
            r@ == request_text(method@, params@),
    {
        let mut s = owned("{\"id\": 1, \"method\": \"");
        s.append(method);
        s.append("\", \"params\": [");
        s.append(params);
        s.append("]}");
        s
    }

    fn single(method: &str, symbol: &str, suffix: &str) -> (r: String)
        ensures
            r@ == single_stream_text(method@, symbol@, suffix@),
    {
        let name = stream(symbol, suffix);
        let mut params = String::new();
        push_quoted(&mut params, name.as_str());
        Self::request(method, params.as_str())
    }

    fn batch(symbols: &[String], suffix: &str) -> (r: String)
        ensures
            r@ == batch_text(symbols.deep_view(), suffix@),
    {
        let names = streams(symbols, suffix);
        let params = join_quoted(names.as_slice());
        Self::request("SUBSCRIBE", params.as_str())
    }

    pub fn ping() -> (r: String)
        ensures
            r@ == "{\"id\": 1, \"method\": \"ping\"}"@,
    {
        owned("{\"id\": 1, \"method\": \"ping\"}")
    }

    pub fn depth(symbol: &str) -> (r: String)
        ensures
            r@ == single_stream_text("SUBSCRIBE"@, symbol@, "@depth@100ms"@),
    {
        Self::single("SUBSCRIBE", symbol, "@depth@100ms")
    }

    pub fn depth_unsub(symbol: &str) -> (r: String)
        ensures
            r@ == single_stream_text("UNSUBSCRIBE"@, symbol@, "@depth@100ms"@),
    {
        Self::single("UNSUBSCRIBE", symbol, "@depth@100ms")
    }

    pub fn trades(symbol: &str) -> (r: String)
        ensures
            r@ == single_stream_text("SUBSCRIBE"@, symbol@, "@trade"@),
    {
        Self::single("SUBSCRIBE", symbol, "@trade")
    }

    pub fn trades_unsub(symbol: &str) -> (r: String)
        ensures
            r@ == single_stream_text("UNSUBSCRIBE"@, symbol@, "@trade"@),
    {
        Self::single("UNSUBSCRIBE", symbol, "@trade")
    }

    pub fn batch_depth(symbols: &[String]) -> (r: String)
        ensures
            r@ == batch_text(symbols.deep_view(), "@depth@100ms"@),
    {
        Self::batch(symbols, "@depth@100ms")
    }

    pub fn batch_trades(symbols: &[String]) -> (r: String)
        ensures
            r@ == batch_text(symbols.deep_view(), "@trade"@),
    {
        Self::batch(symbols, "@trade")
    }

    pub fn candle(symbol: &str) -> (r: String)
        ensures
            r@ == single_stream_text("SUBSCRIBE"@, symbol@, "@kline_1m"@),
    {
        Self::single("SUBSCRIBE", symbol, "@kline_1m")
    }

    pub fn candle_unsub(symbol: &str) -> (r: String)
        ensures
            r@ == single_stream_text("UNSUBSCRIBE"@, symbol@, "@kline_1m"@),
    {
        Self::single("UNSUBSCRIBE", symbol, "@kline_1m")
    }
}

/// An error body of the Binance REST API.
#[derive(Debug, Clone)]
pub struct BinanceErrorResponse {
    pub code: i32,
    pub msg: String,
}

/// A depth snapshot fetched from the REST API, with whether every one of its
/// price and size strings reads as a number (which only the caller, holding
/// the book, can tell).
#[derive(Debug)]
pub struct ReceivedSnapshot {
    pub snapshot: BinanceOrderBookSnapshot,
    pub levels_parse: bool,
}

/// What the background snapshot fetch had to say when a diff arrived.
#[derive(Debug)]
pub enum SnapshotPoll {
    /// No snapshot is available yet (or none was asked for).
    NotReady,
    /// The fetch delivered this snapshot.
    Received(ReceivedSnapshot),
    /// The fetch ended without delivering a snapshot.
    Disconnected,
}

/// What the holder of the book is to do after a diff, in this order: build
/// the book from the stored snapshot and then apply `build`'s events one by
/// one; apply `apply`; drop the book if `discard`; start a snapshot fetch if
/// `fetch_snapshot`.
#[derive(Debug)]
pub struct SyncActions {
    pub build: Option<Vec<BinanceDepthDiffMessage>>,
    pub apply: Option<BinanceDepthDiffMessage>,
    pub discard: bool,
    pub fetch_snapshot: bool,
}

/// What a list of actions holds.
pub struct SyncActionsView {
    pub build: Option<Seq<BinanceDepthDiffMessage>>,
    pub apply: Option<BinanceDepthDiffMessage>,
    pub discard: bool,
    pub fetch_snapshot: bool,
}

impl View for SyncActions {
    type V = SyncActionsView;

    open spec fn view(&self) -> SyncActionsView {
        SyncActionsView {
            build: match self.build {
                Some(v) => Some(v@),
                None => None,
            },
            apply: self.apply,
            discard: self.discard,
            fetch_snapshot: self.fetch_snapshot,
        }
    }
}

/// The synchronisation state of a book: the last update id applied, whether
/// the book is built, the snapshot held, whether a fetch was started and is
/// still to be heard from, and the diffs buffered while no book is built.
pub struct BookSyncView {
    pub symbol: Seq<char>,
    pub counter: u64,
    pub book_built: bool,
    pub snapshot: Option<ReceivedSnapshot>,
    pub triggered: bool,
    pub pending: bool,
    pub buffer: Seq<BinanceDepthDiffMessage>,
}

/// `buffer` without the diffs at its front that end before `last_update_id`.
pub open spec fn drop_stale(buffer: Seq<BinanceDepthDiffMessage>, last_update_id: u64) -> Seq<BinanceDepthDiffMessage>
    decreases buffer.len(),
{
    if buffer.len() > 0 && buffer[0].final_update_id < last_update_id {
        drop_stale(buffer.drop_first(), last_update_id)
    } else {
        buffer
    }
}

/// The update id a book built from a snapshot and `events` has reached: the
/// final id of the last event, or the snapshot's id when there is none.
pub open spec fn id_after_build(events: Seq<BinanceDepthDiffMessage>, last_update_id: u64) -> u64 {
    if events.len() == 0 {
        last_update_id
    } else {
        events.last().final_update_id
    }
}

/// The state after the book was built from the held snapshot and `events`.
pub open spec fn built_state(s: BookSyncView, events: Seq<BinanceDepthDiffMessage>, last_update_id: u64) -> BookSyncView {
    BookSyncView { counter: id_after_build(events, last_update_id), book_built: true, buffer: Seq::empty(), ..s }
}

/// The state after everything was dropped to start over from a new snapshot.
pub open spec fn cleared_state(s: BookSyncView) -> BookSyncView {
    BookSyncView {
        counter: 0,
        book_built: false,
        snapshot: None,
        triggered: false,
        buffer: Seq::empty(),
        ..s
    }
}

/// The error that a snapshot with an unreadable level gives.
pub open spec fn unparseable(s: BookSyncView) -> LocalOrderBookErrorView {
    LocalOrderBookErrorView::UnparseableInputs("binance"@, s.symbol)
}

/// First step: what the background fetch delivered. The state after it, the
/// events of a build made from a newly received snapshot, or the error when
/// that snapshot does not read.
pub open spec fn after_poll(s: BookSyncView, poll: SnapshotPoll) -> (BookSyncView, Result<Option<Seq<BinanceDepthDiffMessage>>, LocalOrderBookErrorView>) {
    if !s.pending {
        (s, Ok(None))
    } else {
        match poll {
            SnapshotPoll::NotReady => (s, Ok(None)),
            SnapshotPoll::Disconnected => (BookSyncView { triggered: false, pending: false, ..s }, Ok(None)),
            SnapshotPoll::Received(rs) => {
                let id = rs.snapshot.last_update_id;
                let events = drop_stale(s.buffer, id);
                let held = BookSyncView { snapshot: Some(rs), pending: false, buffer: events, ..s };
                if rs.levels_parse {
                    (built_state(held, events, id), Ok(Some(events)))
                } else {
                    (held, Err(unparseable(s)))
                }
            },
        }
    }
}

/// Second step: a fetch is started when there is neither a snapshot nor a
/// fetch under way.
pub open spec fn after_trigger(s: BookSyncView) -> (BookSyncView, bool) {
    if s.snapshot is None && !s.triggered {
        (BookSyncView { triggered: true, pending: true, ..s }, true)
    } else {
        (s, false)
    }
}

/// Whether the buffered events cannot bridge the snapshot, so that it must be
/// fetched again: with no event left, the diff is already past the snapshot;
/// else the first event does not span the snapshot's id.
pub open spec fn should_clear(events: Seq<BinanceDepthDiffMessage>, diff: BinanceDepthDiffMessage, id: u64) -> bool {
    if events.len() == 0 {
        diff.final_update_id > id
    } else {
        !(events[0].first_update_id <= id && events[0].final_update_id >= id)
    }
}

/// Whether a diff continues the built book: its previous final id is the
/// counter, or its range of ids holds the counter.
pub open spec fn continues(diff: BinanceDepthDiffMessage, counter: u64) -> bool {
    diff.previous_final_update_id == counter
        || (diff.first_update_id <= counter && counter <= diff.final_update_id)
}

/// The result of the third step: the events of a build, the diff to apply,
/// and whether the built book is dropped.
pub struct DiffStep {
    pub build: Option<Seq<BinanceDepthDiffMessage>>,
    pub apply: Option<BinanceDepthDiffMessage>,
    pub discard: bool,
}

pub open spec fn no_step() -> DiffStep {
    DiffStep { build: None, apply: None, discard: false }
}

/// Third step: the diff itself. While no book is built it is buffered; with
/// a snapshot held the buffer is then checked against it and the book built,
/// or the diff is checked against the counter and applied.
pub open spec fn after_diff(s: BookSyncView, diff: BinanceDepthDiffMessage, diff_parses: bool) -> (BookSyncView, Result<DiffStep, LocalOrderBookErrorView>) {
    let s1 = if s.book_built { s } else { BookSyncView { buffer: s.buffer.push(diff), ..s } };
    match s.snapshot {
        None => (s1, Ok(no_step())),
        Some(rs) => {
            let id = rs.snapshot.last_update_id;
            if !s.book_built {
                let events = drop_stale(s1.buffer, id);
                let s2 = BookSyncView { buffer: events, ..s1 };
                if should_clear(events, diff, id) {
                    (cleared_state(s2), Ok(no_step()))
                } else if diff.final_update_id < id {
                    (s2, Ok(no_step()))
                } else if !rs.levels_parse {
                    (s2, Err(unparseable(s)))
                } else {
                    (built_state(s2, events, id), Ok(DiffStep { build: Some(events), apply: None, discard: false }))
                }
            } else if continues(diff, s.counter) {
                if diff_parses {
                    (BookSyncView { counter: diff.final_update_id, ..s }, Ok(DiffStep { build: None, apply: Some(diff), discard: false }))
                } else {
                    (s, Ok(no_step()))
                }
            } else {
                (cleared_state(s), Ok(DiffStep { build: None, apply: None, discard: true }))
            }
        },
    }
}

/// Local order book synchronisation for one Binance Futures symbol. The book
/// itself (prices and sizes) is held by the caller, who carries out the
/// actions each diff returns; this type decides when to fetch a snapshot,
/// which diffs to buffer, when the book can be built, and which diffs chain.
pub struct BinanceOrderBook {
    symbol: String,
    counter: u64,
    book_built: bool,
    snapshot: Option<ReceivedSnapshot>,
    snapshot_triggered: bool,
    snapshot_pending: bool,
    event_buff: Vec<BinanceDepthDiffMessage>,
}

impl View for BinanceOrderBook {
    type V = BookSyncView;

    closed spec fn view(&self) -> BookSyncView {
        BookSyncView {
            symbol: self.symbol@,
            counter: self.counter,
            book_built: self.book_built,
            snapshot: self.snapshot,
            triggered: self.snapshot_triggered,
            pending: self.snapshot_pending,
            buffer: self.event_buff@,
        }
    }
}

/// The invariant of the synchronisation state: a fetch still to be heard
/// from was started with no snapshot held; a snapshot is only held once a
/// fetch was started; a built book has a snapshot and nothing buffered.
pub open spec fn sync_wf(s: BookSyncView) -> bool {
    &&& s.pending ==> (s.snapshot is None && s.triggered)
    &&& s.snapshot is Some ==> s.triggered
    &&& s.book_built ==> (s.snapshot is Some && s.buffer.len() == 0)
}

impl BinanceOrderBook {
    pub open spec fn wf(&self) -> bool {
        sync_wf(self@)
    }

    /// The symbol whose book this is.
    pub fn symbol(&self) -> (r: &str)
        ensures
            r@ == self@.symbol,
    {
        self.symbol.as_str()
    }

    /// The final update id of the last event applied to the book (or of the
    /// snapshot it was built from).
    pub fn counter(&self) -> (r: u64)
        ensures
            r == self@.counter,
    {
        self.counter
    }

    pub fn new(symbol: String) -> (r: Self)
        ensures
            r.wf(),
            r@ == (BookSyncView {
                symbol: symbol@,
                counter: 0,
                book_built: false,
                snapshot: None,
                triggered: false,
                pending: false,
                buffer: Seq::empty(),
            }),
    {
        BinanceOrderBook {
            symbol,
            counter: 0,
            book_built: false,
            snapshot: None,
            snapshot_triggered: false,
            snapshot_pending: false,
            event_buff: Vec::new(),
        }
    }

    /// Whether the book is built (the caller holds a book in step).
    pub fn has_book(&self) -> (r: bool)
        ensures
            r == self@.book_built,
    {
        self.book_built
    }

    /// The snapshot held, from which a `build` action builds the book.
    pub fn snapshot(&self) -> (r: Option<&BinanceOrderBookSnapshot>)
        ensures
            match self@.snapshot {
                Some(rs) => r == Some(&rs.snapshot),
                None => r is None,
            },
    {
        match &self.snapshot {
            Some(rs) => Some(&rs.snapshot),
            None => None,
        }
    }

    /// Whether a snapshot fetch was started and not yet given up.
    pub fn snapshot_triggered(&self) -> (r: bool)
        ensures
            r == self@.triggered,
    {
        self.snapshot_triggered
    }

    /// The number of diffs buffered while no book is built.
    pub fn buffered(&self) -> (r: usize)
        ensures
            r == self@.buffer.len(),
    {
        self.event_buff.len()
    }

    /// Drops everything, as after a reconnection, so that a fresh snapshot is
    /// fetched.
    pub fn reset(&mut self)
        ensures
            final(self).wf(),
            final(self)@ == (BookSyncView { pending: false, ..cleared_state(old(self)@) }),
    {
        self.snapshot = None;
        self.snapshot_triggered = false;
        self.book_built = false;
        self.counter = 0;
        self.event_buff = Vec::new();
        self.snapshot_pending = false;
        assert(self@.buffer =~= Seq::<BinanceDepthDiffMessage>::empty());
    }

    fn drop_stale_events(&mut self, id: u64)
        ensures
            final(self)@ == (BookSyncView { buffer: drop_stale(old(self)@.buffer, id), ..old(self)@ }),
    {
        while self.event_buff.len() > 0 && self.event_buff[0].final_update_id < id
            invariant
                drop_stale(self.event_buff@, id) == drop_stale(old(self)@.buffer, id),
                self.symbol == old(self).symbol,
                self.counter == old(self).counter,
                self.book_built == old(self).book_built,
                self.snapshot == old(self).snapshot,
                self.snapshot_triggered == old(self).snapshot_triggered,
                self.snapshot_pending == old(self).snapshot_pending,
            decreases self.event_buff.len(),
        {
            assert(self.event_buff@.drop_first() =~= self.event_buff@.remove(0));
            self.event_buff.remove(0);
        }
    }

    /// Builds from the events buffered: hands them out and sets the counter.
    fn build_from(&mut self, id: u64) -> (events: Vec<BinanceDepthDiffMessage>)
        ensures
            events@ == old(self)@.buffer,
            final(self)@ == built_state(old(self)@, old(self)@.buffer, id),
    {
        let mut events: Vec<BinanceDepthDiffMessage> = Vec::new();
        std::mem::swap(&mut events, &mut self.event_buff);
        let n = events.len();
        self.counter = if n == 0 { id } else { events[n - 1].final_update_id };
        self.book_built = true;
        assert(self.event_buff@ =~= Seq::<BinanceDepthDiffMessage>::empty());
        events
    }

    fn clear(&mut self)
        ensures
            final(self)@ == cleared_state(old(self)@),
    {
        self.snapshot = None;
        self.snapshot_triggered = false;
        self.book_built = false;
        self.counter = 0;
        self.event_buff = Vec::new();
        assert(self.event_buff@ =~= Seq::<BinanceDepthDiffMessage>::empty());
    }

    fn unparseable_error(&self) -> (e: LocalOrderBookError)
        ensures
            e@ == unparseable(self@),
    {
        LocalOrderBookError::UnparseableInputs(owned("binance"), self.symbol.clone())
    }

    fn poll_step(&mut self, poll: SnapshotPoll) -> (r: Result<Option<Vec<BinanceDepthDiffMessage>>, LocalOrderBookError>)
        ensures
            final(self)@ == after_poll(old(self)@, poll).0,
            match (r, after_poll(old(self)@, poll).1) {
                (Ok(Some(v)), Ok(Some(w))) => v@ == w,
                (Ok(None), Ok(None)) => true,
                (Err(e), Err(f)) => e@ == f,
                _ => false,
            },
    {
        if !self.snapshot_pending {
            return Ok(None);
        }
        match poll {
            SnapshotPoll::NotReady => Ok(None),
            SnapshotPoll::Disconnected => {
                self.snapshot_triggered = false;
                self.snapshot_pending = false;
                Ok(None)
            },
            SnapshotPoll::Received(rs) => {
                let id = rs.snapshot.last_update_id;
                let parses = rs.levels_parse;
                self.snapshot = Some(rs);
                self.snapshot_pending = false;
                self.drop_stale_events(id);
                if parses {
                    let events = self.build_from(id);
                    Ok(Some(events))
                } else {
                    Err(self.unparseable_error())
                }
            },
        }
    }

    fn trigger_step(&mut self) -> (fetch: bool)
        ensures
            final(self)@ == after_trigger(old(self)@).0,
            fetch == after_trigger(old(self)@).1,
    {
        if self.snapshot.is_none() && !self.snapshot_triggered {
            self.snapshot_triggered = true;
            self.snapshot_pending = true;
            true
        } else {
            false
        }
    }

    fn diff_step(&mut self, diff: BinanceDepthDiffMessage, diff_parses: bool) -> (r: Result<(Option<Vec<BinanceDepthDiffMessage>>, Option<BinanceDepthDiffMessage>, bool), LocalOrderBookError>)
        ensures
            final(self)@ == after_diff(old(self)@, diff, diff_parses).0,
            match (r, after_diff(old(self)@, diff, diff_parses).1) {
                (Ok((b, a, d)), Ok(step)) => {
                    &&& match (b, step.build) {
                        (Some(v), Some(w)) => v@ == w,
                        (None, None) => true,
                        _ => false,
                    }
                    &&& a == step.apply
                    &&& d == step.discard
                },
                (Err(e), Err(f)) => e@ == f,
                _ => false,
            },
    {
        let ghost s0 = self@;
        let final_id = diff.final_update_id;
        let first_id = diff.first_update_id;
        let prev_id = diff.previous_final_update_id;
        let built = self.book_built;
        let ghost d = diff;
        let mut kept: Option<BinanceDepthDiffMessage> = None;
        if !built {
            self.event_buff.push(diff);
        } else {
            kept = Some(diff);
        }
        let held: Option<(u64, bool)> = match &self.snapshot {
            Some(rs) => Some((rs.snapshot.last_update_id, rs.levels_parse)),
            None => None,
        };
        match held {
            None => Ok((None, None, false)),
            Some((id, parses)) => {
                if !built {
                    self.drop_stale_events(id);
                    let n = self.event_buff.len();
                    let clear = if n == 0 {
                        final_id > id
                    } else {
                        !(self.event_buff[0].first_update_id <= id && self.event_buff[0].final_update_id >= id)
                    };
                    if clear {
                        self.clear();
                        Ok((None, None, false))
                    } else if final_id < id {
                        Ok((None, None, false))
                    } else if !parses {
                        Err(self.unparseable_error())
                    } else {
                        let events = self.build_from(id);
                        Ok((Some(events), None, false))
                    }
                } else if prev_id == self.counter || (first_id <= self.counter && self.counter <= final_id) {
                    if diff_parses {
                        self.counter = final_id;
                        Ok((None, kept, false))
                    } else {
                        Ok((None, None, false))
                    }
                } else {
                    self.clear();
                    Ok((None, None, true))
                }
            },
        }
    }

    /// Handles one depth diff. A diff for another symbol is refused with
    /// `WrongSymbol` and changes nothing. Otherwise the snapshot fetch is
    /// heard from (`poll`; a snapshot that does not read is refused with
    /// `UnparseableInputs`), a fetch is started if needed, and the diff is
    /// buffered, bridged to the snapshot or chained onto the built book.
    /// `diff_parses` tells whether the diff's levels read as numbers.
    pub fn new_update_diff(&mut self, diff: BinanceDepthDiffMessage, diff_parses: bool, poll: SnapshotPoll) -> (r: Result<SyncActions, LocalOrderBookError>)
        requires
            old(self).wf(),
        ensures
            final(self).wf(),
            diff.symbol@ != old(self)@.symbol ==> {
                &&& final(self)@ == old(self)@
                &&& r matches Err(e) && e@ == LocalOrderBookErrorView::WrongSymbol(old(self)@.symbol, diff.symbol@)
            },
            diff.symbol@ == old(self)@.symbol ==> {
                let (s1, polled) = after_poll(old(self)@, poll);
                let (s2, fetch) = after_trigger(s1);
                let (s3, stepped) = after_diff(s2, diff, diff_parses);
                match polled {
                    Err(f) => {
                        &&& final(self)@ == s1
                        &&& r matches Err(e) && e@ == f
                    },
                    Ok(first_build) => match stepped {
                        Err(f) => {
                            &&& final(self)@ == s3
                            &&& r matches Err(e) && e@ == f
                        },
                        Ok(step) => {
                            &&& final(self)@ == s3
                            &&& r matches Ok(a) && a@ == (SyncActionsView {
                                build: if first_build is Some { first_build } else { step.build },
                                apply: step.apply,
                                discard: step.discard,
                                fetch_snapshot: fetch,
                            })
                        },
                    },
                }
            },
    {
        if diff.symbol != self.symbol {
            return Err(LocalOrderBookError::WrongSymbol(self.symbol.clone(), diff.symbol.clone()));
        }
        let polled = self.poll_step(poll);
        let first_build = match polled {
            Err(e) => {
                return Err(e);
            },
            Ok(b) => b,
        };
        let fetch = self.trigger_step();
        let stepped = self.diff_step(diff, diff_parses);
        match stepped {
            Err(e) => Err(e),
            Ok((b, a, d)) => {
                let build = match first_build {
                    Some(v) => Some(v),
                    None => b,
                };
                Ok(SyncActions { build, apply: a, discard: d, fetch_snapshot: fetch })
            },
        }
    }
}

/// Cleaning the buffer against a snapshot drops a prefix of it, every event
/// of which ended before the snapshot's id; what is kept starts at or after
/// that id.
pub proof fn lemma_drop_stale_keeps_suffix(buffer: Seq<BinanceDepthDiffMessage>, id: u64)
    ensures
        ({
            let kept = drop_stale(buffer, id);
            let k = buffer.len() - kept.len();
            &&& kept.len() <= buffer.len()
            &&& kept == buffer.subrange(k, buffer.len() as int)
            &&& forall|i: int| 0 <= i < k ==> (#[trigger] buffer[i]).final_update_id < id
            &&& kept.len() > 0 ==> kept[0].final_update_id >= id
        }),
    decreases buffer.len(),
{
    if buffer.len() > 0 && buffer[0].final_update_id < id {
        let rest = buffer.drop_first();
        lemma_drop_stale_keeps_suffix(rest, id);
        let kept = drop_stale(rest, id);
        let k = rest.len() - kept.len();
        assert(kept == buffer.subrange(k + 1, buffer.len() as int));
        assert forall|i: int| 0 <= i < k + 1 implies (#[trigger] buffer[i]).final_update_id < id by {
            if i > 0 {
                assert(buffer[i] == rest[i - 1]);
            }
        }
    } else {
        assert(buffer == buffer.subrange(0, buffer.len() as int));
    }
}

/// Until a snapshot is held, each diff is appended to the buffer and nothing
/// else happens.
pub proof fn lemma_diffs_buffered_until_snapshot(s: BookSyncView, diff: BinanceDepthDiffMessage, diff_parses: bool)
    requires
        sync_wf(s),
        s.snapshot is None,
    ensures
        after_diff(s, diff, diff_parses) == (BookSyncView { buffer: s.buffer.push(diff), ..s }, Ok::<DiffStep, LocalOrderBookErrorView>(no_step())),
{
}

/// On a built book, a diff that chains (its previous final id is the
/// counter, or its ids span the counter) and reads is applied, and the
/// counter moves to its final id; nothing is fetched, built or dropped.
pub proof fn lemma_chained_diff_applied(s: BookSyncView, diff: BinanceDepthDiffMessage, poll: SnapshotPoll)
    requires
        sync_wf(s),
        s.book_built,
        continues(diff, s.counter),
    ensures
        after_poll(s, poll) == (s, Ok::<Option<Seq<BinanceDepthDiffMessage>>, LocalOrderBookErrorView>(None)),
        after_trigger(s) == (s, false),
        after_diff(s, diff, true) == (
            BookSyncView { counter: diff.final_update_id, ..s },
            Ok::<DiffStep, LocalOrderBookErrorView>(DiffStep { build: None, apply: Some(diff), discard: false }),
        ),
{
}

/// On a built book, a diff that does not chain drops the book, the snapshot
/// and the counter; the next diff, whatever the fetch says, starts a new
/// snapshot fetch.
pub proof fn lemma_gap_restarts_from_snapshot(s: BookSyncView, diff: BinanceDepthDiffMessage, diff_parses: bool, next_poll: SnapshotPoll)
    requires
        sync_wf(s),
        s.book_built,
        !continues(diff, s.counter),
    ensures
        after_diff(s, diff, diff_parses) == (
            cleared_state(s),
            Ok::<DiffStep, LocalOrderBookErrorView>(DiffStep { build: None, apply: None, discard: true }),
        ),
        after_trigger(after_poll(cleared_state(s), next_poll).0).1,
{
}

/// After a reset, the next diff of the book's symbol starts a snapshot fetch.
pub proof fn lemma_reset_fetches_again(s: BookSyncView, poll: SnapshotPoll)
    ensures
        ({
            let r = BookSyncView { pending: false, ..cleared_state(s) };
            after_trigger(after_poll(r, poll).0).1
        }),
{
}

/// A newly received snapshot that reads builds the book at once from the
/// buffered events that end at or after its id, and the counter becomes the
/// last of their final ids, or the snapshot's id.
pub proof fn lemma_received_snapshot_builds(s: BookSyncView, rs: ReceivedSnapshot)
    requires
        sync_wf(s),
        s.pending,
        rs.levels_parse,
    ensures
        ({
            let id = rs.snapshot.last_update_id;
            let events = drop_stale(s.buffer, id);
            let (s1, r) = after_poll(s, SnapshotPoll::Received(rs));
            &&& r == Ok::<Option<Seq<BinanceDepthDiffMessage>>, LocalOrderBookErrorView>(Some(events))
            &&& s1.book_built
            &&& s1.buffer.len() == 0
            &&& s1.counter == id_after_build(events, id)
            &&& sync_wf(s1)
        }),
{
}

/// The candle of a Binance kline: its prices, the quote-asset volume, its
/// start and close times (each kept as `kept_time` says, the millisecond
/// counts read as signed), and the kline's symbol.
impl From<BinanceCandleMessage> for Candle {
    fn from(value: BinanceCandleMessage) -> (r: Candle)
        ensures
            r.open == value.kline.open,
            r.high == value.kline.high,
            r.low == value.kline.low,
            r.close == value.kline.close,
            r.volume == value.kline.quote_volume,
            r.coin == value.kline.symbol,
            r.time == kept_time(value.kline.open_time as i64),
            r.close_time == kept_time(value.kline.close_time as i64),
    {
        let open_time = value.kline.open_time as i64;
        let close_time = value.kline.close_time as i64;
        Candle {
            open: value.kline.open,
            high: value.kline.high,
            low: value.kline.low,
            close: value.kline.close,
            volume: value.kline.quote_volume,
            exchange: "binance",
            time: checked_time(open_time),
            close_time: checked_time(close_time),
            coin: value.kline.symbol,
        }
    }
}

impl vstd::std_specs::convert::FromSpecImpl<BinanceCandleMessage> for Candle {
    open spec fn obeys_from_spec() -> bool {
        true
    }

    open spec fn from_spec(value: BinanceCandleMessage) -> Candle {
        Candle {
            open: value.kline.open,
            high: value.kline.high,
            low: value.kline.low,
            close: value.kline.close,
            volume: value.kline.quote_volume,
            exchange: "binance",
            time: kept_time(value.kline.open_time as i64),
            close_time: kept_time(value.kline.close_time as i64),
            coin: value.kline.symbol,
        }
    }
}

/// The REST URL of the depth snapshot of `symbol`: the symbol upper-cased,
/// with a thousand levels a side.
pub fn snapshot_url(symbol: &str) -> (r: String)
    ensures
        r@ == "https://fapi.binance.com/fapi/v1/depth?symbol="@ + uppercase(symbol@) + "&limit=1000"@,
{
    let upper = to_uppercase(symbol);
    let mut url = join2("https://fapi.binance.com/fapi/v1/depth?symbol=", upper.as_str());
    url.append("&limit=1000");
    url
}

/// Why a depth-snapshot fetch failed.
#[derive(Debug)]
pub enum SnapshotFetchError {
    /// Rate limited by status (HTTP 429 or 418): wait this many seconds.
    RetryAfter(u64),
    /// The API reported its rate limit (code -1003), with its message.
    RateLimit(String),
    /// Another API error: its code and message.
    Api(i32, String),
    /// The body did not read as a snapshot, with the reason.
    Unreadable(String),
}

/// The seconds to wait when a rate-limiting status carries no Retry-After.
pub open spec fn default_retry_after() -> u64 {
    120
}

/// Reads the answer to a depth-snapshot request: its HTTP status, its
/// Retry-After header read as seconds (if present and a number), its body
/// read as an API error (if it reads as one), and its body read as a
/// snapshot (or why it does not read). A rate-limiting status comes first,
/// then an error body, then the snapshot.
pub fn classify_snapshot_response(
    status: u16,
    retry_after: Option<u64>,
    error_body: Option<BinanceErrorResponse>,
    snapshot: Result<BinanceOrderBookSnapshot, String>,
) -> (r: Result<BinanceOrderBookSnapshot, SnapshotFetchError>)
    ensures
        (status == 429 || status == 418) ==> (r matches Err(SnapshotFetchError::RetryAfter(secs))
            && secs == match retry_after { Some(v) => v, None => default_retry_after() }),
        !(status == 429 || status == 418) ==> match error_body {
            Some(e) => if e.code == -1003 {
                r matches Err(SnapshotFetchError::RateLimit(m)) && m@ == e.msg@
            } else {
                r matches Err(SnapshotFetchError::Api(c, m)) && c == e.code && m@ == e.msg@
            },
            None => match snapshot {
                Ok(snap) => r == Ok::<BinanceOrderBookSnapshot, SnapshotFetchError>(snap),
                Err(why) => r matches Err(SnapshotFetchError::Unreadable(m)) && m@ == why@,
            },
        },
{
    if status == 429 || status == 418 {
        let secs = match retry_after {
            Some(v) => v,
            None => 120,
        };
        return Err(SnapshotFetchError::RetryAfter(secs));
    }
    match error_body {
        Some(e) => {
            if e.code == -1003 {
                Err(SnapshotFetchError::RateLimit(e.msg))
            } else {
                Err(SnapshotFetchError::Api(e.code, e.msg))
            }
        },
        None => match snapshot {
            Ok(snap) => Ok(snap),
            Err(why) => Err(SnapshotFetchError::Unreadable(why)),
        },
    }
}

/// The number of attempts after which a failing fetch gives up.
pub const MAX_SNAPSHOT_ATTEMPTS: u32 = 5;

/// What the fetch does after a failed attempt.
#[derive(Debug, PartialEq, Eq, Structural)]
pub enum FetchStep {
    /// Wait this many seconds, then try again.
    Retry(u64),
    /// Stop; no snapshot will come from this fetch.
    GiveUp,
}

/// The wait before another try after the attempt numbered `attempt`
/// (counting from 1) failed: 2^(attempt-1) seconds.
pub open spec fn backoff_after(attempt: nat) -> nat
    decreases attempt,
{
    if attempt <= 1 { 1 } else { 2 * backoff_after((attempt - 1) as nat) }
}

/// Decides what follows a failed attempt: a rate limit with a wait is always
/// retried after that wait; any other failure is retried with exponential
/// backoff until `MAX_SNAPSHOT_ATTEMPTS` attempts were made.
pub fn after_failed_fetch(attempt: u32, error: &SnapshotFetchError) -> (r: FetchStep)
    requires
        attempt >= 1,
    ensures
        error matches SnapshotFetchError::RetryAfter(secs) ==> r == FetchStep::Retry(*secs),
        !(error is RetryAfter) && attempt >= MAX_SNAPSHOT_ATTEMPTS ==> r == FetchStep::GiveUp,
        !(error is RetryAfter) && attempt < MAX_SNAPSHOT_ATTEMPTS ==> r == FetchStep::Retry(backoff_after(attempt as nat) as u64),
{
    match error {
        SnapshotFetchError::RetryAfter(secs) => FetchStep::Retry(*secs),
        _ => {
            if attempt >= MAX_SNAPSHOT_ATTEMPTS {
                FetchStep::GiveUp
            } else {
                let mut wait: u64 = 1;
                let mut i: u32 = 1;
                while i < attempt
                    invariant
                        1 <= i <= attempt,
                        attempt < MAX_SNAPSHOT_ATTEMPTS,
                        wait == backoff_after(i as nat),
                        wait <= 8,
                        wait * 2 <= 16,
                        i == 1 ==> wait == 1,
                        i == 2 ==> wait == 2,
                        i == 3 ==> wait == 4,
                        i == 4 ==> wait == 8,
                    decreases attempt - i,
                {
                    wait = wait * 2;
                    i = i + 1;
                }
                FetchStep::Retry(wait)
            }
        },
    }
}

/// Every failure other than a rate limit with a wait ends the fetch after at
/// most `MAX_SNAPSHOT_ATTEMPTS` attempts, and each wait before then is at
/// most 8 seconds, doubling from 1.
pub proof fn lemma_fetch_backoff(attempt: nat)
    requires
        1 <= attempt < MAX_SNAPSHOT_ATTEMPTS,
    ensures
        1 <= backoff_after(attempt) <= 8,
        attempt > 1 ==> backoff_after(attempt) == 2 * backoff_after((attempt - 1) as nat),
{
    reveal_with_fuel(backoff_after, 5);
}

} // verus!
