//! ByBit depth, trade and kline payloads, subscription requests, and the
//! rules that keep a local order book in step with the depth stream.
use vstd::prelude::*;
use crate::orderbook::{LocalOrderBookError, LocalOrderBookErrorView};
use crate::candle::{checked_time, kept_time, Candle};
use crate::decimal::{decimal_above, decimal_reading, is_above, read_decimal, MANTISSA_BOUND};
use crate::text::owned;

pub use crate::bybit::ws::{
    ByBitCandleData, ByBitCandleMessage, ByBitDepthBookData, ByBitDepthMessage, ByBitMessage,
    ByBitRequestView, ByBitTradesData, ByBitTradesMessage, ByBitWssMessage,
};

verus! {

/// What the holder of the book is to do with an accepted depth message.
#[derive(Debug, PartialEq, Eq, Structural)]
pub enum BybitBookStep {
    /// Replace the book by the message's levels (a snapshot).
    Replace,
    /// Apply the message's levels to the book (a delta), then report its best
    /// bid and ask through `check_top_of_book`.
    ApplyDelta,
}

/// How the best bid and ask of a book compare, once read as decimals.
#[derive(Debug)]
pub enum TopOfBook {
    /// The bid is not above the ask.
    Ordered,
    /// The bid is above the ask; both as the decimals print.
    Crossed(String, String),
    /// The best bid does not read as a decimal.
    BidUnreadable,
    /// The best ask does not read as a decimal (the bid does).
    AskUnreadable,
}

/// What `top_of_book` makes of the readings of the best bid and ask.
pub open spec fn top_of_readings_spec(
    bid: Option<(i128, u32, Seq<char>)>,
    ask: Option<(i128, u32, Seq<char>)>,
    r: TopOfBook,
) -> bool {
    match (bid, ask) {
        (Some(b), Some(a)) => if decimal_above((b.0, b.1), (a.0, a.1)) {
            r matches TopOfBook::Crossed(bt, at) && bt@ == b.2 && at@ == a.2
        } else {
            r is Ordered
        },
        (None, _) => r is BidUnreadable,
        (Some(_), None) => r is AskUnreadable,
    }
}

/// The view of a decimal reading.
pub open spec fn reading_view(x: Option<(i128, u32, String)>) -> Option<(i128, u32, Seq<char>)> {
    match x {
        Some((m, e, t)) => Some((m, e, t@)),
        None => None,
    }
}

/// Whether a reading's mantissa is within the bound every decimal keeps.
pub open spec fn reading_bounded(x: Option<(i128, u32, String)>) -> bool {
    match x {
        Some((m, _, _)) => -MANTISSA_BOUND < m < MANTISSA_BOUND,
        None => true,
    }
}

/// Classifies the top of a book from the decimal readings of its best bid
/// and ask: unreadable when either does not read (the bid first), crossed
/// when the bid is above the ask in value, else ordered.
pub fn top_of_readings(bid: Option<(i128, u32, String)>, ask: Option<(i128, u32, String)>) -> (r: TopOfBook)
    requires
        reading_bounded(bid),
        reading_bounded(ask),
    ensures
        top_of_readings_spec(reading_view(bid), reading_view(ask), r),
{
    match bid {
        None => TopOfBook::BidUnreadable,
        Some((bm, be, bt)) => match ask {
            None => TopOfBook::AskUnreadable,
            Some((am, ae, at)) => {
                if is_above((bm, be), (am, ae)) {
                    TopOfBook::Crossed(bt, at)
                } else {
                    TopOfBook::Ordered
                }
            },
        },
    }
}

/// Reads the best bid and ask of a book as decimals and classifies its top.
pub fn top_of_book(best_bid: &str, best_ask: &str) -> (r: TopOfBook)
    ensures
        top_of_readings_spec(decimal_reading(best_bid@), decimal_reading(best_ask@), r),
{
    let bid = read_decimal(best_bid);
    let ask = read_decimal(best_ask);
    top_of_readings(bid, ask)
}

/// Order-book upkeep for one ByBit symbol: whether a book is held. The levels
/// themselves are held by the caller, who carries out each returned step.
pub struct BybitOrderBook {
    pub symbol: String,
    pub book_built: bool,
}

/// The error of a delta that arrives before any snapshot.
pub open spec fn before_snapshot(coin: Seq<char>) -> LocalOrderBookErrorView {
    LocalOrderBookErrorView::BookUpdateBeforeSnapshot("bybit"@, coin)
}

impl BybitOrderBook {
    pub fn new(symbol: String) -> (r: Self)
        ensures
            r.symbol@ == symbol@,
            !r.book_built,
    {
        BybitOrderBook { symbol, book_built: false }
    }

    /// Takes one depth message. One for another symbol is refused with
    /// `WrongSymbol`; a snapshot replaces the book; a delta is applied when a
    /// book is held and refused with `BookUpdateBeforeSnapshot` otherwise.
    pub fn new_update(&mut self, msg: &ByBitDepthMessage) -> (r: Result<BybitBookStep, LocalOrderBookError>)
        ensures
            final(self).symbol@ == old(self).symbol@,
            msg.data.s@ != old(self).symbol@ ==> {
                &&& r matches Err(e) && e@ == LocalOrderBookErrorView::WrongSymbol(old(self).symbol@, msg.data.s@)
                &&& final(self).book_built == old(self).book_built
            },
            msg.data.s@ == old(self).symbol@ && msg.snapshot_type@ == "snapshot"@ ==> {
                &&& r == Ok::<BybitBookStep, LocalOrderBookError>(BybitBookStep::Replace)
                &&& final(self).book_built
            },
            msg.data.s@ == old(self).symbol@ && msg.snapshot_type@ != "snapshot"@ ==> {
                &&& old(self).book_built ==> r == Ok::<BybitBookStep, LocalOrderBookError>(BybitBookStep::ApplyDelta)
                &&& !old(self).book_built ==> (r matches Err(e) && e@ == before_snapshot(msg.data.s@))
                &&& final(self).book_built == old(self).book_built
            },
    {
        if msg.data.s != self.symbol {
            return Err(LocalOrderBookError::WrongSymbol(self.symbol.clone(), msg.data.s.clone()));
        }
        if msg.is_full_update() {
            self.book_built = true;
            return Ok(BybitBookStep::Replace);
        }
        if self.book_built {
            Ok(BybitBookStep::ApplyDelta)
        } else {
            Err(LocalOrderBookError::BookUpdateBeforeSnapshot(owned("bybit"), msg.data.s.clone()))
        }
    }

    /// Checks the book after a delta from its best bid and ask (as the book
    /// prints them): a bid above the ask in value is refused with
    /// `BidAboveAsk`, carrying both as the decimals print; a best price that
    /// does not read as a decimal is refused with `UnparseableInputs`; on
    /// either the book is dropped.
    pub fn check_top_of_book(&mut self, coin: &str, best_bid: &str, best_ask: &str) -> (r: Result<(), LocalOrderBookError>)
        ensures
            final(self).symbol@ == old(self).symbol@,
            match (decimal_reading(best_bid@), decimal_reading(best_ask@)) {
                (Some(b), Some(a)) => if decimal_above((b.0, b.1), (a.0, a.1)) {
                    !final(self).book_built
                        && (r matches Err(e) && e@ == LocalOrderBookErrorView::BidAboveAsk(b.2, a.2, "bybit"@, coin@))
                } else {
                    r is Ok && final(self).book_built == old(self).book_built
                },
                _ => !final(self).book_built
                    && (r matches Err(e) && e@ == LocalOrderBookErrorView::UnparseableInputs("bybit"@, coin@)),
            },
    {
        match top_of_book(best_bid, best_ask) {
            TopOfBook::Ordered => Ok(()),
            TopOfBook::Crossed(bid, ask) => {
                self.book_built = false;
                Err(LocalOrderBookError::BidAboveAsk(bid, ask, owned("bybit"), owned(coin)))
            },
            _ => {
                self.book_built = false;
                Err(LocalOrderBookError::UnparseableInputs(owned("bybit"), owned(coin)))
            },
        }
    }
}

/// The fields of `s` separated by dots, as `str::split('.')` yields them.
pub open spec fn dot_fields(s: Seq<char>) -> Seq<Seq<char>>
    decreases s.len(),
{
    if s.len() == 0 {
        seq![Seq::<char>::empty()]
    } else {
        let f = dot_fields(s.drop_last());
        if s.last() == '.' {
            f.push(Seq::<char>::empty())
        } else {
            f.update(f.len() - 1, f.last().push(s.last()))
        }
    }
}

proof fn lemma_dot_fields_len(s: Seq<char>)
    ensures
        dot_fields(s).len() >= 1,
    decreases s.len(),
{
    if s.len() > 0 {
        lemma_dot_fields_len(s.drop_last());
    }
}

/// The coin of a kline topic `kline.<interval>.<coin>`: its third
/// dot-separated field, or `unknown` when it has fewer than three.
pub open spec fn topic_coin(topic: Seq<char>) -> Seq<char> {
    let f = dot_fields(topic);
    if f.len() > 2 { f[2] } else { "unknown"@ }
}

/// Finds the coin of a kline topic, as `topic_coin` says.
pub fn kline_topic_coin(topic: &str) -> (r: String)
    ensures
        r@ == topic_coin(topic@),
{
    let n = topic.unicode_len();
    let mut i: usize = 0;
    let mut field: usize = 0;
    let mut start: usize = 0;
    let mut third: Option<(usize, usize)> = None;
    while i < n
        invariant
            n == topic@.len(),
            i <= n,
            start <= i,
            dot_fields(topic@.take(i as int)).len() == field + 1,
            dot_fields(topic@.take(i as int)).last() == topic@.subrange(start as int, i as int),
            field <= 2 ==> third is None,
            field <= i,
            field > 2 ==> (third matches Some((a, b)) && a <= b <= n
                && dot_fields(topic@.take(i as int))[2] == topic@.subrange(a as int, b as int)),
        decreases n - i,
    {
        let c = topic.get_char(i);
        let ghost before = topic@.take(i as int);
        let ghost after = topic@.take(i + 1);
        proof {
            assert(after.drop_last() =~= before);
            assert(after.last() == c);
            lemma_dot_fields_len(before);
        }
        if c == '.' {
            if field == 2 {
                third = Some((start, i));
            }
            field = field + 1;
            start = i + 1;
            proof {
                assert(dot_fields(after) == dot_fields(before).push(Seq::<char>::empty()));
                assert(topic@.subrange(start as int, (i + 1) as int) =~= Seq::<char>::empty());
            }
        } else {
            proof {
                let f = dot_fields(before);
                assert(dot_fields(after) == f.update(f.len() - 1, f.last().push(c)));
                assert(topic@.subrange(start as int, (i + 1) as int) =~= topic@.subrange(start as int, i as int).push(c));
            }
        }
        i = i + 1;
    }
    proof {
        assert(topic@.take(n as int) =~= topic@);
    }
    match third {
        Some((a, b)) => owned(topic.substring_char(a, b)),
        None => {
            if field == 2 {
                owned(topic.substring_char(start, n))
            } else {
                owned("unknown")
            }
        },
    }
}

/// Whether `c` is the candle of kline `d` on `coin`: its prices and volume,
/// its start and end times (kept as `kept_time` says), labelled `bybit`.
pub open spec fn is_bybit_candle(c: Candle, d: ByBitCandleData, coin: Seq<char>) -> bool {
    &&& c.open@ == d.open@
    &&& c.high@ == d.high@
    &&& c.low@ == d.low@
    &&& c.close@ == d.close@
    &&& c.volume@ == d.volume@
    &&& c.exchange@ == "bybit"@
    &&& c.time == kept_time(d.start_time as i64)
    &&& c.close_time == kept_time(d.end_time as i64)
    &&& c.coin@ == coin
}

impl ByBitCandleMessage {
    /// One candle per kline of the message, in order, each on the coin named
    /// by the topic.
    pub fn to_candles(&self) -> (r: Vec<Candle>)
        ensures
            r@.len() == self.data@.len(),
            forall|i: int| 0 <= i < r@.len() ==> is_bybit_candle(#[trigger] r@[i], self.data@[i], topic_coin(self.topic@)),
    {
        let coin = kline_topic_coin(self.topic.as_str());
        let mut out: Vec<Candle> = Vec::new();
        let mut i: usize = 0;
        while i < self.data.len()
            invariant
                i <= self.data@.len(),
                out@.len() == i,
                coin@ == topic_coin(self.topic@),
                forall|j: int| 0 <= j < i ==> is_bybit_candle(#[trigger] out@[j], self.data@[j], topic_coin(self.topic@)),
            decreases self.data@.len() - i,
        {
            let d = &self.data[i];
            let c = Candle {
                open: d.open.clone(),
                high: d.high.clone(),
                low: d.low.clone(),
                close: d.close.clone(),
                volume: d.volume.clone(),
                exchange: "bybit",
                time: checked_time(d.start_time as i64),
                close_time: checked_time(d.end_time as i64),
                coin: coin.clone(),
            };
            out.push(c);
            i = i + 1;
        }
        out
    }
}

/// `s` without the copies of `c` at its end.
pub open spec fn trim_end(s: Seq<char>, c: char) -> Seq<char>
    decreases s.len(),
{
    if s.len() > 0 && s.last() == c {
        trim_end(s.drop_last(), c)
    } else {
        s
    }
}

/// A decimal text without the zeros after its point, and without the point
/// itself when nothing follows it (`50000.10` gives `50000.1`, `50000.0`
/// gives `50000`); a text without a point is kept.
pub open spec fn without_trailing_zeros(s: Seq<char>) -> Seq<char> {
    if s.contains('.') {
        let t = trim_end(s, '0');
        if t.len() > 0 && t.last() == '.' { trim_end(t, '.') } else { t }
    } else {
        s
    }
}

fn trimmed_end(s: &str, c: char) -> (r: usize)
    ensures
        r <= s@.len(),
        trim_end(s@, c) == s@.take(r as int),
{
    let mut end = s.unicode_len();
    assert(s@.take(end as int) =~= s@);
    while end > 0 && s.get_char(end - 1) == c
        invariant
            end <= s@.len(),
            trim_end(s@, c) == trim_end(s@.take(end as int), c),
        decreases end,
    {
        assert(s@.take(end as int).drop_last() =~= s@.take(end - 1));
        end = end - 1;
    }
    end
}

/// Drops trailing zeros from a decimal text, as `without_trailing_zeros`
/// says.
pub fn remove_trailing_zeros(s: &str) -> (r: String)
    ensures
        r@ == without_trailing_zeros(s@),
{
    let n = s.unicode_len();
    let mut has_point = false;
    let mut i: usize = 0;
    while i < n
        invariant
            n == s@.len(),
            i <= n,
            has_point == s@.take(i as int).contains('.'),
        decreases n - i,
    {
        let c = s.get_char(i);
        proof {
            let pre = s@.take(i as int);
            let post = s@.take(i + 1);
            assert(post =~= pre.push(c));
            if pre.contains('.') {
                let k = choose|k: int| 0 <= k < pre.len() && #[trigger] pre[k] == '.';
                assert(post[k] == '.');
            }
            if c == '.' {
                assert(post[i as int] == '.');
            }
            if post.contains('.') && c != '.' {
                let k = choose|k: int| 0 <= k < post.len() && #[trigger] post[k] == '.';
                assert(pre[k] == '.');
            }
        }
        if c == '.' {
            has_point = true;
        }
        i = i + 1;
    }
    assert(s@.take(n as int) =~= s@);
    if !has_point {
        return owned(s);
    }
    let end = trimmed_end(s, '0');
    let t = s.substring_char(0, end);
    assert(t@ =~= s@.take(end as int));
    if end > 0 && t.get_char(end - 1) == '.' {
        let end2 = trimmed_end(t, '.');
        owned(t.substring_char(0, end2))
    } else {
        owned(t)
    }
}

impl ByBitDepthMessage {
    /// Only a delta converts to level updates; any other message is refused
    /// with `NotPartialUpdate` (exchange, symbol).
    pub fn check_delta(&self) -> (r: Result<(), LocalOrderBookError>)
        ensures
            self.snapshot_type@ == "delta"@ ==> r is Ok,
            self.snapshot_type@ != "delta"@ ==> (r matches Err(e)
                && e@ == LocalOrderBookErrorView::NotPartialUpdate("bybit"@, self.data.s@)),
    {
        if crate::text::eq_str(&self.snapshot_type, "delta") {
            Ok(())
        } else {
            Err(LocalOrderBookError::NotPartialUpdate(owned("bybit"), self.data.s.clone()))
        }
    }
}

} // verus!
