//! Errors reported by the local order books that follow an exchange's depth
//! stream.
use vstd::prelude::*;
use crate::text::{i64_to_decimal, owned, signed_decimal};

verus! {

/// Why an order-book update was refused or the book dropped.
#[derive(Debug, Clone)]
pub enum LocalOrderBookError {
    /// Best bid above best ask: bid, ask, exchange, coin.
    BidAboveAsk(String, String, String, String),
    /// A delta arrived before any snapshot: exchange, coin.
    BookUpdateBeforeSnapshot(String, String),
    /// A price or size could not be read: exchange, coin.
    UnparseableInputs(String, String),
    /// A sequence gap: exchange, coin, the sequence number expected, the one received.
    OutOfOrderUpdate(String, String, i64, i64),
    /// A message for another symbol: the book's symbol, the message's symbol.
    WrongSymbol(String, String),
    /// A message that should have been a delta: exchange, coin.
    NotPartialUpdate(String, String),
}

/// What an order-book error holds, its strings taken as character sequences.
pub enum LocalOrderBookErrorView {
    BidAboveAsk(Seq<char>, Seq<char>, Seq<char>, Seq<char>),
    BookUpdateBeforeSnapshot(Seq<char>, Seq<char>),
    UnparseableInputs(Seq<char>, Seq<char>),
    OutOfOrderUpdate(Seq<char>, Seq<char>, i64, i64),
    WrongSymbol(Seq<char>, Seq<char>),
    NotPartialUpdate(Seq<char>, Seq<char>),
}

impl View for LocalOrderBookError {
    type V = LocalOrderBookErrorView;

    open spec fn view(&self) -> LocalOrderBookErrorView {
        match self {
            LocalOrderBookError::BidAboveAsk(a, b, c, d) =>
                LocalOrderBookErrorView::BidAboveAsk(a@, b@, c@, d@),
            LocalOrderBookError::BookUpdateBeforeSnapshot(a, b) =>
                LocalOrderBookErrorView::BookUpdateBeforeSnapshot(a@, b@),
            LocalOrderBookError::UnparseableInputs(a, b) =>
                LocalOrderBookErrorView::UnparseableInputs(a@, b@),
            LocalOrderBookError::OutOfOrderUpdate(a, b, x, y) =>
                LocalOrderBookErrorView::OutOfOrderUpdate(a@, b@, *x, *y),
            LocalOrderBookError::WrongSymbol(a, b) => LocalOrderBookErrorView::WrongSymbol(a@, b@),
            LocalOrderBookError::NotPartialUpdate(a, b) =>
                LocalOrderBookErrorView::NotPartialUpdate(a@, b@),
        }
    }
}

/// The text of an order-book error.
pub open spec fn error_text(e: LocalOrderBookErrorView) -> Seq<char> {
    match e {
        LocalOrderBookErrorView::BidAboveAsk(a, b, c, d) =>
            "Bid Above Ask of "@ + a + "/"@ + b + " for "@ + c + "/"@ + d,
        LocalOrderBookErrorView::BookUpdateBeforeSnapshot(a, b) =>
            "Attempted to update "@ + a + "/"@ + b + " before initial snapshot"@,
        LocalOrderBookErrorView::UnparseableInputs(a, b) =>
            "Unparseable input for order book update for "@ + a + "/"@ + b,
        LocalOrderBookErrorView::OutOfOrderUpdate(a, b, x, y) =>
            "Out of order updates for "@ + a + "/"@ + b + " expecting "@ + signed_decimal(x as int)
                + " but have "@ + signed_decimal(y as int),
        LocalOrderBookErrorView::WrongSymbol(a, b) =>
            "Wrong symbol: expected "@ + a + " but received message for "@ + b,
        LocalOrderBookErrorView::NotPartialUpdate(a, b) =>
            "Message is not a partial update for "@ + a + "/"@ + b,
    }
}

impl LocalOrderBookError {
    /// The error's text, as its `Display` shows it.
    pub fn message(&self) -> (r: String)
        ensures
            r@ == error_text(self@),
    {
        match self {
            LocalOrderBookError::BidAboveAsk(a, b, c, d) => {
                let mut s = owned("Bid Above Ask of ");
                s.append(a.as_str());
                s.append("/");
                s.append(b.as_str());
                s.append(" for ");
                s.append(c.as_str());
                s.append("/");
                s.append(d.as_str());
                s
            },
            LocalOrderBookError::BookUpdateBeforeSnapshot(a, b) => {
                let mut s = owned("Attempted to update ");
                s.append(a.as_str());
                s.append("/");
                s.append(b.as_str());
                s.append(" before initial snapshot");
                s
            },
            LocalOrderBookError::UnparseableInputs(a, b) => {
                let mut s = owned("Unparseable input for order book update for ");
                s.append(a.as_str());
                s.append("/");
                s.append(b.as_str());
                s
            },
            LocalOrderBookError::OutOfOrderUpdate(a, b, x, y) => {
                let mut s = owned("Out of order updates for ");
                s.append(a.as_str());
                s.append("/");
                s.append(b.as_str());
                s.append(" expecting ");
                s.append(i64_to_decimal(*x).as_str());
                s.append(" but have ");
                s.append(i64_to_decimal(*y).as_str());
                s
            },
            LocalOrderBookError::WrongSymbol(a, b) => {
                let mut s = owned("Wrong symbol: expected ");
                s.append(a.as_str());
                s.append(" but received message for ");
                s.append(b.as_str());
                s
            },
            LocalOrderBookError::NotPartialUpdate(a, b) => {
                let mut s = owned("Message is not a partial update for ");
                s.append(a.as_str());
                s.append("/");
                s.append(b.as_str());
                s
            },
        }
    }
}

} // verus!
