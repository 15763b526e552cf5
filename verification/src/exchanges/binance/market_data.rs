//! Binance Futures REST endpoints for exchange info, open interest and 24h
//! tickers: where each request goes.
use vstd::prelude::*;
use crate::text::{join2, owned};

pub use crate::binance::ws::{ExchangeInfo, OpenInterestData, SymbolInfo, TickerData};

verus! {

/// The production REST endpoint of Binance Futures.
pub open spec fn futures_rest_url() -> Seq<char> {
    "https://fapi.binance.com"@
}

/// The REST client's settings: the base URL its requests go to.
pub struct BinanceRestClient {
    pub base_url: String,
}

impl BinanceRestClient {
    pub fn new() -> (r: Self)
        ensures
            r.base_url@ == futures_rest_url(),
    {
        BinanceRestClient { base_url: owned("https://fapi.binance.com") }
    }

    /// The URL of the exchange-info request.
    pub fn exchange_info_url(&self) -> (r: String)
        ensures
            r@ == self.base_url@ + "/fapi/v1/exchangeInfo"@,
    {
        join2(self.base_url.as_str(), "/fapi/v1/exchangeInfo")
    }

    /// The URL of the open-interest request of `symbol`.
    pub fn open_interest_url(&self, symbol: &str) -> (r: String)
        ensures
            r@ == self.base_url@ + "/fapi/v1/openInterest?symbol="@ + symbol@,
    {
        let mut s = join2(self.base_url.as_str(), "/fapi/v1/openInterest?symbol=");
        s.append(symbol);
        s
    }

    /// The URL of the 24h ticker request: of one symbol, or of all when
    /// none is given (the answer is then a list).
    pub fn ticker_url(&self, symbol: Option<&str>) -> (r: String)
        ensures
            r@ == self.base_url@ + "/fapi/v1/ticker/24hr"@ + match symbol {
                Some(s) => "?symbol="@ + s@,
                None => Seq::<char>::empty(),
            },
    {
        let mut s = join2(self.base_url.as_str(), "/fapi/v1/ticker/24hr");
        match symbol {
            Some(sym) => {
                let q = join2("?symbol=", sym);
                s.append(q.as_str());
                s
            },
            None => {
                assert(s@ + Seq::<char>::empty() =~= s@);
                s
            },
        }
    }
}

impl Default for BinanceRestClient {
    fn default() -> (r: Self)
        ensures
            r.base_url@ == futures_rest_url(),
    {
        Self::new()
    }
}

} // verus!
