//! Phoenix: WebSocket requests and REST payloads.
use vstd::prelude::*;
use crate::text::owned;

verus! {

/// Subscribe / unsubscribe / ping request for Phoenix streams.
#[derive(Debug, Clone)]
pub struct PhoenixWssMessage {
    pub msg_type: String,
    pub subscription: PhoenixSubscription,
}

#[derive(Debug, Clone)]
pub struct PhoenixSubscription {
    pub channel: String,
    pub symbol: Option<String>,
    pub timeframe: Option<String>,
    pub authority: Option<String>,
    pub trader_pda_index: Option<u8>,
    pub bypass_execution_band: Option<bool>,
}

/// What the subscription of a Phoenix request holds.
#[verifier::ext_equal]
pub struct PhoenixSubscriptionView {
    pub channel: Seq<char>,
    pub symbol: Option<Seq<char>>,
    pub timeframe: Option<Seq<char>>,
    pub authority: Option<Seq<char>>,
    pub trader_pda_index: Option<u8>,
    pub bypass_execution_band: Option<bool>,
}

/// What a Phoenix request holds.
#[verifier::ext_equal]
pub struct PhoenixRequestView {
    pub msg_type: Seq<char>,
    pub subscription: PhoenixSubscriptionView,
}

impl View for PhoenixSubscription {
    type V = PhoenixSubscriptionView;

    open spec fn view(&self) -> PhoenixSubscriptionView {
        PhoenixSubscriptionView {
            channel: self.channel@,
            symbol: self.symbol.deep_view(),
            timeframe: self.timeframe.deep_view(),
            authority: self.authority.deep_view(),
            trader_pda_index: self.trader_pda_index,
            bypass_execution_band: self.bypass_execution_band,
        }
    }
}

impl View for PhoenixWssMessage {
    type V = PhoenixRequestView;

    open spec fn view(&self) -> PhoenixRequestView {
        PhoenixRequestView { msg_type: self.msg_type@, subscription: self.subscription@ }
    }
}

/// The request of the given type on a channel, with every optional field
/// of the subscription as given.
pub open spec fn phoenix_view(
    msg_type: Seq<char>,
    channel: Seq<char>,
    symbol: Option<Seq<char>>,
    timeframe: Option<Seq<char>>,
    authority: Option<Seq<char>>,
    trader_pda_index: Option<u8>,
) -> PhoenixRequestView {
    PhoenixRequestView {
        msg_type,
        subscription: PhoenixSubscriptionView {
            channel,
            symbol,
            timeframe,
            authority,
            trader_pda_index,
            bypass_execution_band: None,
        },
    }
}

impl PhoenixWssMessage {
    pub fn ping() -> (r: Self)
        ensures
            r@ == phoenix_view("ping"@, Seq::<char>::empty(), None, None, None, None),
    {
        let r = PhoenixWssMessage {
            msg_type: owned("ping"),
            subscription: PhoenixSubscription {
                channel: String::new(),
                symbol: None,
                timeframe: None,
                authority: None,
                trader_pda_index: None,
                bypass_execution_band: None,
            },
        };
        assert(r@ =~~= phoenix_view("ping"@, Seq::<char>::empty(), None, None, None, None));
        r
    }

    fn channel_request(msg_type: &str, channel: &str) -> (r: Self)
        ensures
            r@ == phoenix_view(msg_type@, channel@, None, None, None, None),
    {
        let r = PhoenixWssMessage {
            msg_type: owned(msg_type),
            subscription: PhoenixSubscription {
                channel: owned(channel),
                symbol: None,
                timeframe: None,
                authority: None,
                trader_pda_index: None,
                bypass_execution_band: None,
            },
        };
        assert(r@ =~~= phoenix_view(msg_type@, channel@, None, None, None, None));
        r
    }

    fn sub(channel: &str) -> (r: Self)
        ensures
            r@ == phoenix_view("subscribe"@, channel@, None, None, None, None),
    {
        Self::channel_request("subscribe", channel)
    }

    fn unsub(channel: &str) -> (r: Self)
        ensures
            r@ == phoenix_view("unsubscribe"@, channel@, None, None, None, None),
    {
        Self::channel_request("unsubscribe", channel)
    }

    fn with_symbol(msg: Self, symbol: &str) -> (r: Self)
        ensures
            r@ == (PhoenixRequestView {
                msg_type: msg@.msg_type,
                subscription: PhoenixSubscriptionView { symbol: Some(symbol@), ..msg@.subscription },
            }),
    {
        let mut msg = msg;
        msg.subscription.symbol = Some(owned(symbol));
        let r = msg;
        assert(r@.subscription =~~= PhoenixSubscriptionView { symbol: Some(symbol@), ..msg@.subscription });
        r
    }

    /// Mid prices of every market.
    pub fn all_mids() -> (r: Self)
        ensures
            r@ == phoenix_view("subscribe"@, "allMids"@, None, None, None, None),
    {
        Self::sub("allMids")
    }

    pub fn all_mids_unsub() -> (r: Self)
        ensures
            r@ == phoenix_view("unsubscribe"@, "allMids"@, None, None, None, None),
    {
        Self::unsub("allMids")
    }

    /// Funding rate updates of a market symbol such as `SOL`.
    pub fn funding_rate(symbol: &str) -> (r: Self)
        ensures
            r@ == phoenix_view("subscribe"@, "fundingRate"@, Some(symbol@), None, None, None),
    {
        Self::with_symbol(Self::sub("fundingRate"), symbol)
    }

    pub fn funding_rate_unsub(symbol: &str) -> (r: Self)
        ensures
            r@ == phoenix_view("unsubscribe"@, "fundingRate"@, Some(symbol@), None, None, None),
    {
        Self::with_symbol(Self::unsub("fundingRate"), symbol)
    }

    /// Level-2 order book updates of a market.
    pub fn orderbook(symbol: &str) -> (r: Self)
        ensures
            r@ == phoenix_view("subscribe"@, "orderbook"@, Some(symbol@), None, None, None),
    {
        Self::with_symbol(Self::sub("orderbook"), symbol)
    }

    pub fn orderbook_unsub(symbol: &str) -> (r: Self)
        ensures
            r@ == phoenix_view("unsubscribe"@, "orderbook"@, Some(symbol@), None, None, None),
    {
        Self::with_symbol(Self::unsub("orderbook"), symbol)
    }

    /// Market statistics (mark price, open interest, funding, volume).
    pub fn market(symbol: &str) -> (r: Self)
        ensures
            r@ == phoenix_view("subscribe"@, "market"@, Some(symbol@), None, None, None),
    {
        Self::with_symbol(Self::sub("market"), symbol)
    }

    pub fn market_unsub(symbol: &str) -> (r: Self)
        ensures
            r@ == phoenix_view("unsubscribe"@, "market"@, Some(symbol@), None, None, None),
    {
        Self::with_symbol(Self::unsub("market"), symbol)
    }

    /// Trade executions of a market.
    pub fn trades(symbol: &str) -> (r: Self)
        ensures
            r@ == phoenix_view("subscribe"@, "trades"@, Some(symbol@), None, None, None),
    {
        Self::with_symbol(Self::sub("trades"), symbol)
    }

    pub fn trades_unsub(symbol: &str) -> (r: Self)
        ensures
            r@ == phoenix_view("unsubscribe"@, "trades"@, Some(symbol@), None, None, None),
    {
        Self::with_symbol(Self::unsub("trades"), symbol)
    }

    /// OHLCV candles of a market and timeframe (`1s`, `5s`, `1m`, `5m`,
    /// `15m`, `30m`, `1h`, `4h` or `1d`).
    pub fn candles(symbol: &str, timeframe: &str) -> (r: Self)
        ensures
            r@ == phoenix_view("subscribe"@, "candles"@, Some(symbol@), Some(timeframe@), None, None),
    {
        let mut msg = Self::with_symbol(Self::sub("candles"), symbol);
        msg.subscription.timeframe = Some(owned(timeframe));
        assert(msg@ =~~= phoenix_view("subscribe"@, "candles"@, Some(symbol@), Some(timeframe@), None, None));
        msg
    }

    pub fn candles_unsub(symbol: &str, timeframe: &str) -> (r: Self)
        ensures
            r@ == phoenix_view("unsubscribe"@, "candles"@, Some(symbol@), Some(timeframe@), None, None),
    {
        let mut msg = Self::with_symbol(Self::unsub("candles"), symbol);
        msg.subscription.timeframe = Some(owned(timeframe));
        assert(msg@ =~~= phoenix_view("unsubscribe"@, "candles"@, Some(symbol@), Some(timeframe@), None, None));
        msg
    }

    /// Trader state updates (positions, orders, collateral) of an authority.
    pub fn trader_state(authority: &str, trader_pda_index: u8) -> (r: Self)
        ensures
            r@ == phoenix_view("subscribe"@, "traderState"@, None, None, Some(authority@), Some(trader_pda_index)),
    {
        let mut msg = Self::sub("traderState");
        msg.subscription.authority = Some(owned(authority));
        msg.subscription.trader_pda_index = Some(trader_pda_index);
        assert(msg@ =~~= phoenix_view("subscribe"@, "traderState"@, None, None, Some(authority@), Some(trader_pda_index)));
        msg
    }

    pub fn trader_state_unsub(authority: &str, trader_pda_index: u8) -> (r: Self)
        ensures
            r@ == phoenix_view("unsubscribe"@, "traderState"@, None, None, Some(authority@), Some(trader_pda_index)),
    {
        let mut msg = Self::unsub("traderState");
        msg.subscription.authority = Some(owned(authority));
        msg.subscription.trader_pda_index = Some(trader_pda_index);
        assert(msg@ =~~= phoenix_view("unsubscribe"@, "traderState"@, None, None, Some(authority@), Some(trader_pda_index)));
        msg
    }
}

/// On-chain key addresses for the exchange.
#[derive(Debug, Clone)]
pub struct PhoenixExchangeKeys {
    pub canonical_mint: String,
    pub global_vault: String,
    pub perp_asset_map: String,
}

/// Historical funding payment from `GET /trader/{authority}/funding-history`.
#[derive(Debug, Clone)]
pub struct PhoenixFundingHistory {
    pub timestamp: String,
    pub symbol: String,
    pub funding_payment: String,
    pub funding_rate_percentage: String,
    pub position_size: String,
    pub position_side: String,
}

/// Historical order from `GET /trader/{authority}/order-history`.
#[derive(Debug, Clone)]
pub struct PhoenixOrderHistory {
    pub order_sequence_number: String,
    pub market_symbol: String,
    pub status: String,
    pub side: String,
    pub is_reduce_only: bool,
    pub price: String,
    pub base_qty: String,
    pub filled_base_qty: String,
    pub placed_at: Option<String>,
    pub completed_at: Option<String>,
}

/// Collateral deposit/withdrawal event from `GET /trader/{authority}/collateral-history`.
#[derive(Debug, Clone)]
pub struct PhoenixCollateralEvent {
    pub slot: i64,
    pub event_type: String,
    pub amount: i64,
    pub collateral_after: i64,
    pub timestamp: String,
}

/// Paginated wrapper used by order-history and trade-history responses.
#[derive(Debug, Clone)]
pub struct PhoenixPaginatedResponse<T> {
    pub items: Vec<T>,
    pub next_cursor: Option<String>,
}


} // verus!
