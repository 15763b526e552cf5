//! The exchanges whose depth streams are followed into a local order book,
//! with the frame each expects for pings and subscriptions, its endpoint and
//! its timing defaults.
use vstd::prelude::*;
use crate::bybit::ws::{bybit_topic_view, ByBitRequestView, ByBitWssMessage};
use crate::hyperliquid::ws::{coin_subscription, hyperliquid_view};
use crate::hyperliquid::{HyperliquidRequestView, HyperliquidWssMessage};
use crate::kraken::ws::kraken_view;
use crate::kraken::{KrakenRequestView, KrakenWssMessage};

pub mod binance;
pub mod bybit;
pub mod bybitspot;
pub mod hyperliquid;
pub mod kraken;
pub mod krakenspot;
pub mod mex;

use binance::data::{single_stream_text, WssApi as BinanceApi};
use bybitspot::{ByBitSpot, ByBitSpotMessage};
use krakenspot::{spot_subscribe_view, KrakenSpot, KrakenSpotMessage, KrakenSpotMessageView};
use mex::{Mex, MexMessage, MexMessageView};

verus! {

#[derive(Debug, Clone, Copy, PartialEq, Eq, Structural)]
pub enum WebsocketSupportedExchanges {
    Hyperliquid,
    ByBit,
    ByBitSpot,
    Kraken,
    KrakenSpot,
    Mexc,
    Binance,
}

/// A frame for one of these exchanges: a JSON request before it is written
/// as text, or text ready to send.
#[derive(Debug)]
pub enum ExchangeFrame {
    Hyperliquid(HyperliquidWssMessage),
    ByBit(ByBitWssMessage),
    ByBitSpot(ByBitSpotMessage),
    Kraken(KrakenWssMessage),
    KrakenSpot(KrakenSpotMessage),
    Mexc(MexMessage),
    Text(String),
}

/// What a frame holds.
pub enum ExchangeFrameView {
    Hyperliquid(HyperliquidRequestView),
    ByBit(ByBitRequestView),
    ByBitSpot(ByBitRequestView),
    Kraken(KrakenRequestView),
    KrakenSpot(KrakenSpotMessageView),
    Mexc(MexMessageView),
    Text(Seq<char>),
}

impl View for ExchangeFrame {
    type V = ExchangeFrameView;

    open spec fn view(&self) -> ExchangeFrameView {
        match self {
            ExchangeFrame::Hyperliquid(m) => ExchangeFrameView::Hyperliquid(m@),
            ExchangeFrame::ByBit(m) => ExchangeFrameView::ByBit(m@),
            ExchangeFrame::ByBitSpot(m) => ExchangeFrameView::ByBitSpot(m@),
            ExchangeFrame::Kraken(m) => ExchangeFrameView::Kraken(m@),
            ExchangeFrame::KrakenSpot(m) => ExchangeFrameView::KrakenSpot(m@),
            ExchangeFrame::Mexc(m) => ExchangeFrameView::Mexc(m@),
            ExchangeFrame::Text(s) => ExchangeFrameView::Text(s@),
        }
    }
}

/// The keep-alive frame of each exchange.
pub open spec fn ping_frame(ex: WebsocketSupportedExchanges) -> ExchangeFrameView {
    match ex {
        WebsocketSupportedExchanges::Hyperliquid => ExchangeFrameView::Hyperliquid(HyperliquidRequestView { method: "ping"@, subscription: None }),
        WebsocketSupportedExchanges::ByBit => ExchangeFrameView::ByBit(ByBitRequestView { req_id: "100001"@, op: "ping"@, args: None }),
        WebsocketSupportedExchanges::ByBitSpot => ExchangeFrameView::ByBitSpot(ByBitRequestView { req_id: "100001"@, op: "ping"@, args: None }),
        WebsocketSupportedExchanges::Kraken => ExchangeFrameView::Kraken(KrakenRequestView { event: "ping"@, feed: None, product_ids: None }),
        WebsocketSupportedExchanges::KrakenSpot => ExchangeFrameView::KrakenSpot(KrakenSpotMessageView { method: "ping"@, req_id: Some(1), params: None }),
        WebsocketSupportedExchanges::Mexc => ExchangeFrameView::Mexc(MexMessageView { method: "PING"@, params: None }),
        WebsocketSupportedExchanges::Binance => ExchangeFrameView::Text("{\"id\": 1, \"method\": \"ping\"}"@),
    }
}

/// The depth subscription of each exchange for a coin.
pub open spec fn depth_frame(ex: WebsocketSupportedExchanges, coin: Seq<char>) -> ExchangeFrameView {
    match ex {
        WebsocketSupportedExchanges::Hyperliquid => ExchangeFrameView::Hyperliquid(hyperliquid_view("subscribe"@, coin_subscription("l2Book"@, None, coin))),
        WebsocketSupportedExchanges::ByBit => ExchangeFrameView::ByBit(bybit_topic_view("subscribe"@, "orderbook.50."@ + coin)),
        WebsocketSupportedExchanges::ByBitSpot => ExchangeFrameView::ByBitSpot(bybit_topic_view("subscribe"@, "orderbook.50."@ + coin)),
        WebsocketSupportedExchanges::Kraken => ExchangeFrameView::Kraken(kraken_view("subscribe"@, "book"@, coin)),
        WebsocketSupportedExchanges::KrakenSpot => ExchangeFrameView::KrakenSpot(spot_subscribe_view("book"@, coin, Some(25), None)),
        WebsocketSupportedExchanges::Mexc => ExchangeFrameView::Mexc(MexMessageView {
            method: "SUBSCRIPTION"@,
            params: Some(seq![
                "spot@public.limit.depth.v3.api@"@ + coin + "@20"@,
                "spot@public.increase.depth.v3.api@"@ + coin,
            ]),
        }),
        WebsocketSupportedExchanges::Binance => ExchangeFrameView::Text(single_stream_text("SUBSCRIBE"@, coin, "@depth@100ms"@)),
    }
}

/// The trade subscription of each exchange for a coin.
pub open spec fn trades_frame(ex: WebsocketSupportedExchanges, coin: Seq<char>) -> ExchangeFrameView {
    match ex {
        WebsocketSupportedExchanges::Hyperliquid => ExchangeFrameView::Hyperliquid(hyperliquid_view("subscribe"@, coin_subscription("trades"@, None, coin))),
        WebsocketSupportedExchanges::ByBit => ExchangeFrameView::ByBit(bybit_topic_view("subscribe"@, "publicTrade."@ + coin)),
        WebsocketSupportedExchanges::ByBitSpot => ExchangeFrameView::ByBitSpot(bybit_topic_view("subscribe"@, "publicTrade."@ + coin)),
        WebsocketSupportedExchanges::Kraken => ExchangeFrameView::Kraken(kraken_view("subscribe"@, "trade"@, coin)),
        WebsocketSupportedExchanges::KrakenSpot => ExchangeFrameView::KrakenSpot(spot_subscribe_view("trade"@, coin, None, None)),
        WebsocketSupportedExchanges::Mexc => ExchangeFrameView::Mexc(MexMessageView {
            method: "SUBSCRIPTION"@,
            params: Some(seq!["spot@public.deals.v3.api@"@ + coin]),
        }),
        WebsocketSupportedExchanges::Binance => ExchangeFrameView::Text(single_stream_text("SUBSCRIBE"@, coin, "@trade"@)),
    }
}

/// The one-minute candle subscription, offered here by Hyperliquid and ByBit.
pub open spec fn candle_frame(ex: WebsocketSupportedExchanges, coin: Seq<char>) -> Option<ExchangeFrameView> {
    match ex {
        WebsocketSupportedExchanges::Hyperliquid => Some(ExchangeFrameView::Hyperliquid(hyperliquid_view("subscribe"@, coin_subscription("candle"@, Some("1m"@), coin)))),
        WebsocketSupportedExchanges::ByBit => Some(ExchangeFrameView::ByBit(bybit_topic_view("subscribe"@, "kline.1."@ + coin))),
        _ => None,
    }
}

/// The WebSocket endpoint of each exchange.
pub open spec fn url_of(ex: WebsocketSupportedExchanges) -> Seq<char> {
    match ex {
        WebsocketSupportedExchanges::Hyperliquid => "wss://api.hyperliquid.xyz/ws"@,
        WebsocketSupportedExchanges::ByBit => "wss://stream.bybit.com/v5/public/linear"@,
        WebsocketSupportedExchanges::ByBitSpot => "wss://stream.bybit.com/v5/public/spot"@,
        WebsocketSupportedExchanges::Kraken => "wss://futures.kraken.com/ws/v1"@,
        WebsocketSupportedExchanges::KrakenSpot => "wss://ws.kraken.com/v2"@,
        WebsocketSupportedExchanges::Mexc => "wss://wbs.mexc.com/ws"@,
        WebsocketSupportedExchanges::Binance => "wss://fstream.binance.com/ws"@,
    }
}

/// Whether the exchange is one of the Hyperliquid / ByBit family, whose
/// timing defaults are the shorter ones.
pub open spec fn short_timing(ex: WebsocketSupportedExchanges) -> bool {
    ex == WebsocketSupportedExchanges::Hyperliquid || ex == WebsocketSupportedExchanges::ByBit
        || ex == WebsocketSupportedExchanges::ByBitSpot
}

impl WebsocketSupportedExchanges {
    pub fn ping(&self) -> (r: ExchangeFrame)
        ensures
            r@ == ping_frame(*self),
    {
        match self {
            WebsocketSupportedExchanges::Hyperliquid => ExchangeFrame::Hyperliquid(HyperliquidWssMessage::ping()),
            WebsocketSupportedExchanges::ByBit => ExchangeFrame::ByBit(ByBitWssMessage::ping()),
            WebsocketSupportedExchanges::ByBitSpot => ExchangeFrame::ByBitSpot(ByBitSpot::ping()),
            WebsocketSupportedExchanges::Kraken => ExchangeFrame::Kraken(KrakenWssMessage::ping()),
            WebsocketSupportedExchanges::KrakenSpot => ExchangeFrame::KrakenSpot(KrakenSpot::ping()),
            WebsocketSupportedExchanges::Mexc => ExchangeFrame::Mexc(Mex::ping()),
            WebsocketSupportedExchanges::Binance => ExchangeFrame::Text(BinanceApi::ping()),
        }
    }

    pub fn depth(&self, coin: &str) -> (r: ExchangeFrame)
        ensures
            r@ == depth_frame(*self, coin@),
    {
        match self {
            WebsocketSupportedExchanges::Hyperliquid => ExchangeFrame::Hyperliquid(HyperliquidWssMessage::l2_book(coin)),
            WebsocketSupportedExchanges::ByBit => ExchangeFrame::ByBit(ByBitWssMessage::depth(coin)),
            WebsocketSupportedExchanges::ByBitSpot => ExchangeFrame::ByBitSpot(ByBitSpot::depth(coin)),
            WebsocketSupportedExchanges::Kraken => ExchangeFrame::Kraken(KrakenWssMessage::depth(coin)),
            WebsocketSupportedExchanges::KrakenSpot => ExchangeFrame::KrakenSpot(KrakenSpot::depth(coin)),
            WebsocketSupportedExchanges::Mexc => ExchangeFrame::Mexc(Mex::depth(coin)),
            WebsocketSupportedExchanges::Binance => ExchangeFrame::Text(BinanceApi::depth(coin)),
        }
    }

    pub fn trades(&self, coin: &str) -> (r: ExchangeFrame)
        ensures
            r@ == trades_frame(*self, coin@),
    {
        match self {
            WebsocketSupportedExchanges::Hyperliquid => ExchangeFrame::Hyperliquid(HyperliquidWssMessage::trades(coin)),
            WebsocketSupportedExchanges::ByBit => ExchangeFrame::ByBit(ByBitWssMessage::trades(coin)),
            WebsocketSupportedExchanges::ByBitSpot => ExchangeFrame::ByBitSpot(ByBitSpot::trades(coin)),
            WebsocketSupportedExchanges::Kraken => ExchangeFrame::Kraken(KrakenWssMessage::trades(coin)),
            WebsocketSupportedExchanges::KrakenSpot => ExchangeFrame::KrakenSpot(KrakenSpot::trades(coin)),
            WebsocketSupportedExchanges::Mexc => ExchangeFrame::Mexc(Mex::trades(coin)),
            WebsocketSupportedExchanges::Binance => ExchangeFrame::Text(BinanceApi::trades(coin)),
        }
    }

    pub fn candle(&self, coin: &str) -> (r: Option<ExchangeFrame>)
        ensures
            match (r, candle_frame(*self, coin@)) {
                (Some(f), Some(v)) => f@ == v,
                (None, None) => true,
                _ => false,
            },
    {
        match self {
            WebsocketSupportedExchanges::Hyperliquid => Some(ExchangeFrame::Hyperliquid(HyperliquidWssMessage::candle(coin))),
            WebsocketSupportedExchanges::ByBit => Some(ExchangeFrame::ByBit(ByBitWssMessage::candle(coin))),
            _ => None,
        }
    }

    /// The WebSocket endpoint of this exchange.
    pub fn websocket_url(&self) -> (r: &'static str)
        ensures
            r@ == url_of(*self),
    {
        match self {
            WebsocketSupportedExchanges::Hyperliquid => "wss://api.hyperliquid.xyz/ws",
            WebsocketSupportedExchanges::ByBit => "wss://stream.bybit.com/v5/public/linear",
            WebsocketSupportedExchanges::ByBitSpot => "wss://stream.bybit.com/v5/public/spot",
            WebsocketSupportedExchanges::Kraken => "wss://futures.kraken.com/ws/v1",
            WebsocketSupportedExchanges::KrakenSpot => "wss://ws.kraken.com/v2",
            WebsocketSupportedExchanges::Mexc => "wss://wbs.mexc.com/ws",
            WebsocketSupportedExchanges::Binance => "wss://fstream.binance.com/ws",
        }
    }

    /// The default ping interval, in seconds: 20 for Hyperliquid and ByBit,
    /// 30 for the others.
    pub fn default_ping_interval(&self) -> (r: u64)
        ensures
            r == if short_timing(*self) { 20u64 } else { 30u64 },
    {
        match self {
            WebsocketSupportedExchanges::Hyperliquid => 20,
            WebsocketSupportedExchanges::ByBit => 20,
            WebsocketSupportedExchanges::ByBitSpot => 20,
            _ => 30,
        }
    }

    /// The default ping timeout, in seconds: 10 for Hyperliquid and ByBit,
    /// 15 for the others.
    pub fn default_ping_timeout(&self) -> (r: u64)
        ensures
            r == if short_timing(*self) { 10u64 } else { 15u64 },
    {
        match self {
            WebsocketSupportedExchanges::Hyperliquid => 10,
            WebsocketSupportedExchanges::ByBit => 10,
            WebsocketSupportedExchanges::ByBitSpot => 10,
            _ => 15,
        }
    }

    /// The default reconnect timeout, in milliseconds: 10000 for the Kraken
    /// feeds, 5000 for the others.
    pub fn default_reconnect_timeout(&self) -> (r: u64)
        ensures
            r == if *self == WebsocketSupportedExchanges::Kraken || *self == WebsocketSupportedExchanges::KrakenSpot { 10000u64 } else { 5000u64 },
    {
        match self {
            WebsocketSupportedExchanges::Kraken => 10000,
            WebsocketSupportedExchanges::KrakenSpot => 10000,
            _ => 5000,
        }
    }
}

} // verus!
