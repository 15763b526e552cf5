//! The exchanges whose WebSocket feeds the library speaks to, with the frame
//! each one expects for pings and subscriptions, its endpoint and its timing
//! defaults.
use vstd::prelude::*;
use crate::aster::AsterWssMessage;
use crate::binance::{BinanceWssMessage, RequestView};
use crate::binance::ws::{ping_view, request_view};
use crate::bitget::{BitgetMessageView, BitgetWssMessage};
use crate::bitget::ws::bitget_view;
use crate::bybit::{ByBitRequestView, ByBitWssMessage};
use crate::bybit::ws::bybit_topic_view;
use crate::coinbase::{CoinbaseRequestView, CoinbaseWssMessage};
use crate::coinbase::ws::coinbase_view;
use crate::deribit::{DeribitParamsView, DeribitRequestView, DeribitWssMessage};
use crate::deribit::ws::deribit_view;
use crate::hyperliquid::{HyperliquidRequestView, HyperliquidWssMessage};
use crate::hyperliquid::ws::{coin_subscription, hyperliquid_view};
use crate::kraken::{KrakenRequestView, KrakenWssMessage};
use crate::kraken::ws::kraken_view;
use crate::kucoin::{KuCoinRequestView, KuCoinWssMessage};
use crate::kucoin::ws::kucoin_view;
use crate::lighter::{market_channel, LighterRequestView, LighterWssMessage};
use crate::okx::{OkxMessageView, OkxWssMessage};
use crate::okx::ws::okx_view;
use crate::pacifica::{pacifica_view, PacificaRequestView, PacificaWssMessage};
use crate::paradex::{paradex_view, ParadexRequestView, ParadexWssMessage};
use crate::text::{join3, owned, stream_name, stream_names};

verus! {

#[derive(Debug, Clone, Copy, PartialEq, Eq, Structural)]
pub enum WebsocketSupportedExchanges {
    Hyperliquid,
    ByBit,
    Kraken,
    Binance,
    Okx,
    KuCoin,
    Bitget,
    Coinbase,
    Aster,
    Pacifica,
    Lighter,
    Paradex,
    Deribit,
}

/// A JSON request of one of the exchanges, before it is written as text.
#[derive(Debug, Clone)]
pub enum WssRequest {
    Hyperliquid(HyperliquidWssMessage),
    Kraken(KrakenWssMessage),
    ByBit(ByBitWssMessage),
    Binance(BinanceWssMessage),
    Okx(OkxWssMessage),
    KuCoin(KuCoinWssMessage),
    Bitget(BitgetWssMessage),
    Coinbase(CoinbaseWssMessage),
    Aster(AsterWssMessage),
    Pacifica(PacificaWssMessage),
    Lighter(LighterWssMessage),
    Paradex(ParadexWssMessage),
    Deribit(DeribitWssMessage),
}

/// A text frame to send: either literal text or a JSON request.
#[derive(Debug, Clone)]
pub enum OutgoingFrame {
    Text(String),
    Json(WssRequest),
}

/// What a frame to send holds.
pub enum FrameView {
    Text(Seq<char>),
    Hyperliquid(HyperliquidRequestView),
    Kraken(KrakenRequestView),
    ByBit(ByBitRequestView),
    Binance(RequestView),
    Okx(OkxMessageView),
    KuCoin(KuCoinRequestView),
    Bitget(BitgetMessageView),
    Coinbase(CoinbaseRequestView),
    Aster(RequestView),
    Pacifica(PacificaRequestView),
    Lighter(LighterRequestView),
    Paradex(ParadexRequestView),
    Deribit(DeribitRequestView),
}

impl View for OutgoingFrame {
    type V = FrameView;

    open spec fn view(&self) -> FrameView {
        match self {
            OutgoingFrame::Text(t) => FrameView::Text(t@),
            OutgoingFrame::Json(WssRequest::Hyperliquid(m)) => FrameView::Hyperliquid(m@),
            OutgoingFrame::Json(WssRequest::Kraken(m)) => FrameView::Kraken(m@),
            OutgoingFrame::Json(WssRequest::ByBit(m)) => FrameView::ByBit(m@),
            OutgoingFrame::Json(WssRequest::Binance(m)) => FrameView::Binance(m@),
            OutgoingFrame::Json(WssRequest::Okx(m)) => FrameView::Okx(m@),
            OutgoingFrame::Json(WssRequest::KuCoin(m)) => FrameView::KuCoin(m@),
            OutgoingFrame::Json(WssRequest::Bitget(m)) => FrameView::Bitget(m@),
            OutgoingFrame::Json(WssRequest::Coinbase(m)) => FrameView::Coinbase(m@),
            OutgoingFrame::Json(WssRequest::Aster(m)) => FrameView::Aster(m@),
            OutgoingFrame::Json(WssRequest::Pacifica(m)) => FrameView::Pacifica(m@),
            OutgoingFrame::Json(WssRequest::Lighter(m)) => FrameView::Lighter(m@),
            OutgoingFrame::Json(WssRequest::Paradex(m)) => FrameView::Paradex(m@),
            OutgoingFrame::Json(WssRequest::Deribit(m)) => FrameView::Deribit(m@),
        }
    }
}

/// The keep-alive frame of each exchange. Coinbase has none: its frame is
/// the empty text.
pub open spec fn ping_frame(ex: WebsocketSupportedExchanges) -> FrameView {
    match ex {
        WebsocketSupportedExchanges::Hyperliquid => FrameView::Hyperliquid(HyperliquidRequestView { method: "ping"@, subscription: None }),
        WebsocketSupportedExchanges::Kraken => FrameView::Kraken(KrakenRequestView { event: "ping"@, feed: None, product_ids: None }),
        WebsocketSupportedExchanges::ByBit => FrameView::ByBit(ByBitRequestView { req_id: "100001"@, op: "ping"@, args: None }),
        WebsocketSupportedExchanges::Binance => FrameView::Binance(ping_view()),
        WebsocketSupportedExchanges::Okx => FrameView::Text("ping"@),
        WebsocketSupportedExchanges::KuCoin => FrameView::KuCoin(KuCoinRequestView { id: "1"@, msg_type: "ping"@, topic: None, private_channel: None, response: None }),
        WebsocketSupportedExchanges::Bitget => FrameView::Text("ping"@),
        WebsocketSupportedExchanges::Coinbase => FrameView::Text(Seq::<char>::empty()),
        WebsocketSupportedExchanges::Aster => FrameView::Aster(ping_view()),
        WebsocketSupportedExchanges::Pacifica => FrameView::Pacifica(PacificaRequestView { method: "ping"@, params: None }),
        WebsocketSupportedExchanges::Lighter => FrameView::Lighter(LighterRequestView { msg_type: "ping"@, channel: Seq::<char>::empty() }),
        WebsocketSupportedExchanges::Paradex => FrameView::Paradex(paradex_view("subscribe"@, "heartbeat"@)),
        WebsocketSupportedExchanges::Deribit => FrameView::Deribit(deribit_view("public/test"@, None, 1)),
    }
}

/// The depth subscription of each exchange for a coin. Lighter names its
/// markets by index, and this frame subscribes to market 0.
pub open spec fn depth_frame(ex: WebsocketSupportedExchanges, coin: Seq<char>) -> FrameView {
    match ex {
        WebsocketSupportedExchanges::Hyperliquid => FrameView::Hyperliquid(hyperliquid_view("subscribe"@, coin_subscription("l2Book"@, None, coin))),
        WebsocketSupportedExchanges::Kraken => FrameView::Kraken(kraken_view("subscribe"@, "book"@, coin)),
        WebsocketSupportedExchanges::ByBit => FrameView::ByBit(bybit_topic_view("subscribe"@, "orderbook.50."@ + coin)),
        WebsocketSupportedExchanges::Binance => FrameView::Binance(request_view("SUBSCRIBE"@, seq![stream_name(coin, "@depth@100ms"@)])),
        WebsocketSupportedExchanges::Okx => FrameView::Okx(okx_view("subscribe"@, "books"@, coin)),
        WebsocketSupportedExchanges::KuCoin => FrameView::KuCoin(kucoin_view("subscribe"@, "/contractMarket/level2:"@ + coin)),
        WebsocketSupportedExchanges::Bitget => FrameView::Bitget(bitget_view("subscribe"@, "books"@, coin)),
        WebsocketSupportedExchanges::Coinbase => FrameView::Coinbase(coinbase_view("subscribe"@, "level2"@, coin)),
        WebsocketSupportedExchanges::Aster => FrameView::Aster(request_view("SUBSCRIBE"@, seq![stream_name(coin, "@depth@100ms"@)])),
        WebsocketSupportedExchanges::Pacifica => FrameView::Pacifica(pacifica_view("subscribe"@, "orderbook"@, coin, None)),
        WebsocketSupportedExchanges::Lighter => FrameView::Lighter(LighterRequestView { msg_type: "subscribe"@, channel: market_channel("order_book/"@, 0) }),
        WebsocketSupportedExchanges::Paradex => FrameView::Paradex(paradex_view("subscribe"@, "order_book."@ + coin)),
        WebsocketSupportedExchanges::Deribit => FrameView::Deribit(deribit_view("public/subscribe"@, Some(DeribitParamsView::Channels { channels: seq!["book."@ + coin + ".100ms"@] }), 1)),
    }
}

/// The trade subscription of each exchange for a coin (market 0 on Lighter).
pub open spec fn trades_frame(ex: WebsocketSupportedExchanges, coin: Seq<char>) -> FrameView {
    match ex {
        WebsocketSupportedExchanges::Hyperliquid => FrameView::Hyperliquid(hyperliquid_view("subscribe"@, coin_subscription("trades"@, None, coin))),
        WebsocketSupportedExchanges::Kraken => FrameView::Kraken(kraken_view("subscribe"@, "trade"@, coin)),
        WebsocketSupportedExchanges::ByBit => FrameView::ByBit(bybit_topic_view("subscribe"@, "publicTrade."@ + coin)),
        WebsocketSupportedExchanges::Binance => FrameView::Binance(request_view("SUBSCRIBE"@, seq![stream_name(coin, "@trade"@)])),
        WebsocketSupportedExchanges::Okx => FrameView::Okx(okx_view("subscribe"@, "trades"@, coin)),
        WebsocketSupportedExchanges::KuCoin => FrameView::KuCoin(kucoin_view("subscribe"@, "/contractMarket/execution:"@ + coin)),
        WebsocketSupportedExchanges::Bitget => FrameView::Bitget(bitget_view("subscribe"@, "trade"@, coin)),
        WebsocketSupportedExchanges::Coinbase => FrameView::Coinbase(coinbase_view("subscribe"@, "market_trades"@, coin)),
        WebsocketSupportedExchanges::Aster => FrameView::Aster(request_view("SUBSCRIBE"@, seq![stream_name(coin, "@aggTrade"@)])),
        WebsocketSupportedExchanges::Pacifica => FrameView::Pacifica(pacifica_view("subscribe"@, "trade"@, coin, None)),
        WebsocketSupportedExchanges::Lighter => FrameView::Lighter(LighterRequestView { msg_type: "subscribe"@, channel: market_channel("trade/"@, 0) }),
        WebsocketSupportedExchanges::Paradex => FrameView::Paradex(paradex_view("subscribe"@, "trades."@ + coin)),
        WebsocketSupportedExchanges::Deribit => FrameView::Deribit(deribit_view("public/subscribe"@, Some(DeribitParamsView::Channels { channels: seq!["trades."@ + coin + ".100ms"@] }), 1)),
    }
}

/// The one-minute candle subscription of a coin, on the exchanges that offer
/// one.
pub open spec fn candle_frame(ex: WebsocketSupportedExchanges, coin: Seq<char>) -> Option<FrameView> {
    match ex {
        WebsocketSupportedExchanges::Hyperliquid => Some(FrameView::Hyperliquid(hyperliquid_view("subscribe"@, coin_subscription("candle"@, Some("1m"@), coin)))),
        WebsocketSupportedExchanges::ByBit => Some(FrameView::ByBit(bybit_topic_view("subscribe"@, "kline.1."@ + coin))),
        WebsocketSupportedExchanges::Binance => Some(FrameView::Binance(request_view("SUBSCRIBE"@, seq![stream_name(coin, "@kline_1m"@)]))),
        WebsocketSupportedExchanges::Aster => Some(FrameView::Aster(request_view("SUBSCRIBE"@, seq![stream_name(coin, "@kline_1m"@)]))),
        WebsocketSupportedExchanges::Pacifica => Some(FrameView::Pacifica(pacifica_view("subscribe"@, "candle"@, coin, Some("1m"@)))),
        _ => None,
    }
}

/// Whether a frame asks the exchange to subscribe (not to unsubscribe, ping
/// or anything else): each exchange's own word for subscribing stands in its
/// request's method, operation, event or type.
pub open spec fn requests_subscription(f: FrameView) -> bool {
    match f {
        FrameView::Text(_) => false,
        FrameView::Hyperliquid(v) => v.method == "subscribe"@,
        FrameView::Kraken(v) => v.event == "subscribe"@,
        FrameView::ByBit(v) => v.op == "subscribe"@,
        FrameView::Binance(v) => v.method == "SUBSCRIBE"@,
        FrameView::Okx(v) => v.op == "subscribe"@,
        FrameView::KuCoin(v) => v.msg_type == "subscribe"@,
        FrameView::Bitget(v) => v.op == "subscribe"@,
        FrameView::Coinbase(v) => v.msg_type == "subscribe"@,
        FrameView::Aster(v) => v.method == "SUBSCRIBE"@,
        FrameView::Pacifica(v) => v.method == "subscribe"@,
        FrameView::Lighter(v) => v.msg_type == "subscribe"@,
        FrameView::Paradex(v) => v.method == "subscribe"@,
        FrameView::Deribit(v) => v.method == "public/subscribe"@,
    }
}

/// Whether a frame is a Hyperliquid subscription to the feed `typ` of `coin`.
pub open spec fn hyperliquid_feed(f: FrameView, typ: Seq<char>, coin: Seq<char>) -> bool {
    match f {
        FrameView::Hyperliquid(v) => v.method == "subscribe"@ && match v.subscription {
            Some(sub) => sub.typ == typ && sub.coin == Some(coin),
            None => false,
        },
        _ => false,
    }
}

/// Every depth, trade and candle frame of every exchange asks to subscribe.
pub proof fn lemma_feed_frames_subscribe(ex: WebsocketSupportedExchanges, coin: Seq<char>)
    ensures
        requests_subscription(depth_frame(ex, coin)),
        requests_subscription(trades_frame(ex, coin)),
        candle_frame(ex, coin) matches Some(f) ==> requests_subscription(f),
{
}

/// On Hyperliquid the depth frame subscribes to the coin's `l2Book`, the
/// trade frame to its `trades` and the candle frame to its `candle` feed.
pub proof fn lemma_hyperliquid_feed_frames(coin: Seq<char>)
    ensures
        hyperliquid_feed(depth_frame(WebsocketSupportedExchanges::Hyperliquid, coin), "l2Book"@, coin),
        hyperliquid_feed(trades_frame(WebsocketSupportedExchanges::Hyperliquid, coin), "trades"@, coin),
        match candle_frame(WebsocketSupportedExchanges::Hyperliquid, coin) {
            Some(f) => hyperliquid_feed(f, "candle"@, coin),
            None => false,
        },
{
}

/// The WebSocket endpoint of each exchange.
pub open spec fn url_of(ex: WebsocketSupportedExchanges) -> Seq<char> {
    match ex {
        WebsocketSupportedExchanges::Hyperliquid => "wss://api.hyperliquid.xyz/ws"@,
        WebsocketSupportedExchanges::ByBit => "wss://stream.bybit.com/v5/public/linear"@,
        WebsocketSupportedExchanges::Kraken => "wss://futures.kraken.com/ws/v1"@,
        WebsocketSupportedExchanges::Binance => "wss://fstream.binance.com/ws"@,
        WebsocketSupportedExchanges::Okx => "wss://ws.okx.com:8443/ws/v5/public"@,
        WebsocketSupportedExchanges::KuCoin => "wss://ws-api-futures.kucoin.com/endpoint"@,
        WebsocketSupportedExchanges::Bitget => "wss://ws.bitget.com/v2/ws/public"@,
        WebsocketSupportedExchanges::Coinbase => "wss://advanced-trade-ws.coinbase.com"@,
        WebsocketSupportedExchanges::Aster => "wss://fstream.asterdex.com"@,
        WebsocketSupportedExchanges::Pacifica => "wss://ws.pacifica.fi/ws"@,
        WebsocketSupportedExchanges::Lighter => "wss://mainnet.zklighter.elliot.ai/stream"@,
        WebsocketSupportedExchanges::Paradex => "wss://ws.api.prod.paradex.trade/v1"@,
        WebsocketSupportedExchanges::Deribit => "wss://www.deribit.com/ws/api/v2"@,
    }
}

/// The default ping interval of each exchange, in seconds.
pub open spec fn ping_interval_of(ex: WebsocketSupportedExchanges) -> u64 {
    match ex {
        WebsocketSupportedExchanges::Hyperliquid => 20,
        WebsocketSupportedExchanges::ByBit => 20,
        WebsocketSupportedExchanges::Kraken => 30,
        WebsocketSupportedExchanges::Binance => 30,
        WebsocketSupportedExchanges::Okx => 20,
        WebsocketSupportedExchanges::KuCoin => 18,
        WebsocketSupportedExchanges::Bitget => 30,
        WebsocketSupportedExchanges::Coinbase => 30,
        WebsocketSupportedExchanges::Aster => 10,
        WebsocketSupportedExchanges::Pacifica => 30,
        WebsocketSupportedExchanges::Lighter => 90,
        WebsocketSupportedExchanges::Paradex => 30,
        WebsocketSupportedExchanges::Deribit => 30,
    }
}

/// The default ping timeout of each exchange, in seconds.
pub open spec fn ping_timeout_of(ex: WebsocketSupportedExchanges) -> u64 {
    match ex {
        WebsocketSupportedExchanges::Kraken => 15,
        WebsocketSupportedExchanges::Binance => 15,
        WebsocketSupportedExchanges::Bitget => 15,
        WebsocketSupportedExchanges::Coinbase => 15,
        _ => 10,
    }
}

/// The default reconnect timeout of each exchange, in milliseconds.
pub open spec fn reconnect_timeout_of(ex: WebsocketSupportedExchanges) -> u64 {
    match ex {
        WebsocketSupportedExchanges::Kraken => 10000,
        _ => 5000,
    }
}

/// The list of one coin.
fn one_coin(coin: &str) -> (r: Vec<String>)
    ensures
        r.deep_view() == seq![coin@],
{
    let v = vec![owned(coin)];
    assert(v.deep_view() =~= seq![coin@]);
    v
}

impl WebsocketSupportedExchanges {
    /// The keep-alive frame of this exchange.
    pub fn ping(&self) -> (r: OutgoingFrame)
        ensures
            r@ == ping_frame(*self),
    {
        match self {
            WebsocketSupportedExchanges::Hyperliquid => OutgoingFrame::Json(WssRequest::Hyperliquid(HyperliquidWssMessage::ping())),
            WebsocketSupportedExchanges::Kraken => OutgoingFrame::Json(WssRequest::Kraken(KrakenWssMessage::ping())),
            WebsocketSupportedExchanges::ByBit => OutgoingFrame::Json(WssRequest::ByBit(ByBitWssMessage::ping())),
            WebsocketSupportedExchanges::Binance => OutgoingFrame::Json(WssRequest::Binance(BinanceWssMessage::ping())),
            WebsocketSupportedExchanges::Okx => OutgoingFrame::Text(OkxWssMessage::ping()),
            WebsocketSupportedExchanges::KuCoin => OutgoingFrame::Json(WssRequest::KuCoin(KuCoinWssMessage::ping())),
            WebsocketSupportedExchanges::Bitget => OutgoingFrame::Text(BitgetWssMessage::ping()),
            WebsocketSupportedExchanges::Coinbase => OutgoingFrame::Text(String::new()),
            WebsocketSupportedExchanges::Aster => OutgoingFrame::Json(WssRequest::Aster(AsterWssMessage::ping())),
            WebsocketSupportedExchanges::Pacifica => OutgoingFrame::Json(WssRequest::Pacifica(PacificaWssMessage::ping())),
            WebsocketSupportedExchanges::Lighter => OutgoingFrame::Json(WssRequest::Lighter(LighterWssMessage::ping())),
            WebsocketSupportedExchanges::Paradex => OutgoingFrame::Json(WssRequest::Paradex(ParadexWssMessage::ping())),
            WebsocketSupportedExchanges::Deribit => OutgoingFrame::Json(WssRequest::Deribit(DeribitWssMessage::test(1))),
        }
    }

    /// The depth subscription of a coin on this exchange.
    pub fn depth(&self, coin: &str) -> (r: OutgoingFrame)
        ensures
            r@ == depth_frame(*self, coin@),
            requests_subscription(r@),
            *self == WebsocketSupportedExchanges::Hyperliquid ==> hyperliquid_feed(r@, "l2Book"@, coin@),
    {
        match self {
            WebsocketSupportedExchanges::Hyperliquid => OutgoingFrame::Json(WssRequest::Hyperliquid(HyperliquidWssMessage::l2_book(coin))),
            WebsocketSupportedExchanges::Kraken => OutgoingFrame::Json(WssRequest::Kraken(KrakenWssMessage::depth(coin))),
            WebsocketSupportedExchanges::ByBit => OutgoingFrame::Json(WssRequest::ByBit(ByBitWssMessage::depth(coin))),
            WebsocketSupportedExchanges::Binance => {
                let coins = one_coin(coin);
                let m = BinanceWssMessage::batch_depth(coins.as_slice());
                assert(stream_names(seq![coin@], "@depth@100ms"@) =~= seq![stream_name(coin@, "@depth@100ms"@)]);
                OutgoingFrame::Json(WssRequest::Binance(m))
            },
            WebsocketSupportedExchanges::Okx => OutgoingFrame::Json(WssRequest::Okx(OkxWssMessage::depth(coin))),
            WebsocketSupportedExchanges::KuCoin => OutgoingFrame::Json(WssRequest::KuCoin(KuCoinWssMessage::depth(coin))),
            WebsocketSupportedExchanges::Bitget => OutgoingFrame::Json(WssRequest::Bitget(BitgetWssMessage::depth(coin))),
            WebsocketSupportedExchanges::Coinbase => OutgoingFrame::Json(WssRequest::Coinbase(CoinbaseWssMessage::depth(coin))),
            WebsocketSupportedExchanges::Aster => OutgoingFrame::Json(WssRequest::Aster(AsterWssMessage::depth(coin))),
            WebsocketSupportedExchanges::Pacifica => OutgoingFrame::Json(WssRequest::Pacifica(PacificaWssMessage::depth(coin))),
            WebsocketSupportedExchanges::Lighter => OutgoingFrame::Json(WssRequest::Lighter(LighterWssMessage::depth(0))),
            WebsocketSupportedExchanges::Paradex => OutgoingFrame::Json(WssRequest::Paradex(ParadexWssMessage::depth(coin))),
            WebsocketSupportedExchanges::Deribit => {
                let channels = vec![join3("book.", coin, ".100ms")];
                let m = DeribitWssMessage::subscribe(channels.as_slice(), 1);
                assert(channels.deep_view() =~= seq!["book."@ + coin@ + ".100ms"@]);
                OutgoingFrame::Json(WssRequest::Deribit(m))
            },
        }
    }

    /// The trade subscription of a coin on this exchange.
    pub fn trades(&self, coin: &str) -> (r: OutgoingFrame)
        ensures
            r@ == trades_frame(*self, coin@),
            requests_subscription(r@),
            *self == WebsocketSupportedExchanges::Hyperliquid ==> hyperliquid_feed(r@, "trades"@, coin@),
    {
        match self {
            WebsocketSupportedExchanges::Hyperliquid => OutgoingFrame::Json(WssRequest::Hyperliquid(HyperliquidWssMessage::trades(coin))),
            WebsocketSupportedExchanges::Kraken => OutgoingFrame::Json(WssRequest::Kraken(KrakenWssMessage::trades(coin))),
            WebsocketSupportedExchanges::ByBit => OutgoingFrame::Json(WssRequest::ByBit(ByBitWssMessage::trades(coin))),
            WebsocketSupportedExchanges::Binance => {
                let coins = one_coin(coin);
                let m = BinanceWssMessage::batch_trades(coins.as_slice());
                assert(stream_names(seq![coin@], "@trade"@) =~= seq![stream_name(coin@, "@trade"@)]);
                OutgoingFrame::Json(WssRequest::Binance(m))
            },
            WebsocketSupportedExchanges::Okx => OutgoingFrame::Json(WssRequest::Okx(OkxWssMessage::trades(coin))),
            WebsocketSupportedExchanges::KuCoin => OutgoingFrame::Json(WssRequest::KuCoin(KuCoinWssMessage::trades(coin))),
            WebsocketSupportedExchanges::Bitget => OutgoingFrame::Json(WssRequest::Bitget(BitgetWssMessage::trades(coin))),
            WebsocketSupportedExchanges::Coinbase => OutgoingFrame::Json(WssRequest::Coinbase(CoinbaseWssMessage::trades(coin))),
            WebsocketSupportedExchanges::Aster => OutgoingFrame::Json(WssRequest::Aster(AsterWssMessage::trades(coin))),
            WebsocketSupportedExchanges::Pacifica => OutgoingFrame::Json(WssRequest::Pacifica(PacificaWssMessage::trades(coin))),
            WebsocketSupportedExchanges::Lighter => OutgoingFrame::Json(WssRequest::Lighter(LighterWssMessage::trades(0))),
            WebsocketSupportedExchanges::Paradex => OutgoingFrame::Json(WssRequest::Paradex(ParadexWssMessage::trades(coin))),
            WebsocketSupportedExchanges::Deribit => {
                let channels = vec![join3("trades.", coin, ".100ms")];
                let m = DeribitWssMessage::subscribe(channels.as_slice(), 1);
                assert(channels.deep_view() =~= seq!["trades."@ + coin@ + ".100ms"@]);
                OutgoingFrame::Json(WssRequest::Deribit(m))
            },
        }
    }

    /// The one-minute candle subscription of a coin, on the exchanges that
    /// offer one; `None` on the others.
    pub fn candle(&self, coin: &str) -> (r: Option<OutgoingFrame>)
        ensures
            match candle_frame(*self, coin@) {
                Some(f) => r is Some && r->0@ == f,
                None => r is None,
            },
            r matches Some(f) ==> requests_subscription(f@),
            *self == WebsocketSupportedExchanges::Hyperliquid ==> match r {
                Some(f) => hyperliquid_feed(f@, "candle"@, coin@),
                None => false,
            },
    {
        match self {
            WebsocketSupportedExchanges::Hyperliquid => Some(OutgoingFrame::Json(WssRequest::Hyperliquid(HyperliquidWssMessage::candle(coin)))),
            WebsocketSupportedExchanges::ByBit => Some(OutgoingFrame::Json(WssRequest::ByBit(ByBitWssMessage::candle(coin)))),
            WebsocketSupportedExchanges::Binance => {
                let coins = one_coin(coin);
                let m = BinanceWssMessage::batch_candles(coins.as_slice());
                assert(stream_names(seq![coin@], "@kline_1m"@) =~= seq![stream_name(coin@, "@kline_1m"@)]);
                Some(OutgoingFrame::Json(WssRequest::Binance(m)))
            },
            WebsocketSupportedExchanges::Aster => Some(OutgoingFrame::Json(WssRequest::Aster(AsterWssMessage::klines(coin)))),
            WebsocketSupportedExchanges::Pacifica => Some(OutgoingFrame::Json(WssRequest::Pacifica(PacificaWssMessage::candles(coin)))),
            _ => None,
        }
    }

    /// The depth subscription of several coins in one request. Only Binance
    /// batches; the other exchanges give `None`.
    pub fn batch_depth(&self, coins: &[String]) -> (r: Option<OutgoingFrame>)
        ensures
            *self == WebsocketSupportedExchanges::Binance ==> r is Some
                && r->0@ == FrameView::Binance(request_view("SUBSCRIBE"@, stream_names(coins.deep_view(), "@depth@100ms"@))),
            *self != WebsocketSupportedExchanges::Binance ==> r is None,
    {
        match self {
            WebsocketSupportedExchanges::Binance => Some(OutgoingFrame::Json(WssRequest::Binance(BinanceWssMessage::batch_depth(coins)))),
            _ => None,
        }
    }

    /// The trade subscription of several coins in one request. Only Binance
    /// batches; the other exchanges give `None`.
    pub fn batch_trades(&self, coins: &[String]) -> (r: Option<OutgoingFrame>)
        ensures
            *self == WebsocketSupportedExchanges::Binance ==> r is Some
                && r->0@ == FrameView::Binance(request_view("SUBSCRIBE"@, stream_names(coins.deep_view(), "@trade"@))),
            *self != WebsocketSupportedExchanges::Binance ==> r is None,
    {
        match self {
            WebsocketSupportedExchanges::Binance => Some(OutgoingFrame::Json(WssRequest::Binance(BinanceWssMessage::batch_trades(coins)))),
            _ => None,
        }
    }

    /// The WebSocket endpoint of this exchange. KuCoin wants a short-lived
    /// token appended as a query parameter; this is its base endpoint.
    pub fn websocket_url(&self) -> (r: &'static str)
        ensures
            r@ == url_of(*self),
    {
        match self {
            WebsocketSupportedExchanges::Hyperliquid => "wss://api.hyperliquid.xyz/ws",
            WebsocketSupportedExchanges::ByBit => "wss://stream.bybit.com/v5/public/linear",
            WebsocketSupportedExchanges::Kraken => "wss://futures.kraken.com/ws/v1",
            WebsocketSupportedExchanges::Binance => "wss://fstream.binance.com/ws",
            WebsocketSupportedExchanges::Okx => "wss://ws.okx.com:8443/ws/v5/public",
            WebsocketSupportedExchanges::KuCoin => "wss://ws-api-futures.kucoin.com/endpoint",
            WebsocketSupportedExchanges::Bitget => "wss://ws.bitget.com/v2/ws/public",
            WebsocketSupportedExchanges::Coinbase => "wss://advanced-trade-ws.coinbase.com",
            WebsocketSupportedExchanges::Aster => "wss://fstream.asterdex.com",
            WebsocketSupportedExchanges::Pacifica => "wss://ws.pacifica.fi/ws",
            WebsocketSupportedExchanges::Lighter => "wss://mainnet.zklighter.elliot.ai/stream",
            WebsocketSupportedExchanges::Paradex => "wss://ws.api.prod.paradex.trade/v1",
            WebsocketSupportedExchanges::Deribit => "wss://www.deribit.com/ws/api/v2",
        }
    }

    /// The default ping interval of this exchange, in seconds.
    pub fn default_ping_interval(&self) -> (r: u64)
        ensures
            r == ping_interval_of(*self),
    {
        match self {
            WebsocketSupportedExchanges::Hyperliquid => 20,
            WebsocketSupportedExchanges::ByBit => 20,
            WebsocketSupportedExchanges::Kraken => 30,
            WebsocketSupportedExchanges::Binance => 30,
            WebsocketSupportedExchanges::Okx => 20,
            WebsocketSupportedExchanges::KuCoin => 18,
            WebsocketSupportedExchanges::Bitget => 30,
            WebsocketSupportedExchanges::Coinbase => 30,
            WebsocketSupportedExchanges::Aster => 10,
            WebsocketSupportedExchanges::Pacifica => 30,
            WebsocketSupportedExchanges::Lighter => 90,
            WebsocketSupportedExchanges::Paradex => 30,
            WebsocketSupportedExchanges::Deribit => 30,
        }
    }

    /// The default ping timeout of this exchange, in seconds.
    pub fn default_ping_timeout(&self) -> (r: u64)
        ensures
            r == ping_timeout_of(*self),
    {
        match self {
            WebsocketSupportedExchanges::Hyperliquid => 10,
            WebsocketSupportedExchanges::ByBit => 10,
            WebsocketSupportedExchanges::Kraken => 15,
            WebsocketSupportedExchanges::Binance => 15,
            WebsocketSupportedExchanges::Okx => 10,
            WebsocketSupportedExchanges::KuCoin => 10,
            WebsocketSupportedExchanges::Bitget => 15,
            WebsocketSupportedExchanges::Coinbase => 15,
            WebsocketSupportedExchanges::Aster => 10,
            WebsocketSupportedExchanges::Pacifica => 10,
            WebsocketSupportedExchanges::Lighter => 10,
            WebsocketSupportedExchanges::Paradex => 10,
            WebsocketSupportedExchanges::Deribit => 10,
        }
    }

    /// The default reconnect timeout of this exchange, in milliseconds.
    pub fn default_reconnect_timeout(&self) -> (r: u64)
        ensures
            r == reconnect_timeout_of(*self),
    {
        match self {
            WebsocketSupportedExchanges::Kraken => 10000,
            _ => 5000,
        }
    }
}

} // verus!
