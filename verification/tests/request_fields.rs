use roshar::binance::BinanceWssMessage;
use roshar::bitget::BitgetWssMessage;
use roshar::bybit::ByBitWssMessage;
use roshar::coinbase::CoinbaseWssMessage;
use roshar::deribit::{DeribitParams, DeribitWssMessage};
use roshar::exchanges::hyperliquid::ticks::{tick_decimals, tick_decimals_for_price};
use roshar::hyperliquid::HyperliquidWssMessage;
use roshar::kraken::KrakenWssMessage;
use roshar::kucoin::KuCoinWssMessage;
use roshar::okx::{OkxDepthBookData, OkxDepthMessage, OkxWssArg, OkxWssMessage};
use roshar::websocket_supported_exchanges::WebsocketSupportedExchanges;
use roshar::ws_mgr::handlers::exchange_subscription_manager::ExchangeSubscriptionManager;

fn pair(a: &str, b: &str) -> Vec<String> {
    vec![a.to_string(), b.to_string()]
}

#[test]
fn ws_test_wss_message_ping() {
    let msg = BinanceWssMessage::ping();
    assert_eq!(msg.method, "ping");
    assert_eq!(msg.id, 1);
}

#[test]
fn test_wss_message_batch_depth() {
    let msg = BinanceWssMessage::batch_depth(&pair("BTCUSDT", "ETHUSDT"));
    assert_eq!(msg.method, "SUBSCRIBE");
    let params = msg.params.unwrap();
    assert_eq!(params[0], "btcusdt@depth@100ms");
    assert_eq!(params[1], "ethusdt@depth@100ms");
}

#[test]
fn test_wss_message_batch_trades() {
    let msg = BinanceWssMessage::batch_trades(&pair("BTCUSDT", "ETHUSDT"));
    assert_eq!(msg.method, "SUBSCRIBE");
    let params = msg.params.unwrap();
    assert_eq!(params[0], "btcusdt@trade");
    assert_eq!(params[1], "ethusdt@trade");
}

#[test]
fn test_wss_message_batch_candles() {
    let msg = BinanceWssMessage::batch_candles(&pair("BTCUSDT", "ETHUSDT"));
    assert_eq!(msg.method, "SUBSCRIBE");
    let params = msg.params.unwrap();
    assert_eq!(params[0], "btcusdt@kline_1m");
    assert_eq!(params[1], "ethusdt@kline_1m");
}

#[test]
fn ws_test_depth_subscribe() {
    let msg = BitgetWssMessage::depth("BTCUSDT");
    assert_eq!(msg.op, "subscribe");
    assert_eq!(msg.args[0].channel, "books");
    assert_eq!(msg.args[0].inst_id, "BTCUSDT");
    assert_eq!(msg.args[0].inst_type, "USDT-FUTURES");
}

#[test]
fn ws_test_trades_subscribe() {
    let msg = BitgetWssMessage::trades("BTCUSDT");
    assert_eq!(msg.op, "subscribe");
    assert_eq!(msg.args[0].channel, "trade");
    assert_eq!(msg.args[0].inst_id, "BTCUSDT");
}

#[test]
fn bybit_request_fields() {
    let ping = ByBitWssMessage::ping();
    assert_eq!(ping.op, "ping");
    assert_eq!(ping.req_id, "100001");
    let depth = ByBitWssMessage::depth("BTCUSDT");
    assert_eq!(depth.op, "subscribe");
    assert_eq!(depth.args.unwrap()[0], "orderbook.50.BTCUSDT");
    let trades = ByBitWssMessage::trades("BTCUSDT");
    assert_eq!(trades.op, "subscribe");
    assert_eq!(trades.args.unwrap()[0], "publicTrade.BTCUSDT");
}

#[test]
fn coinbase_depth_and_trades_subscribe() {
    let depth = CoinbaseWssMessage::depth("BTC-USD");
    assert_eq!(depth.msg_type, "subscribe");
    assert_eq!(depth.channel, "level2");
    assert_eq!(depth.product_ids[0], "BTC-USD");
    let trades = CoinbaseWssMessage::trades("BTC-USD");
    assert_eq!(trades.msg_type, "subscribe");
    assert_eq!(trades.channel, "market_trades");
    assert_eq!(trades.product_ids[0], "BTC-USD");
}

#[test]
fn test_deribit_wss_message_subscribe() {
    let msg = DeribitWssMessage::subscribe(&["BTC-PERPETUAL".to_string()], 1);
    assert_eq!(msg.method, "public/subscribe");
    match msg.params {
        Some(DeribitParams::Channels { channels }) => assert_eq!(channels[0], "BTC-PERPETUAL"),
        other => panic!("unexpected {:?}", other),
    }
    assert_eq!(msg.id, 1);
}

#[test]
fn test_deribit_wss_message_set_heartbeat() {
    let msg = DeribitWssMessage::set_heartbeat(30, 1);
    assert_eq!(msg.method, "public/set_heartbeat");
    match msg.params {
        Some(DeribitParams::Heartbeat { interval }) => assert_eq!(interval, 30),
        other => panic!("unexpected {:?}", other),
    }
}

#[test]
fn hyperliquid_ping_has_no_subscription() {
    let msg = HyperliquidWssMessage::ping();
    assert_eq!(msg.method, "ping");
    assert!(msg.subscription.is_none());
}

#[test]
fn test_wss_message_candle() {
    let coin = "ETH";
    let msg = HyperliquidWssMessage::candle(coin);
    assert_eq!(msg.method, "subscribe");
    let sub = msg.subscription.unwrap();
    assert_eq!(sub.typ, "candle");
    assert_eq!(sub.coin.unwrap(), coin);
    assert_eq!(sub.interval.unwrap(), "1m");
}

#[test]
fn test_wss_message_l2_book() {
    let coin = "BTC";
    let msg = HyperliquidWssMessage::l2_book(coin);
    assert_eq!(msg.method, "subscribe");
    let sub = msg.subscription.unwrap();
    assert_eq!(sub.typ, "l2Book");
    assert_eq!(sub.coin.unwrap(), coin);
    assert!(sub.interval.is_none());
}

#[test]
fn hyperliquid_trades_subscription() {
    let coin = "SOL";
    let msg = HyperliquidWssMessage::trades(coin);
    assert_eq!(msg.method, "subscribe");
    let sub = msg.subscription.unwrap();
    assert_eq!(sub.typ, "trades");
    assert_eq!(sub.coin.unwrap(), coin);
    assert!(sub.interval.is_none());
}

#[test]
fn kraken_request_fields() {
    assert_eq!(KrakenWssMessage::ping().event, "ping");
    let depth = KrakenWssMessage::depth("PI_XBTUSD");
    assert_eq!(depth.event, "subscribe");
    assert_eq!(depth.feed.unwrap(), "book");
    assert_eq!(depth.product_ids.unwrap()[0], "PI_XBTUSD");
    let trades = KrakenWssMessage::trades("PI_XBTUSD");
    assert_eq!(trades.event, "subscribe");
    assert_eq!(trades.feed.unwrap(), "trade");
    assert_eq!(trades.product_ids.unwrap()[0], "PI_XBTUSD");
}

#[test]
fn test_ping_serializes_correctly() {
    let msg = KuCoinWssMessage::ping();
    assert_eq!(msg.msg_type, "ping");
    assert_eq!(msg.id, "1");
    assert!(msg.topic.is_none());
}

#[test]
fn kucoin_depth_and_trades_subscribe() {
    let depth = KuCoinWssMessage::depth("XBTUSDTM");
    assert_eq!(depth.msg_type, "subscribe");
    assert_eq!(depth.topic.unwrap(), "/contractMarket/level2:XBTUSDTM");
    assert_eq!(depth.private_channel, Some(false));
    assert_eq!(depth.response, Some(true));
    let trades = KuCoinWssMessage::trades("XBTUSDTM");
    assert_eq!(trades.msg_type, "subscribe");
    assert_eq!(trades.topic.unwrap(), "/contractMarket/execution:XBTUSDTM");
}

#[test]
fn test_okx_wss_message_depth_subscribe() {
    let msg = OkxWssMessage::depth("BTC-USDT-SWAP");
    assert_eq!(msg.op, "subscribe");
    assert_eq!(msg.args[0].channel, "books");
    assert_eq!(msg.args[0].inst_id, "BTC-USDT-SWAP");
}

#[test]
fn test_okx_wss_message_depth_unsubscribe() {
    let msg = OkxWssMessage::depth_unsub("BTC-USDT-SWAP");
    assert_eq!(msg.op, "unsubscribe");
    assert_eq!(msg.args[0].channel, "books");
    assert_eq!(msg.args[0].inst_id, "BTC-USDT-SWAP");
}

#[test]
fn test_okx_wss_message_trades_subscribe() {
    let msg = OkxWssMessage::trades("BTC-USDT-SWAP");
    assert_eq!(msg.op, "subscribe");
    assert_eq!(msg.args[0].channel, "trades");
    assert_eq!(msg.args[0].inst_id, "BTC-USDT-SWAP");
}

fn okx_level(px: &str, sz: &str, orders: &str) -> [String; 4] {
    [px.to_string(), sz.to_string(), "0".to_string(), orders.to_string()]
}

#[test]
fn test_okx_depth_message_parsing() {
    let msg = OkxDepthMessage {
        arg: OkxWssArg { channel: "books".to_string(), inst_id: "BTC-USDT-SWAP".to_string() },
        action: "snapshot".to_string(),
        data: vec![OkxDepthBookData {
            asks: vec![okx_level("41006.8", "0.60038921", "1"), okx_level("41007.0", "0.5", "2")],
            bids: vec![okx_level("41006.3", "0.20572000", "1"), okx_level("41006.0", "1.0", "3")],
            ts: "1597026383085".to_string(),
        }],
    };
    assert_eq!(msg.inst_id(), "BTC-USDT-SWAP");
    assert!(msg.is_snapshot());
    assert_eq!(msg.data[0].asks.len(), 2);
    assert_eq!(msg.data[0].bids.len(), 2);
}

#[test]
fn test_calculate_tick_size() {
    // A tick of d decimals is 10^-d.
    // BTC, five size decimals: 0.1.
    assert_eq!(tick_decimals(5), 1);
    // ETH, four: 0.1.
    assert_eq!(tick_decimals(4), 1);
    // SOL, two: 0.0001.
    assert_eq!(tick_decimals(2), 4);
    // DOGE, none: 0.00001.
    assert_eq!(tick_decimals(0), 5);
}

#[test]
fn test_btc_price_dependent_tick_size() {
    // The price is given by its decimal magnitude; None is below one.
    // BTC at 50k and at 100k: 1.0.
    assert_eq!(tick_decimals_for_price(5, Some(4)), 0);
    assert_eq!(tick_decimals_for_price(5, Some(5)), 0);
    // ETH at 4306.8: 0.1; at 15k: 1.0.
    assert_eq!(tick_decimals_for_price(4, Some(3)), 1);
    assert_eq!(tick_decimals_for_price(4, Some(4)), 0);
    // DOGE at 0.21711: 0.0001.
    assert_eq!(tick_decimals_for_price(0, None), 4);
}

#[test]
fn test_create_manager() {
    let mgr = ExchangeSubscriptionManager::new("test".to_string(), WebsocketSupportedExchanges::Binance, Vec::new());
    assert_eq!(mgr.connection_name, "test");
}

#[test]
fn paradex_ping_is_a_heartbeat_subscribe() {
    let msg = roshar::paradex::ParadexWssMessage::ping();
    assert_eq!(msg.method, "subscribe");
    assert_eq!(msg.id, 1);
    assert_eq!(msg.jsonrpc, "2.0");
    assert_eq!(msg.params.channel, "heartbeat");
}

#[test]
fn bybit_trade_side_and_time() {
    let trade = roshar::bybit::ByBitTradesData {
        trade_time: 1_700_000_000_123,
        s: "BTCUSDT".to_string(),
        side: "Sell".to_string(),
        v: "0.5".to_string(),
        p: "50000".to_string(),
        tick_direction: None,
        i: "1".to_string(),
        is_block_trade: false,
        is_rpi_trade: None,
    };
    assert!(trade.is_sell());
    assert_eq!(trade.time_ms(), 1_700_000_000_123);
    let buy = roshar::bybit::ByBitTradesData { side: "Buy".to_string(), ..trade };
    assert!(!buy.is_sell());
}
