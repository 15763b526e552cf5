use roshar::candle::Candle;
use roshar::exchanges::binance::data::{
    BinanceCandleMessage, BinanceDepthDiffMessage, BinanceKlineData, BinanceOrderBook,
    BinanceOrderBookSnapshot, ReceivedSnapshot, SnapshotPoll, WssApi,
};
use roshar::exchanges::binance::Binance;
use roshar::exchanges::bybit::ws::{top_of_book, BybitBookStep, BybitOrderBook, TopOfBook};
use roshar::exchanges::bybit::{ByBitDepthBookData, ByBitDepthMessage, ByBitWssMessage};
use roshar::exchanges::hyperliquid::data::{
    HlOrderBook, HyperliquidBook, HyperliquidBookMessage, HyperliquidSubscriptionType,
    WssApi as HlWssApi,
};
use roshar::exchanges::hyperliquid::exchange::{validate_schedule_time, ScheduleCancel};
use roshar::exchanges::hyperliquid::info::InfoApi;
use roshar::exchanges::kraken::{KrakenBookSequence, KrakenOrderBook};
use roshar::exchanges::mex::{MexBookStep, MexDepth, MexDepthMessage, MexOrderBook};
use roshar::exchanges::{ExchangeFrame, WebsocketSupportedExchanges};
use roshar::orderbook::LocalOrderBookError;

fn create_test_snapshot() -> BinanceOrderBookSnapshot {
    BinanceOrderBookSnapshot {
        last_update_id: 1000,
        bids: vec![
            ["50000.0".to_string(), "1.0".to_string()],
            ["49999.0".to_string(), "2.0".to_string()],
        ],
        asks: vec![
            ["50001.0".to_string(), "1.5".to_string()],
            ["50002.0".to_string(), "2.5".to_string()],
        ],
    }
}

fn create_test_diff_message(
    symbol: &str,
    first_update_id: u64,
    final_update_id: u64,
    bids: Vec<[String; 2]>,
    asks: Vec<[String; 2]>,
    previous_final_update_id: u64,
) -> BinanceDepthDiffMessage {
    BinanceDepthDiffMessage {
        event_type: "depthUpdate".to_string(),
        event_time: 1234567890,
        symbol: symbol.to_string(),
        first_update_id,
        final_update_id,
        bids,
        asks,
        previous_final_update_id,
    }
}

fn kline(open_time: u64, close_time: u64) -> BinanceKlineData {
    BinanceKlineData {
        open_time,
        close_time,
        symbol: "BTCUSDT".to_string(),
        interval: "1m".to_string(),
        first_trade_id: Some(100),
        last_trade_id: Some(200),
        open: "50000.00".to_string(),
        close: "50100.00".to_string(),
        high: "50200.00".to_string(),
        low: "49900.00".to_string(),
        volume: "1000".to_string(),
        trades: 100,
        closed: true,
        quote_volume: "50050000.00".to_string(),
        taker_buy_volume: "500".to_string(),
        taker_buy_quote_volume: "25025000.00".to_string(),
        ignore: "123456".to_string(),
    }
}

/// A book for BTCUSDT built from the test snapshot: a first diff starts the
/// fetch, a second one arrives with the snapshot.
fn built_book() -> BinanceOrderBook {
    let mut book = BinanceOrderBook::new("BTCUSDT".to_string());
    let first = create_test_diff_message("BTCUSDT", 995, 999, vec![], vec![], 994);
    let actions = book
        .new_update_diff(first, true, SnapshotPoll::NotReady)
        .unwrap();
    assert!(actions.fetch_snapshot);
    let second = create_test_diff_message("BTCUSDT", 1000, 1001, vec![], vec![], 999);
    let received = ReceivedSnapshot { snapshot: create_test_snapshot(), levels_parse: true };
    let actions = book
        .new_update_diff(second, true, SnapshotPoll::Received(received))
        .unwrap();
    assert!(actions.build.is_some());
    book
}

#[test]
fn test_binance_candle_subscription() {
    let candle_msg = WssApi::candle("BTCUSDT");
    let expected = r#"{"id": 1, "method": "SUBSCRIBE", "params": ["btcusdt@kline_1m"]}"#;
    assert_eq!(candle_msg, expected);
}

#[test]
fn test_binance_candle_to_candle_conversion() {
    let binance_candle = BinanceCandleMessage {
        event_type: "kline".to_string(),
        event_time: 1640995200000,
        symbol: "BTCUSDT".to_string(),
        kline: kline(1640995200000, 1640995260000),
    };

    let candle: Candle = binance_candle.into();
    assert_eq!(candle.open, "50000.00");
    assert_eq!(candle.close, "50100.00");
    assert_eq!(candle.high, "50200.00");
    assert_eq!(candle.low, "49900.00");
    assert_eq!(candle.volume, "50050000.00");
    assert_eq!(candle.exchange, "binance");
    assert_eq!(candle.coin, "BTCUSDT");
}

#[test]
fn test_binance_candle_invalid_timestamps() {
    let invalid_candle = BinanceCandleMessage {
        event_type: "kline".to_string(),
        event_time: 1640995200000,
        symbol: "BTCUSDT".to_string(),
        kline: kline(u64::MAX, u64::MAX),
    };

    let candle: Candle = invalid_candle.into();

    assert_eq!(candle.exchange, "binance");
    assert_eq!(candle.coin, "BTCUSDT");
    assert_eq!(candle.open, "50000.00");
    assert_eq!(candle.time, -1);
    assert_eq!(candle.close_time, -1);
}

#[test]
fn candle_times_are_kept_in_milliseconds() {
    let msg = BinanceCandleMessage {
        event_type: "kline".to_string(),
        event_time: 1640995200000,
        symbol: "BTCUSDT".to_string(),
        kline: kline(1640995200000, 1640995260000),
    };
    let candle: Candle = msg.into();
    assert_eq!(candle.time, 1640995200000);
    assert_eq!(candle.close_time, 1640995260000);
}

#[test]
fn candle_time_out_of_date_range_becomes_epoch() {
    // 2^63 - 1 ms is far beyond the last representable year.
    let msg = BinanceCandleMessage {
        event_type: "kline".to_string(),
        event_time: 0,
        symbol: "BTCUSDT".to_string(),
        kline: kline(i64::MAX as u64, 1),
    };
    let candle: Candle = msg.into();
    assert_eq!(candle.time, 0);
    assert_eq!(candle.close_time, 1);
}

#[test]
fn binance_request_texts() {
    assert_eq!(WssApi::ping(), r#"{"id": 1, "method": "ping"}"#);
    assert_eq!(
        WssApi::depth("BTCUSDT"),
        r#"{"id": 1, "method": "SUBSCRIBE", "params": ["btcusdt@depth@100ms"]}"#
    );
    assert_eq!(
        WssApi::trades_unsub("ETHUSDT"),
        r#"{"id": 1, "method": "UNSUBSCRIBE", "params": ["ethusdt@trade"]}"#
    );
    let symbols = vec!["BTCUSDT".to_string(), "ETHUSDT".to_string()];
    assert_eq!(
        Binance::batch_depth(&symbols),
        r#"{"id": 1, "method": "SUBSCRIBE", "params": ["btcusdt@depth@100ms","ethusdt@depth@100ms"]}"#
    );
    assert_eq!(
        Binance::batch_trades(&[]),
        r#"{"id": 1, "method": "SUBSCRIBE", "params": []}"#
    );
}

#[test]
fn test_binance_order_book_wrong_symbol() {
    let mut order_book = built_book();
    assert!(order_book.has_book());
    assert_eq!(order_book.counter(), 1001);

    let eth_msg = create_test_diff_message(
        "ETHUSDT",
        1001,
        1001,
        vec![["3000.0".to_string(), "10.0".to_string()]],
        vec![],
        1000,
    );

    let result = order_book.new_update_diff(eth_msg, true, SnapshotPoll::NotReady);
    assert!(result.is_err());
    if let Err(LocalOrderBookError::WrongSymbol(expected, received)) = result {
        assert_eq!(expected, "BTCUSDT");
        assert_eq!(received, "ETHUSDT");
    } else {
        panic!("Expected WrongSymbol error");
    }
    assert_eq!(order_book.counter(), 1001);
    assert!(order_book.has_book());
}

#[test]
fn test_binance_order_book_reset() {
    let mut order_book = BinanceOrderBook::new("BTCUSDT".to_string());
    let test_msg = create_test_diff_message(
        "BTCUSDT",
        1001,
        1001,
        vec![["50000.0".to_string(), "1.0".to_string()]],
        vec![],
        1000,
    );
    order_book
        .new_update_diff(test_msg, true, SnapshotPoll::NotReady)
        .unwrap();
    assert!(order_book.snapshot_triggered());
    assert_eq!(order_book.buffered(), 1);

    let mut order_book = built_book();
    assert!(order_book.snapshot().is_some());
    assert!(order_book.snapshot_triggered());
    assert_eq!(order_book.counter(), 1001);
    assert!(order_book.has_book());

    order_book.reset();

    assert!(order_book.snapshot().is_none());
    assert!(!order_book.snapshot_triggered());
    assert_eq!(order_book.counter(), 0);
    assert!(!order_book.has_book());
    assert_eq!(order_book.buffered(), 0);
}

#[test]
fn binance_book_buffers_until_snapshot_and_builds_from_it() {
    let mut book = BinanceOrderBook::new("BTCUSDT".to_string());
    let a = create_test_diff_message("BTCUSDT", 990, 995, vec![], vec![], 989);
    let actions = book.new_update_diff(a, true, SnapshotPoll::NotReady).unwrap();
    assert!(actions.fetch_snapshot);
    assert!(actions.build.is_none());
    let b = create_test_diff_message("BTCUSDT", 996, 1002, vec![], vec![], 995);
    let actions = book.new_update_diff(b, true, SnapshotPoll::NotReady).unwrap();
    assert!(!actions.fetch_snapshot);
    assert_eq!(book.buffered(), 2);

    let c = create_test_diff_message("BTCUSDT", 1003, 1005, vec![], vec![], 1002);
    let received = ReceivedSnapshot { snapshot: create_test_snapshot(), levels_parse: true };
    let actions = book.new_update_diff(c, true, SnapshotPoll::Received(received)).unwrap();
    // The event ending at 995 is older than the snapshot and is dropped.
    let events = actions.build.unwrap();
    assert_eq!(events.len(), 1);
    assert_eq!(events[0].final_update_id, 1002);
    // The diff chains onto the built book (its previous id is the counter).
    let applied = actions.apply.unwrap();
    assert_eq!(applied.final_update_id, 1005);
    assert_eq!(book.counter(), 1005);
    assert_eq!(book.buffered(), 0);
}

#[test]
fn binance_book_gap_drops_everything_and_refetches() {
    let mut book = built_book();
    let gap = create_test_diff_message("BTCUSDT", 1100, 1105, vec![], vec![], 1099);
    let actions = book.new_update_diff(gap, true, SnapshotPoll::NotReady).unwrap();
    assert!(actions.discard);
    assert!(!book.has_book());
    assert_eq!(book.counter(), 0);
    assert!(book.snapshot().is_none());
    let next = create_test_diff_message("BTCUSDT", 1106, 1107, vec![], vec![], 1105);
    let actions = book.new_update_diff(next, true, SnapshotPoll::NotReady).unwrap();
    assert!(actions.fetch_snapshot);
}

#[test]
fn binance_book_unreadable_snapshot_is_refused() {
    let mut book = BinanceOrderBook::new("BTCUSDT".to_string());
    let a = create_test_diff_message("BTCUSDT", 999, 1001, vec![], vec![], 998);
    book.new_update_diff(a, true, SnapshotPoll::NotReady).unwrap();
    let b = create_test_diff_message("BTCUSDT", 1002, 1003, vec![], vec![], 1001);
    let received = ReceivedSnapshot { snapshot: create_test_snapshot(), levels_parse: false };
    match book.new_update_diff(b, true, SnapshotPoll::Received(received)) {
        Err(LocalOrderBookError::UnparseableInputs(exchange, coin)) => {
            assert_eq!(exchange, "binance");
            assert_eq!(coin, "BTCUSDT");
        }
        _ => panic!("Expected UnparseableInputs error"),
    }
    assert!(!book.has_book());
}

#[test]
fn binance_book_failed_fetch_starts_another() {
    let mut book = BinanceOrderBook::new("BTCUSDT".to_string());
    let a = create_test_diff_message("BTCUSDT", 1, 2, vec![], vec![], 0);
    assert!(book.new_update_diff(a, true, SnapshotPoll::NotReady).unwrap().fetch_snapshot);
    let b = create_test_diff_message("BTCUSDT", 3, 4, vec![], vec![], 2);
    assert!(book.new_update_diff(b, true, SnapshotPoll::Disconnected).unwrap().fetch_snapshot);
}

fn bybit_message(symbol: &str, kind: &str) -> ByBitDepthMessage {
    ByBitDepthMessage {
        topic: format!("orderbook.50.{symbol}"),
        snapshot_type: kind.to_string(),
        ts: 1234567890,
        data: ByBitDepthBookData {
            s: symbol.to_string(),
            b: vec![["50000.0".to_string(), "1.0".to_string()]],
            a: vec![["50001.0".to_string(), "1.5".to_string()]],
            u: 1000,
            seq: 12345,
        },
        cts: 1234567891,
    }
}

#[test]
fn test_bybit_depth_message_is_full_update() {
    let snapshot_msg = bybit_message("BTCUSDT", "snapshot");
    let delta_msg = bybit_message("BTCUSDT", "delta");

    assert!(snapshot_msg.is_full_update());
    assert!(!delta_msg.is_full_update());
}

#[test]
fn test_bybit_order_book_snapshot_processing() {
    let mut order_book = BybitOrderBook::new("BTCUSDT".to_string());
    let result = order_book.new_update(&bybit_message("BTCUSDT", "snapshot"));
    assert_eq!(result.unwrap(), BybitBookStep::Replace);
    assert!(order_book.book_built);
}

#[test]
fn test_bybit_order_book_delta_update_on_existing_book() {
    let mut order_book = BybitOrderBook::new("BTCUSDT".to_string());
    order_book.new_update(&bybit_message("BTCUSDT", "snapshot")).unwrap();
    let result = order_book.new_update(&bybit_message("BTCUSDT", "delta"));
    assert_eq!(result.unwrap(), BybitBookStep::ApplyDelta);
    assert!(order_book.check_top_of_book("BTCUSDT", "49999", "50001").is_ok());
    assert!(order_book.book_built);
}

#[test]
fn test_bybit_order_book_delta_update_before_snapshot_error() {
    let mut order_book = BybitOrderBook::new("BTCUSDT".to_string());
    let result = order_book.new_update(&bybit_message("BTCUSDT", "delta"));
    assert!(result.is_err());
    if let Err(LocalOrderBookError::BookUpdateBeforeSnapshot(exchange, coin)) = result {
        assert_eq!(exchange, "bybit");
        assert_eq!(coin, "BTCUSDT");
    } else {
        panic!("Expected BookUpdateBeforeSnapshot error");
    }
}

#[test]
fn test_bybit_order_book_wrong_symbol() {
    let mut order_book = BybitOrderBook::new("BTCUSDT".to_string());
    let result = order_book.new_update(&bybit_message("ETHUSDT", "snapshot"));
    assert!(result.is_err());
    if let Err(LocalOrderBookError::WrongSymbol(expected, received)) = result {
        assert_eq!(expected, "BTCUSDT");
        assert_eq!(received, "ETHUSDT");
    } else {
        panic!("Expected WrongSymbol error");
    }
}

#[test]
fn bybit_crossed_book_is_dropped() {
    let mut order_book = BybitOrderBook::new("BTCUSDT".to_string());
    order_book.new_update(&bybit_message("BTCUSDT", "snapshot")).unwrap();
    order_book.new_update(&bybit_message("BTCUSDT", "delta")).unwrap();
    let r = order_book.check_top_of_book("BTCUSDT", "50002", "50001");
    match r {
        Err(LocalOrderBookError::BidAboveAsk(bid, ask, exchange, coin)) => {
            assert_eq!(bid, "50002");
            assert_eq!(ask, "50001");
            assert_eq!(exchange, "bybit");
            assert_eq!(coin, "BTCUSDT");
        }
        _ => panic!("Expected BidAboveAsk error"),
    }
    assert!(!order_book.book_built);
    let r = order_book.check_top_of_book("BTCUSDT", "50002", "");
    assert!(matches!(r, Err(LocalOrderBookError::UnparseableInputs(_, _))));
}

#[test]
fn test_wss_message_ping() {
    let msg = ByBitWssMessage::ping();
    assert_eq!(msg.op, "ping");
    assert_eq!(msg.req_id, "100001");
}

#[test]
fn test_wss_message_depth() {
    let msg = ByBitWssMessage::depth("BTCUSDT");
    assert_eq!(msg.op, "subscribe");
    assert_eq!(msg.args.unwrap()[0], "orderbook.50.BTCUSDT");
}

#[test]
fn test_wss_message_trades() {
    let msg = ByBitWssMessage::trades("BTCUSDT");
    assert_eq!(msg.op, "subscribe");
    assert_eq!(msg.args.unwrap()[0], "publicTrade.BTCUSDT");
}

#[test]
fn test_hyperliquid_subscription_type_all_mids() {
    let subscription = HyperliquidSubscriptionType::all_mids();
    assert_eq!(subscription.typ, "allMids");
    assert!(subscription.coin.is_none());
    assert!(subscription.interval.is_none());
}

#[test]
fn test_hyperliquid_subscription_type_l2_book() {
    let coin = "BTC";
    let subscription = HyperliquidSubscriptionType::l2_book(coin);
    assert_eq!(subscription.typ, "l2Book");
    assert_eq!(subscription.coin, Some(coin.to_string()));
    assert!(subscription.interval.is_none());
}

#[test]
fn test_wss_api_ping() {
    let ping_msg = HlWssApi::ping();
    assert_eq!(ping_msg.method, "ping");
    assert!(ping_msg.subscription.is_none());
}

#[test]
fn test_wss_api_candle() {
    let coin = "ETH";
    let candle_msg = HlWssApi::candle(coin);
    assert_eq!(candle_msg.method, "subscribe");
    let sub = candle_msg.subscription.unwrap();
    assert_eq!(sub.typ, "candle");
    assert_eq!(sub.coin.unwrap(), coin);
    assert_eq!(sub.interval.unwrap(), "1m");
}

#[test]
fn test_wss_api_depth() {
    let coin = "BTC";
    let depth_msg = HlWssApi::depth(coin);
    assert_eq!(depth_msg.method, "subscribe");
    let sub = depth_msg.subscription.unwrap();
    assert_eq!(sub.typ, "l2Book");
    assert_eq!(sub.coin.unwrap(), coin);
    assert!(sub.interval.is_none());
}

#[test]
fn test_wss_api_trades() {
    let coin = "SOL";
    let trades_msg = HlWssApi::trades(coin);
    assert_eq!(trades_msg.method, "subscribe");
    let sub = trades_msg.subscription.unwrap();
    assert_eq!(sub.typ, "trades");
    assert_eq!(sub.coin.unwrap(), coin);
    assert!(sub.interval.is_none());
}

fn hl_book(coin: &str) -> HyperliquidBookMessage {
    HyperliquidBookMessage {
        channel: "l2Book".to_string(),
        data: HyperliquidBook { coin: coin.to_string(), levels: vec![vec![], vec![]], time: 1 },
    }
}

#[test]
fn test_hl_order_book_new() {
    let order_book = HlOrderBook::new("BTC".to_string());
    assert!(!order_book.book_built);
}

#[test]
fn test_hl_order_book_wrong_symbol() {
    let mut order_book = HlOrderBook::new("BTC".to_string());
    let result = order_book.new_message(&hl_book("ETH"));
    assert!(result.is_err());
    if let Err(LocalOrderBookError::WrongSymbol(expected, received)) = result {
        assert_eq!(expected, "BTC");
        assert_eq!(received, "ETH");
    } else {
        panic!("Expected WrongSymbol error");
    }
    assert!(order_book.new_message(&hl_book("BTC")).is_ok());
    assert!(order_book.book_built);
}

#[test]
fn test_schedule_cancel_timing_validation() {
    let now = std::time::SystemTime::now()
        .duration_since(std::time::UNIX_EPOCH)
        .unwrap()
        .as_millis() as u64;
    let invalid_time = now + 1000;
    let result = validate_schedule_time(invalid_time, now);
    assert!(result.is_err());
    if let Err(e) = result {
        assert!(e.contains("at least 5 seconds"));
    }
    let valid_time = now + 10000;
    assert!(validate_schedule_time(valid_time, now).is_ok());
}

#[test]
fn schedule_cancel_edge_is_five_seconds() {
    assert!(validate_schedule_time(15_000, 10_000).is_ok());
    assert!(validate_schedule_time(14_999, 10_000).is_err());
    assert!(validate_schedule_time(0, 10_000).is_err());
    let action = ScheduleCancel::at(42);
    assert_eq!(action.type_field, "scheduleCancel");
    assert_eq!(action.time, Some(42));
}

#[test]
fn info_api_endpoints() {
    assert_eq!(InfoApi::production().base_url(), "https://api.hyperliquid.xyz");
    assert_eq!(InfoApi::testnet().base_url(), "https://api.hyperliquid-testnet.xyz");
    assert_eq!(InfoApi::new(Some("http://x".to_string())).base_url(), "http://x");
}

fn kraken_seq(product_id: &str, seq: i64) -> KrakenBookSequence {
    KrakenBookSequence { product_id: product_id.to_string(), seq }
}

#[test]
fn test_kraken_order_book_snapshot_initialization() {
    let mut order_book = KrakenOrderBook::new("PI_XBTUSD".to_string());
    assert!(order_book.new_snapshot(&kraken_seq("PI_XBTUSD", 1000)));
    assert!(order_book.book_built);
    assert_eq!(order_book.counter, 1000);
}

#[test]
fn test_kraken_order_book_in_sequence_updates() {
    let mut order_book = KrakenOrderBook::new("PI_XBTUSD".to_string());
    order_book.new_snapshot(&kraken_seq("PI_XBTUSD", 1000));
    assert!(order_book.new_update(&kraken_seq("PI_XBTUSD", 1001)).is_ok());
    assert_eq!(order_book.counter, 1001);
    assert!(order_book.new_update(&kraken_seq("PI_XBTUSD", 1002)).is_ok());
    assert_eq!(order_book.counter, 1002);
}

#[test]
fn test_kraken_order_book_update_before_snapshot_error() {
    let mut order_book = KrakenOrderBook::new("PI_XBTUSD".to_string());
    let result = order_book.new_update(&kraken_seq("PI_XBTUSD", 1001));
    if let Err(LocalOrderBookError::BookUpdateBeforeSnapshot(exchange, coin)) = result {
        assert_eq!(exchange, "kraken");
        assert_eq!(coin, "PI_XBTUSD");
    } else {
        panic!("Expected BookUpdateBeforeSnapshot error");
    }
}

#[test]
fn test_kraken_order_book_wrong_symbol() {
    let mut order_book = KrakenOrderBook::new("PI_XBTUSD".to_string());
    order_book.new_snapshot(&kraken_seq("PI_XBTUSD", 1000));
    let result = order_book.new_update(&kraken_seq("PI_ETHUSD", 1001));
    if let Err(LocalOrderBookError::WrongSymbol(expected, received)) = result {
        assert_eq!(expected, "PI_XBTUSD");
        assert_eq!(received, "PI_ETHUSD");
    } else {
        panic!("Expected WrongSymbol error");
    }
    assert!(!order_book.new_snapshot(&kraken_seq("PI_ETHUSD", 5)));
    assert_eq!(order_book.counter, 1000);
}

#[test]
fn kraken_gap_is_refused_with_expected_and_received() {
    let mut order_book = KrakenOrderBook::new("PI_XBTUSD".to_string());
    order_book.new_snapshot(&kraken_seq("PI_XBTUSD", 1000));
    match order_book.new_update(&kraken_seq("PI_XBTUSD", 1003)) {
        Err(LocalOrderBookError::OutOfOrderUpdate(exchange, coin, expected, got)) => {
            assert_eq!(exchange, "kraken");
            assert_eq!(coin, "PI_XBTUSD");
            assert_eq!(expected, 1001);
            assert_eq!(got, 1003);
        }
        _ => panic!("Expected OutOfOrderUpdate error"),
    }
    assert_eq!(order_book.counter, 1000);
}

fn mex_depth(channel: &str, symbol: &str) -> MexDepthMessage {
    MexDepthMessage {
        c: channel.to_string(),
        d: MexDepth { asks: vec![], bids: vec![], e: "e".to_string(), r: "1".to_string() },
        s: symbol.to_string(),
        t: 1,
    }
}

#[test]
fn mex_books_follow_full_and_incremental_depth() {
    let mut books = MexOrderBook::new();
    let delta = mex_depth("spot@public.increase.depth.v3.api@BTCUSDT", "BTCUSDT");
    match books.new_message(&delta) {
        Err(LocalOrderBookError::BookUpdateBeforeSnapshot(exchange, coin)) => {
            assert_eq!(exchange, "mex");
            assert_eq!(coin, "BTCUSDT");
        }
        _ => panic!("Expected BookUpdateBeforeSnapshot error"),
    }
    let full = mex_depth("spot@public.limit.depth.v3.api@BTCUSDT@20", "BTCUSDT");
    assert!(full.is_full_update());
    assert_eq!(books.new_message(&full).unwrap(), MexBookStep::Replace);
    assert!(books.has_book("BTCUSDT"));
    assert!(!books.has_book("ETHUSDT"));
    assert_eq!(books.new_message(&delta).unwrap(), MexBookStep::ApplyDelta);
    assert!(delta.is_partial());
}

#[test]
fn exchange_frames_and_defaults() {
    let ex = WebsocketSupportedExchanges::Binance;
    match ex.depth("BTCUSDT") {
        ExchangeFrame::Text(t) => assert_eq!(
            t,
            r#"{"id": 1, "method": "SUBSCRIBE", "params": ["btcusdt@depth@100ms"]}"#
        ),
        _ => panic!("Binance frames are text"),
    }
    assert!(WebsocketSupportedExchanges::Mexc.candle("BTCUSDT").is_none());
    assert!(WebsocketSupportedExchanges::ByBit.candle("BTCUSDT").is_some());
    assert_eq!(WebsocketSupportedExchanges::KrakenSpot.websocket_url(), "wss://ws.kraken.com/v2");
    assert_eq!(WebsocketSupportedExchanges::ByBitSpot.default_ping_interval(), 20);
    assert_eq!(WebsocketSupportedExchanges::Mexc.default_ping_timeout(), 15);
    assert_eq!(WebsocketSupportedExchanges::KrakenSpot.default_reconnect_timeout(), 10000);
    assert_eq!(WebsocketSupportedExchanges::Mexc.default_reconnect_timeout(), 5000);
}

#[test]
fn bybit_top_of_book_compares_decimal_values() {
    match top_of_book("50001.0", "50000.5") {
        TopOfBook::Crossed(bid, ask) => {
            assert_eq!(bid, "50001.0");
            assert_eq!(ask, "50000.5");
        }
        other => panic!("unexpected {:?}", other),
    }
    assert!(matches!(top_of_book("50000", "50000.00"), TopOfBook::Ordered));
    assert!(matches!(top_of_book("0.0001", "0.001"), TopOfBook::Ordered));
    assert!(matches!(top_of_book("-1", "-2"), TopOfBook::Crossed(_, _)));
    assert!(matches!(top_of_book("12345678901234567890.5", "12345678901234567890.49"), TopOfBook::Crossed(_, _)));
    assert!(matches!(top_of_book("", "1"), TopOfBook::BidUnreadable));
    assert!(matches!(top_of_book("1", "abc"), TopOfBook::AskUnreadable));
}
