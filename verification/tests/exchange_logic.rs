use roshar::exchanges::binance::data::{
    after_failed_fetch, classify_snapshot_response, snapshot_url, BinanceErrorResponse,
    BinanceOrderBookSnapshot, FetchStep, SnapshotFetchError,
};
use roshar::exchanges::bybit::ws::{kline_topic_coin, remove_trailing_zeros};
use roshar::exchanges::bybit::{ByBitCandleData, ByBitCandleMessage};
use roshar::exchanges::hyperliquid::exchange::action_hash_input;
use roshar::exchanges::hyperliquid::info::{
    Asset, FundingFields, FundingHistory, InfoApi, MarketData, MetaAndAssetCtxs, OrderFields,
    Universe, UserOrder,
};
use roshar::orderbook::LocalOrderBookError;
use roshar::text::i64_to_decimal;
use roshar::ws_mgr::connection::ConnectionError;
use roshar::ws_mgr::ManagerError;

fn snapshot() -> BinanceOrderBookSnapshot {
    BinanceOrderBookSnapshot { last_update_id: 7, bids: vec![], asks: vec![] }
}

#[test]
fn snapshot_response_rate_limits_come_first() {
    match classify_snapshot_response(429, None, None, Ok(snapshot())) {
        Err(SnapshotFetchError::RetryAfter(120)) => {}
        other => panic!("unexpected {:?}", other),
    }
    match classify_snapshot_response(418, Some(30), None, Ok(snapshot())) {
        Err(SnapshotFetchError::RetryAfter(30)) => {}
        other => panic!("unexpected {:?}", other),
    }
}

#[test]
fn snapshot_response_error_bodies() {
    let limited = BinanceErrorResponse { code: -1003, msg: "Too many requests".to_string() };
    match classify_snapshot_response(200, None, Some(limited), Err("x".to_string())) {
        Err(SnapshotFetchError::RateLimit(m)) => assert_eq!(m, "Too many requests"),
        other => panic!("unexpected {:?}", other),
    }
    let other_error = BinanceErrorResponse { code: -1121, msg: "Invalid symbol.".to_string() };
    match classify_snapshot_response(400, None, Some(other_error), Err("x".to_string())) {
        Err(SnapshotFetchError::Api(code, m)) => {
            assert_eq!(code, -1121);
            assert_eq!(m, "Invalid symbol.");
        }
        other => panic!("unexpected {:?}", other),
    }
    match classify_snapshot_response(200, None, None, Ok(snapshot())) {
        Ok(s) => assert_eq!(s.last_update_id, 7),
        other => panic!("unexpected {:?}", other),
    }
    match classify_snapshot_response(200, None, None, Err("bad json".to_string())) {
        Err(SnapshotFetchError::Unreadable(m)) => assert_eq!(m, "bad json"),
        other => panic!("unexpected {:?}", other),
    }
}

#[test]
fn fetch_retries_with_doubling_waits_then_gives_up() {
    let failure = SnapshotFetchError::Unreadable("x".to_string());
    assert_eq!(after_failed_fetch(1, &failure), FetchStep::Retry(1));
    assert_eq!(after_failed_fetch(2, &failure), FetchStep::Retry(2));
    assert_eq!(after_failed_fetch(3, &failure), FetchStep::Retry(4));
    assert_eq!(after_failed_fetch(4, &failure), FetchStep::Retry(8));
    assert_eq!(after_failed_fetch(5, &failure), FetchStep::GiveUp);
    assert_eq!(after_failed_fetch(9, &SnapshotFetchError::RetryAfter(60)), FetchStep::Retry(60));
}

#[test]
fn trailing_zeros_are_removed_after_the_point() {
    assert_eq!(remove_trailing_zeros("50000.10"), "50000.1");
    assert_eq!(remove_trailing_zeros("50000.0"), "50000");
    assert_eq!(remove_trailing_zeros("50000"), "50000");
    assert_eq!(remove_trailing_zeros("0.000"), "0");
    assert_eq!(remove_trailing_zeros("100"), "100");
    assert_eq!(remove_trailing_zeros(""), "");
}

#[test]
fn kline_topic_names_the_coin() {
    assert_eq!(kline_topic_coin("kline.1.BTCUSDT"), "BTCUSDT");
    assert_eq!(kline_topic_coin("kline.1.BTC.X"), "BTC");
    assert_eq!(kline_topic_coin("kline.1."), "");
    assert_eq!(kline_topic_coin("kline.1"), "unknown");
}

#[test]
fn bybit_klines_become_candles() {
    let msg = ByBitCandleMessage {
        topic: "kline.1.ETHUSDT".to_string(),
        snapshot_type: "snapshot".to_string(),
        ts: 1,
        data: vec![ByBitCandleData {
            start_time: 1672324800000,
            end_time: 1672324859999,
            interval: "1".to_string(),
            open: "1".to_string(),
            high: "2".to_string(),
            low: "0.5".to_string(),
            close: "1.5".to_string(),
            volume: "10".to_string(),
            turnover: "15".to_string(),
            confirm: false,
            timestamp: 1672324859000,
        }],
    };
    let candles = msg.to_candles();
    assert_eq!(candles.len(), 1);
    assert_eq!(candles[0].coin, "ETHUSDT");
    assert_eq!(candles[0].exchange, "bybit");
    assert_eq!(candles[0].low, "0.5");
    assert_eq!(candles[0].time, 1672324800000);
    assert_eq!(candles[0].close_time, 1672324859999);
}

#[test]
fn connection_id_input_frames_action_nonce_and_vault() {
    let framed = action_hash_input(&[0xaa, 0xbb], 0x0102030405060708);
    assert_eq!(framed.len(), 2 + 8 + 20);
    assert_eq!(&framed[..10], &[0xaa, 0xbb, 1, 2, 3, 4, 5, 6, 7, 8]);
    assert!(framed[10..].iter().all(|b| *b == 0));
}

fn asset(name: &str) -> Asset {
    Asset { name: name.to_string(), sz_decimals: 3, max_leverage: 50, only_isolated: None }
}

fn market(funding: &str) -> MarketData {
    MarketData {
        day_notional_volume: None,
        funding: Some(funding.to_string()),
        impact_prices: None,
        mark_price: None,
        mid_price: None,
        open_interest: None,
        oracle_price: None,
        premium: None,
        prev_day_price: None,
    }
}

#[test]
fn assets_are_paired_with_market_data_by_position() {
    let meta = MetaAndAssetCtxs(
        Universe { universe: vec![asset("BTC"), asset("ETH"), asset("SOL")] },
        vec![market("0.0001"), market("0.0002")],
    );
    let infos = InfoApi::assets_from_meta(meta);
    assert_eq!(infos.len(), 2);
    assert_eq!(infos[0].asset.name, "BTC");
    assert_eq!(infos[0].market_data.funding.as_deref(), Some("0.0001"));
    assert_eq!(infos[1].asset.name, "ETH");
}

#[test]
fn funding_and_order_fields_take_defaults() {
    let f = FundingHistory::from_fields(FundingFields {
        asset: None,
        time: Some(5),
        funding_rate: None,
        payment: Some("1.5".to_string()),
        position_size: None,
    });
    assert_eq!(f.asset, "");
    assert_eq!(f.time, 5);
    assert_eq!(f.funding_rate, "0");
    assert_eq!(f.payment, "1.5");
    assert_eq!(f.position_size, "0");

    let o = UserOrder::from_fields(OrderFields {
        coin: Some("BTC".to_string()),
        side: Some("B".to_string()),
        limit_px: None,
        sz: Some("0.1".to_string()),
        oid: Some(77),
        timestamp: None,
    });
    assert_eq!(o.asset, "BTC");
    assert!(o.is_buy);
    assert_eq!(o.limit_px, "0");
    assert_eq!(o.oid, 77);
    assert_eq!(o.timestamp, 0);
    assert_eq!(o.order_type, "limit");
    assert!(!o.reduce_only);
    let sell = UserOrder::from_fields(OrderFields {
        coin: None,
        side: Some("A".to_string()),
        limit_px: None,
        sz: None,
        oid: None,
        timestamp: None,
    });
    assert!(!sell.is_buy);
}

#[test]
fn order_book_error_texts() {
    let e = LocalOrderBookError::OutOfOrderUpdate("kraken".to_string(), "PI_XBTUSD".to_string(), 1001, -3);
    assert_eq!(e.message(), "Out of order updates for kraken/PI_XBTUSD expecting 1001 but have -3");
    let e = LocalOrderBookError::WrongSymbol("BTCUSDT".to_string(), "ETHUSDT".to_string());
    assert_eq!(e.message(), "Wrong symbol: expected BTCUSDT but received message for ETHUSDT");
    let e = LocalOrderBookError::BidAboveAsk("2".to_string(), "1".to_string(), "bybit".to_string(), "X".to_string());
    assert_eq!(e.message(), "Bid Above Ask of 2/1 for bybit/X");
    assert_eq!(i64_to_decimal(i64::MIN), "-9223372036854775808");
    assert_eq!(i64_to_decimal(0), "0");
}

#[test]
fn manager_and_connection_error_texts() {
    assert_eq!(ManagerError::Unknown("binance-1".to_string()).message(), "Connection Unknown: \"binance-1\"");
    assert_eq!(ManagerError::Inactive("a\"b".to_string()).message(), "Connection Inactive: \"a\\\"b\"");
    assert_eq!(ConnectionError::ConnectionInactive.message(), "Called interactive function on inactive connection");
}

use roshar::exchanges::binance::market_data::BinanceRestClient;
use roshar::exchanges::hyperliquid::info::{SpotAsset, SpotMarketData, SpotMeta, SpotMetaAndAssetCtxs};

fn spot_market(coin: &str, mark: &str) -> SpotMarketData {
    SpotMarketData {
        day_notional_volume: "1".to_string(),
        mark_price: mark.to_string(),
        mid_price: None,
        prev_day_price: "1".to_string(),
        circulating_supply: "1".to_string(),
        coin: coin.to_string(),
        total_supply: "1".to_string(),
        day_base_volume: "1".to_string(),
        tokens: vec![],
    }
}

#[test]
fn spot_pairs_take_the_last_market_of_their_coin_and_their_tokens() {
    let meta = SpotMetaAndAssetCtxs(
        SpotMeta {
            tokens: vec![],
            universe: vec![
                SpotAsset { name: "PURR/USDC".to_string(), tokens: vec![1, 0], index: 0, is_canonical: true },
                SpotAsset { name: "@7".to_string(), tokens: vec![7, 0], index: 7, is_canonical: false },
            ],
        },
        vec![spot_market("PURR/USDC", "0.1"), spot_market("X", "9"), spot_market("PURR/USDC", "0.2")],
    );
    let markets = InfoApi::spot_markets_from_meta(&meta);
    assert_eq!(markets.len(), 1);
    assert_eq!(markets[0].0, "PURR/USDC");
    assert_eq!(markets[0].1.mark_price, "0.2");
    assert_eq!(markets[0].1.tokens, vec![1, 0]);
}

#[test]
fn rest_urls() {
    let c = BinanceRestClient::new();
    assert_eq!(c.exchange_info_url(), "https://fapi.binance.com/fapi/v1/exchangeInfo");
    assert_eq!(c.open_interest_url("BTCUSDT"), "https://fapi.binance.com/fapi/v1/openInterest?symbol=BTCUSDT");
    assert_eq!(c.ticker_url(None), "https://fapi.binance.com/fapi/v1/ticker/24hr");
    assert_eq!(c.ticker_url(Some("ETHUSDT")), "https://fapi.binance.com/fapi/v1/ticker/24hr?symbol=ETHUSDT");
    assert_eq!(InfoApi::production().info_url(), "https://api.hyperliquid.xyz/info");
}

use roshar::exchanges::hyperliquid::ticks::{tick_decimals, tick_decimals_for_price};

#[test]
fn tick_decimals_follow_size_decimals_and_price() {
    assert_eq!(tick_decimals(5), 1);
    assert_eq!(tick_decimals(4), 1);
    assert_eq!(tick_decimals(2), 4);
    assert_eq!(tick_decimals(0), 5);
    assert_eq!(tick_decimals(3), 3);
    // BTC at 50k: one significant-figure step of 1.
    assert_eq!(tick_decimals_for_price(5, Some(4)), 0);
    // ETH at 4306.8: 0.1.
    assert_eq!(tick_decimals_for_price(4, Some(3)), 1);
    // Below one: at most four decimals, or fewer by size.
    assert_eq!(tick_decimals_for_price(0, None), 4);
    assert_eq!(tick_decimals_for_price(5, None), 1);
}

use roshar::ws_mgr::connection::{read_message, IncomingFrame};
use roshar::ws_mgr::Message;

#[test]
fn ping_payloads_are_read_as_lossy_utf8() {
    match read_message(&"conn".to_string(), IncomingFrame::Ping(vec![0x68, 0x69, 0xff])) {
        Message::PingMessage(name, text) => {
            assert_eq!(name, "conn");
            assert_eq!(text, "hi\u{FFFD}");
        }
        other => panic!("unexpected {:?}", other),
    }
}

#[test]
fn snapshot_url_upper_cases_the_symbol() {
    assert_eq!(
        snapshot_url("btcusdt"),
        "https://fapi.binance.com/fapi/v1/depth?symbol=BTCUSDT&limit=1000"
    );
    assert_eq!(
        snapshot_url("EthUsdt"),
        "https://fapi.binance.com/fapi/v1/depth?symbol=ETHUSDT&limit=1000"
    );
}

use roshar::candle::{checked_time, MAX_CHRONO_MILLIS, MIN_CHRONO_MILLIS};

#[test]
fn candle_times_keep_exactly_the_dates_chrono_represents() {
    assert_eq!(checked_time(MAX_CHRONO_MILLIS), MAX_CHRONO_MILLIS);
    assert_eq!(checked_time(MAX_CHRONO_MILLIS + 1), 0);
    assert_eq!(checked_time(MIN_CHRONO_MILLIS), MIN_CHRONO_MILLIS);
    assert_eq!(checked_time(MIN_CHRONO_MILLIS - 1), 0);
    assert_eq!(checked_time(100_000_000_000_000_000), 0);
    assert_eq!(checked_time(947_638_923_004), 947_638_923_004);
}

use roshar::exchanges::hyperliquid::exchange::connection_id;
use sha3::{Digest, Keccak256};

#[test]
fn connection_id_is_the_keccak_digest_of_the_framed_action() {
    let id = connection_id(&[0xaa, 0xbb], 7);
    assert_eq!(id.len(), 32);
    let expected = Keccak256::digest(action_hash_input(&[0xaa, 0xbb], 7));
    assert_eq!(id, expected.to_vec());
    // The digest of the empty string, as Keccak-256 defines it.
    assert_eq!(
        Keccak256::digest([]).to_vec(),
        vec![
            0xc5, 0xd2, 0x46, 0x01, 0x86, 0xf7, 0x23, 0x3c, 0x92, 0x7e, 0x7d, 0xb2, 0xdc, 0xc7, 0x03, 0xc0,
            0xe5, 0x00, 0xb6, 0x53, 0xca, 0x82, 0x27, 0x3b, 0x7b, 0xfa, 0xd8, 0x04, 0x5d, 0x85, 0xa4, 0x70,
        ]
    );
}

use roshar::exchanges::hyperliquid::exchange::{agent_message, agent_message_hash, hex_encode};
use roshar::ws_mgr::config::{connect_target, ConnectTargetError};

#[test]
fn connect_target_reads_host_and_port() {
    let (host, port) = connect_target("wss://stream.binance.com:9443/ws").ok().unwrap();
    assert_eq!((host.as_str(), port), ("stream.binance.com", 9443));
    let (host, port) = connect_target("wss://ws.kraken.com").ok().unwrap();
    assert_eq!((host.as_str(), port), ("ws.kraken.com", 443));
    let (_, port) = connect_target("wss://ws.kraken.com:443/").ok().unwrap();
    assert_eq!(port, 443);
    let (host, port) = connect_target("ws://localhost/feed").ok().unwrap();
    assert_eq!((host.as_str(), port), ("localhost", 80));
    match connect_target("not a url") {
        Err(e @ ConnectTargetError::InvalidUrl(_)) => assert!(!e.message().is_empty()),
        other => panic!("unexpected {:?}", other),
    }
    match connect_target("data:text/plain,hi") {
        Err(e @ ConnectTargetError::NoHost) => assert_eq!(e.message(), "Invalid URL: no host"),
        other => panic!("unexpected {:?}", other),
    }
}

#[test]
fn agent_messages_name_the_network_and_the_id_in_hex() {
    assert_eq!(hex_encode(&[0x00, 0xab, 0x1f, 0xf0]), "00ab1ff0");
    assert_eq!(hex_encode(&[]), "");
    assert_eq!(agent_message("https://api.hyperliquid.xyz", &[0x00, 0xab, 0x1f]), "a:00ab1f");
    assert_eq!(agent_message("https://api.hyperliquid-testnet.xyz", &[0x01]), "b:01");
    let hash = agent_message_hash("https://api.hyperliquid.xyz", &[0x00, 0xab, 0x1f]);
    assert_eq!(hash, Keccak256::digest(b"a:00ab1f").to_vec());
}
