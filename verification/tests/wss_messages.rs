use roshar::bitget::BitgetWssMessage;
use roshar::bybit::{ByBitDepthBookData, ByBitDepthMessage};
use roshar::hyperliquid::HyperliquidWssMessage;
use roshar::okx::OkxWssMessage;

#[test]
fn test_ping_is_text() {
    assert_eq!(BitgetWssMessage::ping(), "ping");
}

#[test]
fn test_okx_wss_message_ping() {
    assert_eq!(OkxWssMessage::ping(), "ping");
}

#[test]
fn test_wss_message_all_mids() {
    let msg = HyperliquidWssMessage::all_mids();
    assert_eq!(msg.method, "subscribe");
    let sub = msg.subscription.unwrap();
    assert_eq!(sub.typ, "allMids");
    assert!(sub.coin.is_none());
    assert!(sub.interval.is_none());
}

#[test]
fn ws_test_bybit_depth_message_is_full_update() {
    let snapshot_msg = ByBitDepthMessage {
        topic: "orderbook.50.BTCUSDT".to_string(),
        snapshot_type: "snapshot".to_string(),
        ts: 1234567890,
        data: ByBitDepthBookData {
            s: "BTCUSDT".to_string(),
            b: vec![
                ["50000.0".to_string(), "1.0".to_string()],
                ["49999.0".to_string(), "2.0".to_string()],
            ],
            a: vec![
                ["50001.0".to_string(), "1.5".to_string()],
                ["50002.0".to_string(), "2.5".to_string()],
            ],
            u: 1000,
            seq: 12345,
        },
        cts: 1234567891,
    };

    let delta_msg = ByBitDepthMessage {
        topic: "orderbook.50.BTCUSDT".to_string(),
        snapshot_type: "delta".to_string(),
        ts: 1234567892,
        data: ByBitDepthBookData {
            s: "BTCUSDT".to_string(),
            b: vec![["49998.0".to_string(), "3.0".to_string()]],
            a: vec![["50003.0".to_string(), "4.0".to_string()]],
            u: 1001,
            seq: 12346,
        },
        cts: 1234567893,
    };

    assert!(snapshot_msg.is_full_update());
    assert!(!delta_msg.is_full_update());
}
