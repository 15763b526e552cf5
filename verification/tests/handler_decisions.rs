use roshar::websocket_supported_exchanges::WebsocketSupportedExchanges;
use roshar::ws_mgr::handlers::connection_event_handler::ConnectionEventHandler;
use roshar::ws_mgr::handlers::exchange_subscription_manager::ExchangeSubscriptionManager;
use roshar::ws_mgr::handlers::read_timeout_handler::ReadTimeoutHandler;
use roshar::ws_mgr::manager::ConnectionRegistry;
use roshar::ws_mgr::{Config, ManagerError, Message};

const MILLI: u128 = 1_000_000;
const SECOND: u128 = 1_000_000_000;

fn create_test_handler() -> ConnectionEventHandler {
    ConnectionEventHandler::new("test".to_string())
}

#[test]
fn test_on_message_handles_read_error() {
    let handler = create_test_handler();
    let msg = Message::ReadError("test".to_string(), "error".to_string());
    let request = handler.on_message(&msg).unwrap();
    assert_eq!(request.connection, "test");
    assert!(request.send_close);
}

#[test]
fn test_on_message_handles_write_error() {
    let handler = create_test_handler();
    let msg = Message::WriteError("test".to_string(), "error".to_string());
    let request = handler.on_message(&msg).unwrap();
    assert_eq!(request.connection, "test");
    assert!(request.send_close);
}

#[test]
fn test_on_message_handles_close_message() {
    let handler = create_test_handler();
    let msg = Message::CloseMessage("test".to_string(), Some("close".to_string()));
    let request = handler.on_message(&msg).unwrap();
    assert_eq!(request.connection, "test");
    assert!(request.send_close);
}

#[test]
fn test_on_message_handles_pong_timeout() {
    let handler = create_test_handler();
    let msg = Message::PongReceiveTimeoutError("test".to_string());
    let request = handler.on_message(&msg).unwrap();
    assert_eq!(request.connection, "test");
    assert!(request.send_close);
}

#[test]
fn test_on_message_ignores_other_messages() {
    let handler = create_test_handler();
    let msg = Message::SuccessfulHandshake("test".to_string());
    assert!(handler.on_message(&msg).is_none());
}

#[test]
fn test_on_message_resets_timer() {
    let start: u128 = 5 * SECOND;
    let mut handler = ReadTimeoutHandler::new("test".to_string(), 30, start);
    let now = start + 100 * MILLI;
    let elapsed_before = handler.elapsed_since_last_message(now);
    assert!(elapsed_before >= 100 * MILLI);
    handler.on_message(now);
    let elapsed_after = handler.elapsed_since_last_message(now);
    assert!(elapsed_after < elapsed_before);
    assert!(elapsed_after < 50 * MILLI);
}

#[test]
fn test_on_message_resets_on_any_message_type() {
    let start: u128 = SECOND;
    let mut handler = ReadTimeoutHandler::new("test".to_string(), 30, start);
    let mut now = start + 50 * MILLI;
    // Every kind of message read counts: the handler is told of each one.
    for _ in 0..4 {
        handler.on_message(now);
        assert!(handler.elapsed_since_last_message(now) < 50 * MILLI);
        now += 50 * MILLI;
    }
}

#[test]
fn test_timeout_detection() {
    let start: u128 = SECOND;
    let handler = ReadTimeoutHandler::with_check_interval("test".to_string(), 1, 1, start);
    assert!(!handler.is_timed_out(start + SECOND));
    assert!(handler.is_timed_out(start + 2500 * MILLI));
}

#[test]
fn test_timer_reset_prevents_timeout() {
    let start: u128 = SECOND;
    let mut handler = ReadTimeoutHandler::with_check_interval("test".to_string(), 2, 1, start);
    let mut now = start;
    for _ in 0..5 {
        now += 500 * MILLI;
        assert!(!handler.is_timed_out(now));
        handler.on_message(now);
    }
    assert!(handler.elapsed_since_last_message(now) < 100 * MILLI);
    assert!(!handler.is_timed_out(now + 2 * SECOND));
    assert!(handler.is_timed_out(now + 2 * SECOND + 1));
}

#[test]
fn test_handles_successful_handshake() {
    let mgr = ExchangeSubscriptionManager::new("test".to_string(), WebsocketSupportedExchanges::Binance, Vec::new());
    assert!(mgr.on_message(&Message::SuccessfulHandshake("test".to_string())));
    // With no channels configured there is nothing to send.
    assert!(mgr.subscription_frames().is_empty());
}

#[test]
fn test_ignores_other_messages() {
    let mgr = ExchangeSubscriptionManager::new("test".to_string(), WebsocketSupportedExchanges::Binance, Vec::new());
    assert!(!mgr.on_message(&Message::SuccessfulHandshake("other".to_string())));
    assert!(!mgr.on_message(&Message::PongMessage("test".to_string(), "pong".to_string())));
}

fn create_test_config(name: &str, url: &str) -> Config {
    Config {
        name: name.to_string(),
        ping_duration: 10,
        ping_message: "ping".to_string(),
        ping_timeout: 15,
        url: url.to_string(),
        reconnect_timeout: 10,
        use_text_ping: None,
        read_buffer_size: None,
        write_buffer_size: None,
        max_message_size: None,
        max_frame_size: None,
        tcp_recv_buffer_size: None,
        tcp_send_buffer_size: None,
        tcp_nodelay: None,
        broadcast_channel_size: None,
    }
}

#[test]
fn manager_creates_connections() {
    let mut registry: ConnectionRegistry<u32, u32> = ConnectionRegistry::new();
    let config = create_test_config("test", "wss://echo.websocket.org");
    assert!(registry.setup_reader("test", 7));
    assert_eq!(registry.new_conn(&config).ok(), Some(&7));
    registry.insert_connection("test".to_string(), config, 1);
    let closed = registry.close_conn("test", true).ok().unwrap();
    assert_eq!(closed.writer, Some(1));
    assert!(closed.send_close);
}

#[test]
fn manager_handles_write_to_nonexistent_connection() {
    let registry: ConnectionRegistry<u32, u32> = ConnectionRegistry::new();
    match registry.write("nonexistent") {
        Err(ManagerError::Unknown(name)) => assert_eq!(name, "nonexistent"),
        other => panic!("unexpected {:?}", other.ok()),
    }
}

#[test]
fn manager_close_conn_works() {
    let mut registry: ConnectionRegistry<u32, u32> = ConnectionRegistry::new();
    assert!(registry.close_conn("nonexistent", true).is_err());
}

#[test]
fn config_creation_works() {
    let config = create_test_config("test", "wss://example.com");
    assert_eq!(config.name, "test");
    assert_eq!(config.url, "wss://example.com");
    assert_eq!(config.ping_duration, 10);
    assert_eq!(config.ping_timeout, 15);
    assert_eq!(config.reconnect_timeout, 10);
}

#[test]
fn message_variants_work() {
    let msg1 = Message::TextMessage("test".to_string(), "hello".to_string());
    let msg2 = Message::ReadError("test".to_string(), "error_string".to_string());
    let msg3 = Message::WriteError("test".to_string(), "error_string".to_string());
    let msg4 = Message::PongReceiveTimeoutError("test".to_string());
    match msg1 {
        Message::TextMessage(name, _) => assert_eq!(name, "test"),
        _ => panic!("Expected TextMessage variant"),
    }
    match msg2 {
        Message::ReadError(name, _) => assert_eq!(name, "test"),
        _ => panic!("Expected ReadError variant"),
    }
    match msg3 {
        Message::WriteError(name, _) => assert_eq!(name, "test"),
        _ => panic!("Expected WriteError variant"),
    }
    match msg4 {
        Message::PongReceiveTimeoutError(name) => assert_eq!(name, "test"),
        _ => panic!("Expected PongReceiveTimeoutError variant"),
    }
}

#[test]
fn manager_reconnect_nonexistent_connection() {
    let mut registry: ConnectionRegistry<u32, u32> = ConnectionRegistry::new();
    match registry.close_conn("nonexistent", false) {
        Err(e) => assert!(e.message().contains("Connection Unknown")),
        Ok(_) => panic!("closing an unknown connection succeeded"),
    }
}

use roshar::ws_mgr::handlers::connection_handlers::{ConnectionHandlers, Dispatcher, HandlerAction, LiveHandler};
use roshar::ws_mgr::manager::{ConnectAction, ConnectLoop};

#[test]
fn starting_handlers_sets_up_the_reader_once() {
    let settings = ConnectionHandlers::new("binance".to_string()).with_error_handling().with_read_timeout(30);
    let mut registry: ConnectionRegistry<u32, u32> = ConnectionRegistry::new();
    let kinds = settings.start(&mut registry, 5);
    assert_eq!(kinds.len(), 2);
    assert_eq!(registry.channel("binance"), Some(&5));
    let again = settings.start(&mut registry, 9);
    assert_eq!(again.len(), 2);
    assert_eq!(registry.channel("binance"), Some(&5));
}

#[test]
fn dispatcher_feeds_every_handler_in_order() {
    let settings = ConnectionHandlers::new("binance".to_string())
        .with_error_handling()
        .with_exchange_subscription(
            WebsocketSupportedExchanges::Binance,
            vec![("depth".to_string(), vec!["BTCUSDT".to_string()])],
        )
        .with_read_timeout(2);
    let mut dispatcher = Dispatcher::new("binance".to_string(), settings.handler_kinds(), 0);
    assert_eq!(dispatcher.handlers.len(), 3);

    let asked = dispatcher.on_message(&Message::SuccessfulHandshake("binance".to_string()), SECOND);
    assert!(asked[0].is_none());
    match &asked[1] {
        Some(HandlerAction::Write(name, frames)) => {
            assert_eq!(name, "binance");
            assert_eq!(frames.len(), 1);
        }
        other => panic!("unexpected {:?}", other),
    }
    assert!(asked[2].is_none());

    let asked = dispatcher.on_message(&Message::ReadError("binance".to_string(), "boom".to_string()), 2 * SECOND);
    match &asked[0] {
        Some(HandlerAction::Reconnect(request)) => {
            assert_eq!(request.connection, "binance");
            assert!(request.send_close);
        }
        other => panic!("unexpected {:?}", other),
    }
    assert!(asked[1].is_none() && asked[2].is_none());

    // The last message was read at 2 s: no timeout at 4 s, one after.
    assert!(dispatcher.on_check(4 * SECOND).iter().all(|a| a.is_none()));
    let asked = dispatcher.on_check(4 * SECOND + 1);
    assert!(matches!(&asked[2], Some(HandlerAction::Reconnect(r)) if r.connection == "binance" && r.send_close));
    dispatcher.reconnect_done(2, 5 * SECOND);
    match &dispatcher.handlers[2] {
        LiveHandler::ReadTimeout(t) => assert_eq!(t.last_message_time, 5 * SECOND),
        other => panic!("unexpected {:?}", other),
    }
}

#[test]
fn connect_loop_publishes_starting_failures_and_handshake() {
    let (mut attempts, first) = ConnectLoop::start("kraken".to_string());
    assert!(matches!(first, Message::ConnectionStarting(ref n) if n == "kraken"));
    let mut waits = Vec::new();
    for expected in 0..8 {
        match attempts.on_attempt(false) {
            ConnectAction::Retry(Message::FailedHandshake(n, i), wait) => {
                assert_eq!(n, "kraken");
                assert_eq!(i, expected);
                waits.push(wait);
            }
            other => panic!("unexpected {:?}", other),
        }
    }
    assert_eq!(waits, vec![1, 2, 4, 8, 16, 32, 60, 60]);
    match attempts.on_attempt(true) {
        ConnectAction::Established(Message::SuccessfulHandshake(n)) => assert_eq!(n, "kraken"),
        other => panic!("unexpected {:?}", other),
    }
    assert!(attempts.established);
}

use roshar::ws_mgr::handlers::exchange_subscription_manager::has_distinct_kinds;

#[test]
fn channel_kinds_must_be_distinct() {
    let depth = ("depth".to_string(), vec!["BTCUSDT".to_string()]);
    let trades = ("trades".to_string(), vec!["ETHUSDT".to_string()]);
    assert!(has_distinct_kinds(&vec![]));
    assert!(has_distinct_kinds(&vec![depth.clone(), trades.clone()]));
    assert!(!has_distinct_kinds(&vec![depth.clone(), trades, depth]));
}
