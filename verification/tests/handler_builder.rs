use roshar::ws_mgr::handlers::config::HandlerConfig;
use roshar::ws_mgr::handlers::connection_handlers::ConnectionHandlers;

#[test]
fn test_builder_default() {
    let builder = ConnectionHandlers::new("test".to_string());
    assert!(!builder.enable_error_handling);
    assert!(builder.read_timeout_seconds.is_none());
    assert_eq!(builder.config.channel_size, 32_768);
}

#[test]
fn test_builder_with_config() {
    let config = HandlerConfig::new().with_channel_size(65_536);
    let builder = ConnectionHandlers::new("test".to_string()).with_config(config);
    assert_eq!(builder.config.channel_size, 65_536);
}

#[test]
fn test_builder_with_error_handling() {
    let builder = ConnectionHandlers::new("test".to_string()).with_error_handling();
    assert!(builder.enable_error_handling);
}

#[test]
fn test_builder_with_read_timeout() {
    let builder = ConnectionHandlers::new("test".to_string()).with_read_timeout(30);
    assert_eq!(builder.read_timeout_seconds, Some(30));
}

#[test]
fn test_builder_composition() {
    let config = HandlerConfig::new().with_channel_size(100_000);

    let builder = ConnectionHandlers::new("test".to_string())
        .with_config(config)
        .with_error_handling()
        .with_read_timeout(30);

    assert_eq!(builder.config.channel_size, 100_000);
    assert!(builder.enable_error_handling);
    assert_eq!(builder.read_timeout_seconds, Some(30));
}
