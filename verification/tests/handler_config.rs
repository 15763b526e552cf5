use roshar::ws_mgr::handlers::HandlerConfig;

#[test]
fn test_default_config() {
    let config = HandlerConfig::default();
    assert_eq!(config.channel_size, 32_768);
}

#[test]
fn test_new_config() {
    let config = HandlerConfig::new();
    assert_eq!(config.channel_size, 32_768);
}

#[test]
fn test_with_channel_size() {
    let config = HandlerConfig::new().with_channel_size(65_536);
    assert_eq!(config.channel_size, 65_536);
}
