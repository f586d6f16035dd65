use huginn::analyzer::AnalyzerConfig;
use huginn::config::CollectorConfig;
use huginn::error::{ApiError, CollectorError, HuginnError};

#[test]
fn test_collector_config_default() {
    let config = CollectorConfig::default();
    assert!(!config.interface.is_empty());
    assert!(config.buffer_size > 0);
    assert!(config.channel_buffer_size > 0);
}

#[test]
fn test_collector_config_new() {
    let config = CollectorConfig::new("eth0".to_string());
    assert_eq!(config.interface, "eth0");
    assert!(config.buffer_size > 0);
    assert!(config.channel_buffer_size > 0);
}

#[test]
fn test_collector_error_creation() {
    let error = CollectorError::collection("test error".to_string());
    assert!(error.message().contains("test error"));
}

#[test]
fn test_collector_error_config() {
    let error = CollectorError::configuration("config failed".to_string());
    assert!(error.message().contains("config failed"));
}

#[test]
fn test_collector_config_validation() {
    let config = CollectorConfig::default();
    assert!(config.validate().is_ok());

    let invalid_config = CollectorConfig::new("".to_string());
    assert!(invalid_config.validate().is_err());
}

#[test]
fn test_collector_config_builder() {
    let config = CollectorConfig::new("wlan0".to_string())
        .with_buffer_size(200)
        .with_channel_buffer_size(2000)
        .with_verbose(true);

    assert_eq!(config.interface, "wlan0");
    assert_eq!(config.buffer_size, 200);
    assert_eq!(config.channel_buffer_size, 2000);
    assert!(config.verbose);
}

#[test]
fn test_validation_messages_exact() {
    let empty_iface = CollectorConfig::new("".to_string());
    assert_eq!(empty_iface.validate().unwrap_err(), "Interface cannot be empty");

    let zero_buffer = CollectorConfig::new("eth0".to_string()).with_buffer_size(0);
    assert_eq!(zero_buffer.validate().unwrap_err(), "Buffer size must be greater than 0");

    let zero_channel = CollectorConfig::new("eth0".to_string()).with_channel_buffer_size(0);
    assert_eq!(
        zero_channel.validate().unwrap_err(),
        "Channel buffer size must be greater than 0"
    );

    let mut bad_quality = CollectorConfig::new("eth0".to_string());
    bad_quality.analyzer.min_quality = 101;
    assert_eq!(
        bad_quality.validate().unwrap_err(),
        "Minimum quality must be between 0.0 and 1.0"
    );
}

#[test]
fn test_huginn_error_creation() {
    let error = HuginnError::invalid_data("test error".to_string());
    assert!(error.message().contains("test error"));
}

#[test]
fn test_huginn_error_messages() {
    assert_eq!(
        HuginnError::network_analysis("x".to_string()).message(),
        "Network analysis error: x"
    );
    assert_eq!(HuginnError::invalid_data("y".to_string()).message(), "Invalid traffic data: y");
    assert_eq!(HuginnError::configuration("z".to_string()).message(), "Configuration error: z");
    assert_eq!(HuginnError::Io("io".to_string()).message(), "IO error: io");
    assert_eq!(
        HuginnError::Serialization("s".to_string()).message(),
        "Serialization error: s"
    );
    assert_eq!(HuginnError::Unknown("u".to_string()).message(), "Unknown error: u");
}

#[test]
fn test_collector_error_messages() {
    assert_eq!(
        CollectorError::channel("broken".to_string()).message(),
        "Channel error: broken"
    );
    assert_eq!(
        CollectorError::Core(HuginnError::invalid_data("bad".to_string())).message(),
        "Huginn core error: Invalid traffic data: bad"
    );
    assert_eq!(CollectorError::Join("gone".to_string()).message(), "Join error: gone");
    assert_eq!(CollectorError::Io("io".to_string()).message(), "IO error: io");
    assert_eq!(CollectorError::Unknown("u".to_string()).message(), "Unknown error: u");
}

#[test]
fn test_api_error_creation() {
    let error = ApiError::internal("test error".to_string());
    assert!(error.message().contains("test error"));
}

#[test]
fn test_api_error_configuration() {
    let error = ApiError::configuration("config error".to_string());
    assert!(error.message().contains("config error"));
}

#[test]
fn test_api_error_status_codes() {
    assert_eq!(ApiError::not_found("p".to_string()).status_code(), 404);
    assert_eq!(ApiError::bad_request("b".to_string()).status_code(), 400);
    assert_eq!(ApiError::configuration("c".to_string()).status_code(), 400);
    assert_eq!(ApiError::Serialization("s".to_string()).status_code(), 400);
    assert_eq!(ApiError::internal("i".to_string()).status_code(), 500);
    assert_eq!(ApiError::Io("io".to_string()).status_code(), 500);
    assert_eq!(
        ApiError::Collection(CollectorError::channel("x".to_string())).status_code(),
        500
    );
    assert_eq!(
        ApiError::Core(HuginnError::Unknown("x".to_string())).status_code(),
        500
    );
}

#[test]
fn test_analyzer_config_default() {
    let config = AnalyzerConfig::default();
    assert!(config.enable_tcp);
    assert!(config.enable_http);
    assert!(config.enable_tls);
    assert_eq!(config.min_quality, 0);
}
