use open_tethyr::logging::{LogFormat, LogLevel, LoggingConfig};

#[test]
fn test_default_config() {
    let config = LoggingConfig::default();
    assert_eq!(config.level, LogLevel::Info);
    assert_eq!(config.format, LogFormat::Text);
    assert!(config.enable_colors);
    assert!(!config.include_location);
}

#[test]
fn test_builder_pattern() {
    let config = LoggingConfig::new()
        .with_level(LogLevel::Debug)
        .with_format(LogFormat::Json)
        .with_colors(false)
        .with_location(true);

    assert_eq!(config.level, LogLevel::Debug);
    assert_eq!(config.format, LogFormat::Json);
    assert!(!config.enable_colors);
    assert!(config.include_location);
}

#[test]
fn test_from_env_defaults() {
    let config = LoggingConfig::from_env_values(None, None, None, None);
    assert_eq!(config.level, LogLevel::Info);
    assert_eq!(config.format, LogFormat::Text);
}

#[test]
fn test_from_env_with_vars() {
    let config = LoggingConfig::from_env_values(
        None,
        Some("json".to_string()),
        Some("false".to_string()),
        Some("true".to_string()),
    );
    assert_eq!(config.format, LogFormat::Json);
    assert!(!config.enable_colors);
    assert!(config.include_location);
}

#[test]
fn logging_level_from_names_and_numbers() {
    let by_name = LoggingConfig::from_env_values(Some("DeBuG".to_string()), None, None, None);
    assert_eq!(by_name.level, LogLevel::Debug);
    let by_number = LoggingConfig::from_env_values(Some("1".to_string()), None, None, None);
    assert_eq!(by_number.level, LogLevel::Error);
    let five = LoggingConfig::from_env_values(Some("5".to_string()), None, None, None);
    assert_eq!(five.level, LogLevel::Trace);
    let unknown = LoggingConfig::from_env_values(Some("open_tethyr=debug".to_string()), None, None, None);
    assert_eq!(unknown.level, LogLevel::Info);
    let zero = LoggingConfig::from_env_values(Some("0".to_string()), None, None, None);
    assert_eq!(zero.level, LogLevel::Info);
}

#[test]
fn logging_flags_read_case_insensitively() {
    let config = LoggingConfig::from_env_values(
        None,
        Some("TEXT".to_string()),
        Some("TRUE".to_string()),
        Some("yes".to_string()),
    );
    assert_eq!(config.format, LogFormat::Text);
    assert!(config.enable_colors);
    assert!(!config.include_location);
    let odd = LoggingConfig::from_env_values(None, Some("xml".to_string()), None, None);
    assert_eq!(odd.format, LogFormat::Text);
}
