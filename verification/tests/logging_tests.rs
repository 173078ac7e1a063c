use slide_extractor::logging::{LogLevel, LoggingConfig, SessionContext};

#[test]
fn test_log_level_from_str() {
    assert_eq!(LogLevel::from_str("error").ok(), Some(LogLevel::Error));
    assert_eq!(LogLevel::from_str("warn").ok(), Some(LogLevel::Warn));
    assert_eq!(LogLevel::from_str("info").ok(), Some(LogLevel::Info));
    assert_eq!(LogLevel::from_str("debug").ok(), Some(LogLevel::Debug));
    assert_eq!(LogLevel::from_str("trace").ok(), Some(LogLevel::Trace));
    assert!(LogLevel::from_str("invalid").is_err());
}

#[test]
fn test_log_level_case_insensitive() {
    assert_eq!(LogLevel::from_str("ERROR").ok(), Some(LogLevel::Error));
    assert_eq!(LogLevel::from_str("Error").ok(), Some(LogLevel::Error));
    assert_eq!(LogLevel::from_str("INFO").ok(), Some(LogLevel::Info));
}

#[test]
fn test_log_level_display() {
    assert_eq!(LogLevel::Error.as_str(), "error");
    assert_eq!(LogLevel::Warn.as_str(), "warn");
    assert_eq!(LogLevel::Info.as_str(), "info");
    assert_eq!(LogLevel::Debug.as_str(), "debug");
    assert_eq!(LogLevel::Trace.as_str(), "trace");
}

#[test]
fn test_logging_config_defaults() {
    let config = LoggingConfig::new();
    assert_eq!(config.console_level, LogLevel::Info);
    assert_eq!(config.file_level, LogLevel::Debug);
    assert_eq!(config.max_file_size_mb, 10);
    assert_eq!(config.max_files, 5);
    assert!(config.include_system_info);
}

#[test]
fn test_logging_config_builder() {
    let config = LoggingConfig::new()
        .console_level(LogLevel::Debug)
        .file_level(LogLevel::Trace)
        .max_file_size_mb(20)
        .max_files(10)
        .include_system_info(false);

    assert_eq!(config.console_level, LogLevel::Debug);
    assert_eq!(config.file_level, LogLevel::Trace);
    assert_eq!(config.max_file_size_mb, 20);
    assert_eq!(config.max_files, 10);
    assert!(!config.include_system_info);
}

#[test]
fn test_session_context_builder() {
    let context = SessionContext::new()
        .with_operation("test_operation".to_string())
        .with_module("test_module".to_string());

    assert_eq!(context.operation, Some("test_operation".to_string()));
    assert_eq!(context.module, Some("test_module".to_string()));
    assert!(context.session_id.is_none());
}
