use slide_extractor::config::{get_supported_languages, ConfigBuilder, ExtractionConfig};
use slide_extractor::similarity::Threshold;

#[test]
fn test_supported_languages() {
    let languages = get_supported_languages();
    assert!(languages.contains(&"eng"));
    assert!(languages.contains(&"spa"));
    assert!(languages.contains(&"fra"));
    assert!(languages.contains(&"deu"));
    assert!(languages.contains(&"jpn"));
}

#[test]
fn test_default_config() {
    let config = ExtractionConfig::new("https://youtube.com/watch?v=test".to_string());
    assert_eq!(config.interval_ms, 5000);
    assert_eq!(config.threshold, Threshold { num: 85, den: 100 });
    assert_eq!(config.languages, vec!["eng"]);
    assert!(!config.timestamps);
}

#[test]
fn test_valid_config() {
    let config = ExtractionConfig::new("https://youtube.com/watch?v=test".to_string());
    assert!(config.validate().is_ok());
}

#[test]
fn test_invalid_interval_too_low() {
    let mut config = ExtractionConfig::new("https://youtube.com/watch?v=test".to_string());
    config.interval_ms = 50;
    assert!(config.validate().is_err());
}

#[test]
fn test_invalid_interval_too_high() {
    let mut config = ExtractionConfig::new("https://youtube.com/watch?v=test".to_string());
    config.interval_ms = 65000;
    assert!(config.validate().is_err());
}

#[test]
fn test_invalid_threshold() {
    let mut config = ExtractionConfig::new("https://youtube.com/watch?v=test".to_string());
    config.threshold = Threshold { num: 150, den: 100 };
    assert!(config.validate().is_err());
    config.threshold = Threshold { num: 1, den: 0 };
    assert!(config.validate().is_err());
}

#[test]
fn test_empty_languages() {
    let mut config = ExtractionConfig::new("https://youtube.com/watch?v=test".to_string());
    config.languages = vec![];
    assert!(config.validate().is_err());
}

#[test]
fn test_unsupported_language() {
    let mut config = ExtractionConfig::new("https://youtube.com/watch?v=test".to_string());
    config.languages = vec!["xyz".to_string()];
    assert!(config.validate().is_err());
}

#[test]
fn test_valid_languages() {
    let mut config = ExtractionConfig::new("https://youtube.com/watch?v=test".to_string());
    config.languages = vec!["eng".to_string(), "spa".to_string()];
    assert!(config.validate().is_ok());
}

#[test]
fn test_invalid_memory_threshold() {
    let mut config = ExtractionConfig::new("https://youtube.com/watch?v=test".to_string());
    config.memory_threshold_mb = 50;
    assert!(config.validate().is_err());
}

#[test]
fn test_builder() {
    let config = ConfigBuilder::new()
        .youtube_url("https://youtube.com/watch?v=test".to_string())
        .interval_ms(10000)
        .threshold(Threshold { num: 90, den: 100 })
        .timestamps(true)
        .build()
        .unwrap();

    assert_eq!(config.interval_ms, 10000);
    assert_eq!(config.threshold, Threshold { num: 90, den: 100 });
    assert!(config.timestamps);
}

#[test]
fn test_builder_missing_url() {
    let result = ConfigBuilder::new().build();
    assert!(result.is_err());
}

#[test]
fn test_builder_invalid_interval() {
    let result = ConfigBuilder::new()
        .youtube_url("https://youtube.com/watch?v=test".to_string())
        .interval_ms(100000)
        .build();
    assert!(result.is_err());
}

#[test]
fn test_multiple_validation_errors() {
    let mut config = ExtractionConfig::new("https://youtube.com/watch?v=test".to_string());
    config.interval_ms = 50;
    config.threshold = Threshold { num: 150, den: 100 };
    config.languages = vec![];
    config.memory_threshold_mb = 50;

    let result = config.validate();
    assert!(result.is_err());

    if let Err(slide_extractor::error::ExtractionError::InvalidConfig(msg)) = result {
        assert!(msg.contains("interval"));
        assert!(msg.contains("threshold"));
        assert!(msg.contains("language"));
        assert!(msg.contains("memory"));
        assert!(msg.contains("; "));
    } else {
        panic!("Expected InvalidConfig");
    }
}

#[test]
fn test_unsupported_language_named_in_error() {
    let mut config = ExtractionConfig::new("https://youtube.com/watch?v=test".to_string());
    config.languages = vec!["xyz".to_string()];
    if let Err(slide_extractor::error::ExtractionError::InvalidConfig(msg)) = config.validate() {
        assert!(msg.contains("Unsupported language code: xyz"));
        assert!(msg.contains("eng, spa, fra"));
    } else {
        panic!("Expected InvalidConfig");
    }
}
