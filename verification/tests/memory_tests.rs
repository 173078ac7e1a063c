use slide_extractor::error::ExtractionError;
use slide_extractor::memory::{
    check_memory_sufficient, validate_memory_requirement, MemoryMonitor, MemoryUsage,
};
use slide_extractor::storage::{DiskSpaceInfo, OutputDirectoryValidator};

#[test]
fn test_memory_monitor_new() {
    let monitor = MemoryMonitor::new();
    assert_eq!(monitor.threshold_bytes, 500 * 1024 * 1024);
    assert_eq!(monitor.warning_percent, 80);
}

#[test]
fn test_memory_monitor_with_threshold() {
    let monitor = MemoryMonitor::with_threshold(1000, 90);
    assert_eq!(monitor.threshold_bytes, 1000 * 1024 * 1024);
    assert_eq!(monitor.warning_percent, 90);
}

#[test]
fn test_record_usage() {
    let mut monitor = MemoryMonitor::new();
    monitor.record_usage(100 * 1024 * 1024);
    monitor.record_usage(200 * 1024 * 1024);
    monitor.record_usage(150 * 1024 * 1024);
    assert_eq!(monitor.peak_bytes, 200 * 1024 * 1024);
}

#[test]
fn test_exceeds_threshold() {
    let monitor = MemoryMonitor::new();
    assert!(!monitor.exceeds_threshold(500 * 1024 * 1024));
    assert!(monitor.exceeds_threshold(500 * 1024 * 1024 + 1));
}

#[test]
fn test_approaching_threshold() {
    let monitor = MemoryMonitor::new();
    assert!(monitor.approaching_threshold(401 * 1024 * 1024));
    assert!(!monitor.approaching_threshold(300 * 1024 * 1024));
}

#[test]
fn test_validate_success() {
    let monitor = MemoryMonitor::new();
    assert!(monitor.validate(400 * 1024 * 1024).is_ok());
}

#[test]
fn test_validate_failure() {
    let monitor = MemoryMonitor::new();
    let result = monitor.validate(600 * 1024 * 1024);
    assert!(result.is_err());
    if let Err(ExtractionError::MemoryThresholdExceeded { used, threshold }) = result {
        assert_eq!(used, 600);
        assert_eq!(threshold, 500);
    } else {
        panic!("Expected MemoryThresholdExceeded error");
    }
}

#[test]
fn test_memory_usage() {
    let usage = MemoryUsage {
        current_bytes: 400 * 1024 * 1024,
        peak_bytes: 500 * 1024 * 1024,
        threshold_bytes: 500 * 1024 * 1024,
    };

    assert_eq!(usage.current_mb(), 400);
    assert_eq!(usage.peak_mb(), 500);
    assert_eq!(usage.threshold_mb(), 500);
}

#[test]
fn test_validate_memory_requirement() {
    assert!(validate_memory_requirement(100, 200).is_ok());
    assert!(matches!(
        validate_memory_requirement(300, 200),
        Err(ExtractionError::InsufficientMemory(300))
    ));
}

#[test]
fn test_check_memory_sufficient() {
    let monitor = check_memory_sufficient(100, Some(200), 1024).unwrap();
    assert_eq!(monitor.threshold_bytes, 200 * 1024 * 1024);
    assert!(check_memory_sufficient(2048, None, 1024).is_err());
}

#[test]
fn test_output_directory_validator_new() {
    let validator = OutputDirectoryValidator::new("/tmp/test".to_string());
    assert_eq!(validator.output_dir, "/tmp/test");
}

#[test]
fn test_disk_space_info() {
    let info = DiskSpaceInfo {
        available_bytes: 1024 * 1024 * 500, // 500 MB
        total_bytes: 1024 * 1024 * 1000,    // 1000 MB
    };

    assert_eq!(info.available_mb(), 500);
    assert_eq!(info.total_mb(), 1000);
}

#[test]
fn test_validate_disk_space() {
    let validator = OutputDirectoryValidator::new("/tmp/test".to_string());
    let roomy = DiskSpaceInfo {
        available_bytes: 1024 * 1024 * 500,
        total_bytes: 1024 * 1024 * 1000,
    };
    assert!(validator.validate_disk_space(100, roomy).is_ok());
    assert!(matches!(
        validator.validate_disk_space(600, roomy),
        Err(ExtractionError::InsufficientDiskSpace(600, 500))
    ));
}
