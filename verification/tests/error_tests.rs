use slide_extractor::error::{ErrorCategory, ExtractionError};
use slide_extractor::ids::{Id, Slide, YouTubeVideo};

#[test]
fn test_invalid_url_error() {
    let err = ExtractionError::InvalidUrl("https://example.com".to_string());
    assert_eq!(
        err.short_message(),
        "Invalid YouTube URL: https://example.com"
    );
}

#[test]
fn test_video_unavailable_error() {
    let video_id = Id::<YouTubeVideo>::new();
    let err = ExtractionError::VideoUnavailable(video_id);
    assert!(err.short_message().contains("is unavailable"));
}

#[test]
fn test_download_failed_error() {
    let err = ExtractionError::DownloadFailed(3, "network error".to_string());
    assert_eq!(
        err.short_message(),
        "Download failed after 3 retries: network error"
    );
}

#[test]
fn test_network_timeout_error() {
    let err = ExtractionError::NetworkTimeout(30);
    assert_eq!(err.short_message(), "Network timeout after 30s");
}

#[test]
fn test_error_categories() {
    assert_eq!(
        ExtractionError::InvalidUrl(String::new()).category(),
        ErrorCategory::Validation
    );
    assert_eq!(
        ExtractionError::NetworkTimeout(5).category(),
        ErrorCategory::Network
    );
    assert_eq!(
        ExtractionError::NoUniqueSlidesFound.category(),
        ErrorCategory::Processing
    );
    assert_eq!(
        ExtractionError::MemoryThresholdExceeded {
            used: 600,
            threshold: 500
        }
        .category(),
        ErrorCategory::Memory
    );
    assert_eq!(
        ExtractionError::PermissionDenied(String::new()).category(),
        ErrorCategory::FileSystem
    );
    assert_eq!(
        ExtractionError::ExternalDependencyUnavailable(String::new()).category(),
        ErrorCategory::ExternalDependency
    );
}

#[test]
fn test_user_messages_are_actionable() {
    let err = ExtractionError::VideoTooLong {
        duration: 7200,
        max: 3600,
    };
    let msg = err.user_message();
    assert!(msg.contains("7200 seconds"));
    assert!(msg.contains("maximum: 3600 seconds"));
    assert!(msg.contains("shorter video"));

    let err = ExtractionError::InsufficientDiskSpace(600, 500);
    let msg = err.user_message();
    assert!(msg.contains("Required: 600MB"));
    assert!(msg.contains("Available: 500MB"));
}

#[test]
fn test_low_confidence_message_renders_percent() {
    let err = ExtractionError::LowOcrConfidence {
        slide_id: Id::<Slide>::new(),
        confidence: 4250,
        threshold: 6000,
    };
    let msg = err.user_message();
    assert!(msg.contains("42.50%"));
    assert!(msg.contains("60.00%"));
}

#[test]
fn test_corrupt_frame_messages() {
    let err = ExtractionError::CorruptFrame { timestamp: 10 };
    assert_eq!(
        err.short_message(),
        "Corrupt frame at timestamp 10s - skipping"
    );
    let err = ExtractionError::TooManyCorruptFrames { count: 11, max: 10 };
    assert_eq!(
        err.short_message(),
        "Too many corrupt frames: 11 frames skipped (maximum: 10)"
    );
}
