use slide_extractor::availability::{
    classify_error_message, classify_fetch_stderr, status_of_metadata, AvailabilityChecker,
    AvailabilityCheckerConfig, AvailabilityStatus, VideoMetadata,
};
use slide_extractor::error::ExtractionError;
use slide_extractor::ids::{Id, YouTubeVideo};

fn sample_metadata(duration: u64, age_restricted: bool) -> VideoMetadata {
    VideoMetadata {
        title: "Test Video".to_string(),
        duration,
        width: 1920,
        height: 1080,
        uploader: "Test Channel".to_string(),
        upload_date: "20240101".to_string(),
        view_count: Some(1000),
        age_restricted,
    }
}

#[test]
fn test_video_metadata() {
    let metadata = sample_metadata(180, false);
    assert_eq!(metadata.title, "Test Video");
    assert_eq!(metadata.duration, 180);
    assert_eq!(metadata.width, 1920);
    assert_eq!(metadata.height, 1080);
    assert_eq!(metadata.uploader, "Test Channel");
    assert_eq!(metadata.upload_date, "20240101");
    assert_eq!(metadata.view_count, Some(1000));
    assert!(!metadata.age_restricted);
}

#[test]
fn test_availability_status_variants() {
    assert_eq!(AvailabilityStatus::Available, AvailabilityStatus::Available);
    assert_eq!(AvailabilityStatus::Private, AvailabilityStatus::Private);
    assert_eq!(AvailabilityStatus::Deleted, AvailabilityStatus::Deleted);
    assert_eq!(
        AvailabilityStatus::AgeRestricted,
        AvailabilityStatus::AgeRestricted
    );
    assert_eq!(
        AvailabilityStatus::RegionLocked,
        AvailabilityStatus::RegionLocked
    );
    assert_ne!(
        AvailabilityStatus::Available,
        AvailabilityStatus::Unavailable("test".to_string())
    );
}

#[test]
fn test_availability_checker_config_default() {
    let config = AvailabilityCheckerConfig::new();
    assert_eq!(config.timeout_secs, 5);
    assert_eq!(config.max_duration, 4 * 60 * 60);
    assert_eq!(config.min_duration, 0);
}

#[test]
fn test_availability_checker_config_builder() {
    let config = AvailabilityCheckerConfig::new()
        .timeout(10)
        .max_duration(3600)
        .min_duration(10);
    assert_eq!(config.timeout_secs, 10);
    assert_eq!(config.max_duration, 3600);
    assert_eq!(config.min_duration, 10);
}

#[test]
fn test_availability_checker_new() {
    let checker = AvailabilityChecker::new();
    assert_eq!(checker.config.timeout_secs, 5);
}

#[test]
fn test_availability_checker_with_config() {
    let config = AvailabilityCheckerConfig::new().timeout(10);
    let checker = AvailabilityChecker::with_config(config);
    assert_eq!(checker.config.timeout_secs, 10);
}

#[test]
fn test_check_availability_accepts_ordinary_video() {
    let checker = AvailabilityChecker::new();
    let result = checker.check_availability(sample_metadata(180, false));
    assert!(result.is_ok());
    assert_eq!(result.unwrap().duration, 180);
}

#[test]
fn test_check_availability_rejects_too_long() {
    let checker = AvailabilityChecker::with_config(
        AvailabilityCheckerConfig::new().max_duration(3600),
    );
    let result = checker.check_availability(sample_metadata(7200, false));
    assert!(matches!(
        result,
        Err(ExtractionError::VideoTooLong {
            duration: 7200,
            max: 3600
        })
    ));
}

#[test]
fn test_check_availability_rejects_too_short() {
    let checker = AvailabilityChecker::with_config(
        AvailabilityCheckerConfig::new().min_duration(60),
    );
    let result = checker.check_availability(sample_metadata(30, false));
    assert!(matches!(result, Err(ExtractionError::InvalidUrl(_))));
}

#[test]
fn test_check_availability_rejects_age_restricted() {
    let checker = AvailabilityChecker::new();
    let result = checker.check_availability(sample_metadata(180, true));
    assert!(matches!(result, Err(ExtractionError::VideoAgeRestricted)));
}

#[test]
fn test_status_of_metadata() {
    assert_eq!(
        status_of_metadata(&sample_metadata(180, false)),
        AvailabilityStatus::Available
    );
    assert_eq!(
        status_of_metadata(&sample_metadata(180, true)),
        AvailabilityStatus::AgeRestricted
    );
}

#[test]
fn test_classify_error_message() {
    assert_eq!(
        classify_error_message("This is a Private video"),
        AvailabilityStatus::Private
    );
    assert_eq!(
        classify_error_message("video was DELETED by uploader"),
        AvailabilityStatus::Deleted
    );
    assert_eq!(
        classify_error_message("please sign in to continue"),
        AvailabilityStatus::AgeRestricted
    );
    assert_eq!(
        classify_error_message("not available in your Country"),
        AvailabilityStatus::RegionLocked
    );
    assert_eq!(
        classify_error_message("mysterious problem"),
        AvailabilityStatus::Unavailable("mysterious problem".to_string())
    );
}

#[test]
fn test_classify_fetch_stderr() {
    let id = Id::<YouTubeVideo>::new();
    assert!(matches!(
        classify_fetch_stderr("ERROR: Private video, sign in", id),
        ExtractionError::VideoPrivate
    ));
    assert!(matches!(
        classify_fetch_stderr("ERROR: video unavailable", id),
        ExtractionError::VideoDeleted
    ));
    assert!(matches!(
        classify_fetch_stderr("age-gate content", id),
        ExtractionError::VideoAgeRestricted
    ));
    assert!(matches!(
        classify_fetch_stderr("blocked by geo rules", id),
        ExtractionError::VideoRegionLocked
    ));
    assert!(matches!(
        classify_fetch_stderr("some other problem", id),
        ExtractionError::VideoUnavailable(_)
    ));
}
