use slide_extractor::error::ExtractionError;
use slide_extractor::ids::{Id, YouTubeVideo};
use slide_extractor::video::{
    extract_video_id, handle_download_video, handle_validate_url, handle_verify_availability,
    is_valid_youtube_url, validate_video_id_format, validate_video_url, DownloadVideoCommand,
    ValidateUrlCommand, VerifyAvailabilityCommand, VideoAvailabilityVerified, VideoDownloaded,
    VideoUrlValidated,
};

#[test]
fn test_validate_url_command() {
    let cmd = ValidateUrlCommand {
        url: "https://www.youtube.com/watch?v=dQw4w9WgXcQ".to_string(),
    };
    assert_eq!(cmd.url, "https://www.youtube.com/watch?v=dQw4w9WgXcQ");
}

#[test]
fn events_test_extract_video_id_from_watch_url() {
    let url = "https://www.youtube.com/watch?v=dQw4w9WgXcQ";
    let result = extract_video_id(url);
    assert_eq!(result, "dQw4w9WgXcQ");
}

#[test]
fn events_test_extract_video_id_from_short_url() {
    let url = "https://youtu.be/dQw4w9WgXcQ";
    let result = extract_video_id(url);
    assert_eq!(result, "dQw4w9WgXcQ");
}

#[test]
fn events_test_extract_video_id_from_embed_url() {
    let url = "https://www.youtube.com/embed/dQw4w9WgXcQ";
    let result = extract_video_id(url);
    assert_eq!(result, "dQw4w9WgXcQ");
}

#[test]
fn test_extract_video_id_from_shorts_url() {
    let url = "https://www.youtube.com/shorts/dQw4w9WgXcQ";
    let result = extract_video_id(url);
    assert_eq!(result, "dQw4w9WgXcQ");
}

#[test]
fn test_extract_video_id_from_v_url() {
    let url = "https://www.youtube.com/v/dQw4w9WgXcQ";
    let result = extract_video_id(url);
    assert_eq!(result, "dQw4w9WgXcQ");
}

#[test]
fn test_extract_video_id_with_params() {
    let url = "https://www.youtube.com/watch?v=dQw4w9WgXcQ&t=10s";
    let result = extract_video_id(url);
    assert_eq!(result, "dQw4w9WgXcQ");
}

// The v parameter is matched as a query key: a parameter merely ending
// in "v=" does not supply the token.
#[test]
fn test_extract_video_id_query_key_semantics() {
    let url = "https://www.youtube.com/watch?av=2&v=dQw4w9WgXcQ";
    assert_eq!(extract_video_id(url), "dQw4w9WgXcQ");
    let url = "https://www.youtube.com/watch?v=dQw4w9WgXcQ&av=2";
    assert_eq!(extract_video_id(url), "dQw4w9WgXcQ");
}

#[test]
fn test_is_valid_youtube_url() {
    assert!(is_valid_youtube_url("https://www.youtube.com/watch?v=test"));
    assert!(is_valid_youtube_url("https://youtube.com/watch?v=test"));
    assert!(is_valid_youtube_url("https://m.youtube.com/watch?v=test"));
    assert!(is_valid_youtube_url(
        "https://music.youtube.com/watch?v=test"
    ));
    assert!(is_valid_youtube_url("https://youtu.be/test"));
    assert!(!is_valid_youtube_url("https://example.com/video"));
    assert!(!is_valid_youtube_url("http://www.youtube.com/watch?v=test")); // http not https
}

#[test]
fn test_validate_valid_youtube_url() {
    let url = "https://www.youtube.com/watch?v=dQw4w9WgXcQ";
    let result = validate_video_url(url);
    assert!(result.is_ok());
    let event = result.unwrap();
    assert_eq!(event.url, url);
    // Verify that the video ID can be parsed from the same string
    let expected_id: Id<YouTubeVideo> = Id::from_token("dQw4w9WgXcQ");
    assert_eq!(event.video_id, expected_id);
}

#[test]
fn test_validate_youtu_be_short_url() {
    let url = "https://youtu.be/dQw4w9WgXcQ";
    let result = validate_video_url(url);
    assert!(result.is_ok());
    let event = result.unwrap();
    assert_eq!(event.url, url);
    let expected_id: Id<YouTubeVideo> = Id::from_token("dQw4w9WgXcQ");
    assert_eq!(event.video_id, expected_id);
}

#[test]
fn test_validate_invalid_url() {
    let url = "https://example.com/video";
    let result = validate_video_url(url);
    assert!(matches!(result, Err(ExtractionError::InvalidUrl(_))));
}

#[test]
fn test_validate_empty_url() {
    let url = "";
    let result = validate_video_url(url);
    assert!(matches!(result, Err(ExtractionError::InvalidUrl(_))));
}

#[test]
fn test_validate_invalid_video_id_format() {
    let url = "https://www.youtube.com/watch?v=invalid@id";
    let result = validate_video_url(url);
    assert!(matches!(result, Err(ExtractionError::InvalidUrl(_))));
}

#[test]
fn test_validate_video_id_format_valid() {
    assert!(validate_video_id_format("dQw4w9WgXcQ").is_ok());
    assert!(validate_video_id_format("abcdefghijk").is_ok());
    assert!(validate_video_id_format("ABC123-xyz_1").is_ok());
}

#[test]
fn test_validate_video_id_format_invalid() {
    assert!(validate_video_id_format("").is_err());
    assert!(validate_video_id_format("short").is_err());
    assert!(validate_video_id_format("this_is_way_too_long_id").is_err());
    assert!(validate_video_id_format("invalid@chars!").is_err());
}

#[test]
fn test_handle_download_video_success() {
    let command = DownloadVideoCommand {
        video_id: Id::<YouTubeVideo>::new(),
    };
    let result = handle_download_video(command, "/tmp", 180);
    assert!(result.is_ok());
    let event = result.unwrap();
    assert!(event.path.starts_with("/tmp/"));
    assert!(event.path.ends_with(".mp4"));
    assert_eq!(event.duration_sec, 180);
}

#[test]
fn test_handle_download_video_empty_path() {
    let command = DownloadVideoCommand {
        video_id: Id::<YouTubeVideo>::new(),
    };
    let result = handle_download_video(command, "", 0);
    assert!(matches!(result, Err(ExtractionError::DownloadFailed(_, _))));
}

#[test]
fn test_download_video_command() {
    let cmd = DownloadVideoCommand {
        video_id: Id::<YouTubeVideo>::from_value(11),
    };
    assert_eq!(cmd.video_id.as_value(), 11);
}

#[test]
fn test_verify_availability_command() {
    let cmd = VerifyAvailabilityCommand {
        video_id: Id::<YouTubeVideo>::from_value(12),
        url: "https://www.youtube.com/watch?v=dQw4w9WgXcQ".to_string(),
    };
    assert_eq!(cmd.video_id.as_value(), 12);
    assert_eq!(cmd.url, "https://www.youtube.com/watch?v=dQw4w9WgXcQ");
}

#[test]
fn test_handle_validate_url_success() {
    let command = ValidateUrlCommand {
        url: "https://www.youtube.com/watch?v=dQw4w9WgXcQ".to_string(),
    };
    let result = handle_validate_url(command);
    assert!(result.is_ok());
    let event = result.unwrap();
    assert_eq!(event.url, "https://www.youtube.com/watch?v=dQw4w9WgXcQ");
    let expected_id: Id<YouTubeVideo> = Id::from_token("dQw4w9WgXcQ");
    assert_eq!(event.video_id, expected_id);
}

#[test]
fn test_handle_validate_url_invalid() {
    let command = ValidateUrlCommand {
        url: "https://example.com/video".to_string(),
    };
    let result = handle_validate_url(command);
    assert!(matches!(result, Err(ExtractionError::InvalidUrl(_))));
}

#[test]
fn test_handle_verify_availability() {
    let command = VerifyAvailabilityCommand {
        video_id: Id::<YouTubeVideo>::from_value(5),
        url: "https://www.youtube.com/watch?v=dQw4w9WgXcQ".to_string(),
    };
    let metadata = slide_extractor::availability::VideoMetadata {
        title: "Test Video".to_string(),
        duration: 180,
        width: 1920,
        height: 1080,
        uploader: "Test Channel".to_string(),
        upload_date: "20240101".to_string(),
        view_count: Some(1000),
        age_restricted: false,
    };
    let result = handle_verify_availability(command, metadata);
    assert!(result.is_ok());
    let event = result.unwrap();
    assert_eq!(event.title, "Test Video");
    assert_eq!(event.duration, 180);
    assert_eq!(event.width, 1920);
    assert_eq!(event.height, 1080);
}

#[test]
fn test_video_url_validated() {
    let event = VideoUrlValidated {
        url: "https://www.youtube.com/watch?v=abc".to_string(),
        video_id: Id::<YouTubeVideo>::from_value(2),
    };
    assert_eq!(event.url, "https://www.youtube.com/watch?v=abc");
    assert_eq!(event.video_id.as_value(), 2);
}

#[test]
fn test_video_availability_verified() {
    let event = VideoAvailabilityVerified {
        video_id: Id::<YouTubeVideo>::from_value(8),
        title: "Test Video".to_string(),
        duration: 180,
        width: 1920,
        height: 1080,
        uploader: "Test Channel".to_string(),
        upload_date: "20240101".to_string(),
        age_restricted: false,
    };
    assert_eq!(event.title, "Test Video");
    assert_eq!(event.duration, 180);
    assert_eq!(event.width, 1920);
    assert_eq!(event.height, 1080);
    assert_eq!(event.uploader, "Test Channel");
    assert_eq!(event.upload_date, "20240101");
    assert!(!event.age_restricted);
}

#[test]
fn test_video_downloaded() {
    let event = VideoDownloaded {
        video_id: Id::<YouTubeVideo>::from_value(6),
        path: "/tmp/video.mp4".to_string(),
        duration_sec: 180,
        width: 1920,
        height: 1080,
        file_size: 10 * 1024 * 1024,
    };
    assert_eq!(event.path, "/tmp/video.mp4");
    assert_eq!(event.duration_sec, 180);
    assert_eq!(event.width, 1920);
    assert_eq!(event.height, 1080);
    assert_eq!(event.file_size, 10 * 1024 * 1024);
}
