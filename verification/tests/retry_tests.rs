use slide_extractor::error::ExtractionError;
use slide_extractor::ids::{Id, YouTubeVideo};
use slide_extractor::retry::{
    calculate_backoff, create_retry_event, handle_timeout, DownloadRetryInitiated,
    HandleTimeoutCommand, NetworkTimeoutOccurred,
};

#[test]
fn test_handle_timeout_within_retries() {
    let command = HandleTimeoutCommand {
        video_id: Id::<YouTubeVideo>::new(),
        operation: "download".to_string(),
        timeout_secs: 60,
        retry_attempt: 1,
    };
    let result = handle_timeout(command, 3);
    assert!(result.is_ok());
    let event = result.unwrap();
    assert_eq!(event.operation, "download");
    assert_eq!(event.timeout_secs, 60);
    assert_eq!(event.retry_attempt, 1);
    assert_eq!(event.max_retries, 3);
}

#[test]
fn test_handle_timeout_exhausted() {
    let command = HandleTimeoutCommand {
        video_id: Id::<YouTubeVideo>::new(),
        operation: "download".to_string(),
        timeout_secs: 60,
        retry_attempt: 3,
    };
    let result = handle_timeout(command, 3);
    assert!(matches!(result, Err(ExtractionError::NetworkTimeout(_))));
}

#[test]
fn test_calculate_backoff() {
    // First retry: about one second.
    let backoff = calculate_backoff(0, 1000, 30000);
    assert!(backoff >= 1000);
    assert!(backoff <= 1100);

    // Second retry: about two seconds.
    let backoff = calculate_backoff(1, 1000, 30000);
    assert!(backoff >= 2000);
    assert!(backoff <= 2200);

    // Third retry: about four seconds.
    let backoff = calculate_backoff(2, 1000, 30000);
    assert!(backoff >= 4000);
    assert!(backoff <= 4400);
}

#[test]
fn test_calculate_backoff_max() {
    // Far past the cap: the delay is the cap plus at most a tenth of it.
    let backoff = calculate_backoff(10, 10000, 20000);
    assert!(backoff >= 20000);
    assert!(backoff <= 22000);
}

// The first attempt with a one-second initial delay and a thirty-second
// cap waits between one and one-point-one seconds.
#[test]
fn test_backoff_first_attempt_window() {
    for _ in 0..20 {
        let backoff = calculate_backoff(0, 1000, 30000);
        assert!((1000..=1100).contains(&backoff));
    }
}

#[test]
fn test_create_retry_event() {
    let event = create_retry_event(Id::<YouTubeVideo>::new(), 2, 4);
    assert_eq!(event.attempt, 2);
    assert_eq!(event.backoff_secs, 4);
}

#[test]
fn test_handle_timeout_command() {
    let cmd = HandleTimeoutCommand {
        video_id: Id::<YouTubeVideo>::from_value(13),
        operation: "download".to_string(),
        timeout_secs: 60,
        retry_attempt: 1,
    };
    assert_eq!(cmd.video_id.as_value(), 13);
    assert_eq!(cmd.operation, "download");
    assert_eq!(cmd.timeout_secs, 60);
    assert_eq!(cmd.retry_attempt, 1);
}

#[test]
fn test_network_timeout_occurred() {
    let event = NetworkTimeoutOccurred {
        video_id: Id::<YouTubeVideo>::from_value(14),
        operation: "download".to_string(),
        timeout_secs: 60,
        retry_attempt: 1,
        max_retries: 3,
    };
    assert_eq!(event.operation, "download");
    assert_eq!(event.timeout_secs, 60);
    assert_eq!(event.retry_attempt, 1);
    assert_eq!(event.max_retries, 3);
}

#[test]
fn test_download_retry_initiated() {
    let event = DownloadRetryInitiated {
        video_id: Id::<YouTubeVideo>::from_value(15),
        attempt: 2,
        backoff_secs: 2,
    };
    assert_eq!(event.attempt, 2);
    assert_eq!(event.backoff_secs, 2);
}

#[test]
fn test_id_new_creates_unique_ids() {
    let id1 = Id::<YouTubeVideo>::new();
    let id2 = Id::<YouTubeVideo>::new();
    assert_ne!(id1, id2);
}

#[test]
fn test_id_from_value() {
    let id = Id::<YouTubeVideo>::from_value(42);
    assert_eq!(id.as_value(), 42);
}

#[test]
fn test_id_copy() {
    let id1 = Id::<YouTubeVideo>::new();
    let id2 = id1;
    assert_eq!(id1, id2);
}

#[test]
fn test_id_from_token_is_deterministic() {
    let a = Id::<YouTubeVideo>::from_token("dQw4w9WgXcQ");
    let b = Id::<YouTubeVideo>::from_token("dQw4w9WgXcQ");
    let c = Id::<YouTubeVideo>::from_token("another_one");
    assert_eq!(a, b);
    assert_ne!(a, c);
    assert_eq!(a.to_hex().len(), 32);
}
