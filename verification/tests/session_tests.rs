use slide_extractor::config::ExtractionConfig;
use slide_extractor::session::{ProcessingSession, SessionProgress, SessionState};

fn create_test_config() -> ExtractionConfig {
    ExtractionConfig::new("https://www.youtube.com/watch?v=test".to_string())
}

fn create_test_session() -> ProcessingSession {
    ProcessingSession::new(
        "https://www.youtube.com/watch?v=test".to_string(),
        create_test_config(),
        1000,
    )
}

#[test]
fn test_session_state_is_terminal() {
    assert!(!SessionState::Created.is_terminal());
    assert!(!SessionState::Processing.is_terminal());
    assert!(SessionState::Completed.is_terminal());
    assert!(SessionState::Failed.is_terminal());
}

#[test]
fn test_session_state_can_start() {
    assert!(SessionState::Created.can_start());
    assert!(!SessionState::Processing.can_start());
    assert!(!SessionState::Completed.can_start());
    assert!(!SessionState::Failed.can_start());
}

#[test]
fn test_session_state_can_process() {
    assert!(SessionState::Created.can_process());
    assert!(!SessionState::Processing.can_process());
    assert!(!SessionState::Completed.can_process());
    assert!(!SessionState::Failed.can_process());
}

#[test]
fn test_session_state_can_complete() {
    assert!(!SessionState::Created.can_complete());
    assert!(SessionState::Processing.can_complete());
    assert!(!SessionState::Completed.can_complete());
    assert!(!SessionState::Failed.can_complete());
}

#[test]
fn test_session_state_can_fail() {
    assert!(SessionState::Created.can_fail());
    assert!(SessionState::Processing.can_fail());
    assert!(!SessionState::Completed.can_fail());
    assert!(!SessionState::Failed.can_fail());
}

#[test]
fn test_session_creation() {
    let session = create_test_session();
    assert_eq!(session.state, SessionState::Created);
    assert_eq!(session.youtube_url, "https://www.youtube.com/watch?v=test");
    assert!(session.created_at > 0);
    assert!(session.completed_at.is_none());
    assert_eq!(session.unique_slides, 0);
    assert_eq!(session.frames_processed, 0);
}

#[test]
fn test_session_start_processing() {
    let mut session = create_test_session();
    assert!(session.start_processing().is_ok());
    assert_eq!(session.state, SessionState::Processing);
}

#[test]
fn test_session_start_processing_invalid_state() {
    let mut session = create_test_session();
    session.state = SessionState::Processing;
    assert!(session.start_processing().is_err());
}

#[test]
fn test_session_complete() {
    let mut session = create_test_session();
    session.start_processing().unwrap();
    assert!(session.complete(2000).is_ok());
    assert_eq!(session.state, SessionState::Completed);
    assert!(session.completed_at.is_some());
}

#[test]
fn test_session_complete_invalid_state() {
    let mut session = create_test_session();
    assert!(session.complete(2000).is_err());
}

#[test]
fn test_session_fail() {
    let mut session = create_test_session();
    assert!(session.fail("Test error".to_string(), 2000).is_ok());
    assert_eq!(session.state, SessionState::Failed);
    assert_eq!(session.error_message, Some("Test error".to_string()));
    assert!(session.completed_at.is_some());
}

#[test]
fn test_session_fail_invalid_state() {
    let mut session = create_test_session();
    session.state = SessionState::Completed;
    assert!(session.fail("Test error".to_string(), 2000).is_err());
}

#[test]
fn test_session_update_progress() {
    let mut session = create_test_session();
    session.update_progress(
        "Downloading".to_string(),
        50,
        100,
        Some("Downloading video".to_string()),
    );

    assert_eq!(session.progress.stage, "Downloading");
    assert_eq!(session.progress.processed, 50);
    assert_eq!(session.progress.total, 100);
    assert_eq!(session.progress.percentage, 50);
    assert_eq!(
        session.progress.message,
        Some("Downloading video".to_string())
    );
}

#[test]
fn test_session_metadata() {
    let mut session = create_test_session();
    session.set_metadata("video_title".to_string(), "Test Video".to_string());
    session.set_metadata("video_duration".to_string(), "300".to_string());

    assert_eq!(
        session.get_metadata("video_title"),
        Some("Test Video".to_string())
    );
    assert_eq!(
        session.get_metadata("video_duration"),
        Some("300".to_string())
    );
    assert_eq!(session.get_metadata("nonexistent"), None);
}

#[test]
fn test_session_duration() {
    let mut session = create_test_session();
    assert_eq!(session.duration(1500), 500);
    session.start_processing().unwrap();
    session.complete(1800).unwrap();
    assert_eq!(session.duration(9999), 800);
}

#[test]
fn test_session_progress_increment() {
    let mut progress = SessionProgress::new("Testing".to_string(), 10);
    assert_eq!(progress.processed, 0);

    progress.increment();
    assert_eq!(progress.processed, 1);
    assert_eq!(progress.percentage, 10);

    progress.update(5, Some("Halfway".to_string()));
    assert_eq!(progress.processed, 5);
    assert_eq!(progress.percentage, 50);
    assert_eq!(progress.message, Some("Halfway".to_string()));
}
