use slide_extractor::availability::VideoMetadata;
use slide_extractor::checkpoint::{
    SessionOrchestrator, SessionState, SessionStatus, SlideState, Stage,
};
use slide_extractor::ids::{Id, Session};

fn sample_metadata() -> VideoMetadata {
    VideoMetadata {
        title: "Talk".to_string(),
        duration: 65,
        width: 1920,
        height: 1080,
        uploader: "Channel".to_string(),
        upload_date: "20240101".to_string(),
        view_count: None,
        age_restricted: false,
    }
}

#[test]
fn test_fresh_session_starts_at_the_beginning() {
    let state = SessionState::new(Id::<Session>::new());
    assert_eq!(state.status, SessionStatus::Starting);
    assert!(state.video_metadata.is_none());
    assert!(state.report_path.is_none());
    assert_eq!(state.next_stage(), Some(Stage::FetchMetadata));
}

#[test]
fn test_stage_progression() {
    let mut state = SessionState::new(Id::<Session>::new());

    state.record_metadata(sample_metadata());
    assert_eq!(state.status, SessionStatus::MetadataFetched);
    assert_eq!(state.next_stage(), Some(Stage::DownloadVideo));

    state.record_download("/out/s/video.mp4".to_string());
    assert_eq!(state.status, SessionStatus::VideoDownloaded);
    assert_eq!(state.next_stage(), Some(Stage::ExtractFrames));

    state.record_frames("/out/s/frames".to_string());
    assert_eq!(state.status, SessionStatus::FramesExtracted);
    assert_eq!(state.next_stage(), Some(Stage::IdentifySlides));

    state.record_slides(
        "/out/s/slides".to_string(),
        vec![SlideState {
            slide_index: 1,
            timestamp: 0,
            image_path: "/out/s/slides/slide_0001.jpg".to_string(),
        }],
    );
    assert_eq!(state.status, SessionStatus::UniqueSlidesIdentified);
    assert_eq!(state.next_stage(), Some(Stage::GenerateDocument));

    state.record_report("/out/s/report.md".to_string());
    assert_eq!(state.status, SessionStatus::Completed);
    assert_eq!(state.next_stage(), None);

    // Every artifact recorded along the way is still there.
    assert_eq!(state.video_path.as_deref(), Some("/out/s/video.mp4"));
    assert_eq!(state.frames_dir.as_deref(), Some("/out/s/frames"));
    assert_eq!(state.slides_dir.as_deref(), Some("/out/s/slides"));
    assert_eq!(state.report_path.as_deref(), Some("/out/s/report.md"));
}

// Resuming a session whose checkpoint records completion runs nothing and
// leaves the recorded report path untouched.
#[test]
fn test_completed_session_resumes_to_nothing() {
    let mut state = SessionState::new(Id::<Session>::new());
    state.record_metadata(sample_metadata());
    state.record_download("/out/s/video.mp4".to_string());
    state.record_frames("/out/s/frames".to_string());
    state.record_slides("/out/s/slides".to_string(), Vec::new());
    state.record_report("/out/s/report.md".to_string());

    let before = state.report_path.clone();
    assert_eq!(state.next_stage(), None);
    assert_eq!(state.report_path, before);
}

#[test]
fn test_failed_session_keeps_artifacts() {
    let mut state = SessionState::new(Id::<Session>::new());
    state.record_metadata(sample_metadata());
    state.record_download("/out/s/video.mp4".to_string());
    state.fail("network fell over".to_string());
    assert!(matches!(state.status, SessionStatus::Failed(_)));
    assert_eq!(state.next_stage(), None);
    assert_eq!(state.video_path.as_deref(), Some("/out/s/video.mp4"));
}

#[test]
fn test_session_paths_are_deterministic() {
    let id = Id::<Session>::new();
    let a = SessionOrchestrator::session_paths("/out", &id);
    let b = SessionOrchestrator::session_paths("/out", &id);
    assert_eq!(a.session_dir, b.session_dir);
    assert!(a.frames_dir.starts_with(&a.session_dir));
    assert!(a.frames_dir.ends_with("/frames"));
    assert!(a.slides_dir.ends_with("/slides"));
    assert!(a.doc_path.ends_with("/report.md"));
    assert!(a.state_path.ends_with("/session.json"));
}
