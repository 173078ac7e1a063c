use slide_extractor::frames::{
    calculate_expected_frames, calculate_total_frames, create_extracted_event, ComputeHashCommand,
    create_frame_extracted_event, create_frames_cleaned_event, create_too_many_errors_event,
    handle_extract_frames, handle_frame_error, handle_optimize_storage,
    validate_extraction_params, validate_hash_params, ExtractFramesCommand, FrameErrorOccurred,
    FrameExtracted, FrameExtractionProgress, FrameFormat, FramesExtracted, HandleFrameErrorCommand,
    HashAlgorithm, HashComputed, OptimizeStorageCommand, TemporaryFramesCleaned,
    TooManyFrameErrors,
};
use slide_extractor::error::ExtractionError;
use slide_extractor::ids::{Id, VideoFrame, YouTubeVideo};

#[test]
fn test_frame_format() {
    assert_eq!(FrameFormat::Jpeg, FrameFormat::Jpeg);
    assert_eq!(FrameFormat::Png, FrameFormat::Png);
}

#[test]
fn test_hash_algorithm() {
    assert_eq!(HashAlgorithm::Average, HashAlgorithm::Average);
    assert_eq!(HashAlgorithm::Difference, HashAlgorithm::Difference);
    assert_eq!(HashAlgorithm::Perceptual, HashAlgorithm::Perceptual);
}

#[test]
fn test_calculate_expected_frames() {
    assert_eq!(calculate_expected_frames(60, 5), 13);
    assert_eq!(calculate_expected_frames(65, 5), 14);
    assert_eq!(calculate_expected_frames(10, 1), 11);
}

#[test]
fn test_calculate_total_frames() {
    // 60 seconds, 5 second interval = 12 frames
    assert_eq!(calculate_total_frames(60, 5), 12);
    // 65 seconds, 5 second interval = 13 frames (last frame included)
    assert_eq!(calculate_total_frames(65, 5), 13);
    // 10 seconds, 1 second interval = 10 frames
    assert_eq!(calculate_total_frames(10, 1), 10);
    // 0 seconds = 1 frame (minimum)
    assert_eq!(calculate_total_frames(0, 5), 1);
}

fn sample_extract_command(interval_secs: u64, jpeg_quality: Option<u8>) -> ExtractFramesCommand {
    ExtractFramesCommand {
        video_id: Id::<YouTubeVideo>::new(),
        video_path: "/tmp/video.mp4".to_string(),
        output_dir: "/tmp/frames".to_string(),
        interval_secs,
        output_format: FrameFormat::Png,
        jpeg_quality,
    }
}

#[test]
fn test_validate_extraction_params_valid() {
    let command = sample_extract_command(5, None);
    assert!(validate_extraction_params(&command).is_ok());
}

#[test]
fn test_validate_extraction_params_interval_too_small() {
    let command = sample_extract_command(0, None);
    assert!(matches!(
        validate_extraction_params(&command),
        Err(ExtractionError::InvalidConfig(_))
    ));
}

#[test]
fn test_validate_extraction_params_interval_too_large() {
    let command = sample_extract_command(61, None);
    assert!(matches!(
        validate_extraction_params(&command),
        Err(ExtractionError::InvalidConfig(_))
    ));
}

#[test]
fn test_validate_extraction_params_jpeg_quality_invalid() {
    let command = sample_extract_command(5, Some(150));
    assert!(matches!(
        validate_extraction_params(&command),
        Err(ExtractionError::InvalidConfig(_))
    ));
}

#[test]
fn test_validate_hash_params() {
    assert!(validate_hash_params(HashAlgorithm::Average, 8).is_ok());
    assert!(validate_hash_params(HashAlgorithm::Difference, 64).is_ok());
    assert!(matches!(
        validate_hash_params(HashAlgorithm::Average, 7),
        Err(ExtractionError::InvalidConfig(_))
    ));
    assert!(matches!(
        validate_hash_params(HashAlgorithm::Perceptual, 65),
        Err(ExtractionError::InvalidConfig(_))
    ));
}

#[test]
fn test_handle_extract_frames_success() {
    let command = sample_extract_command(5, None);
    let result = handle_extract_frames(command, 60, true);
    assert!(result.is_ok());
    let event = result.unwrap();
    assert_eq!(event.total_frames, 12);
    assert_eq!(event.interval_secs, 5);
}

#[test]
fn test_handle_extract_frames_zero_interval() {
    let command = sample_extract_command(0, None);
    let result = handle_extract_frames(command, 60, true);
    assert!(matches!(result, Err(ExtractionError::InvalidConfig(_))));
}

#[test]
fn test_handle_extract_frames_missing_video() {
    let command = sample_extract_command(5, None);
    let result = handle_extract_frames(command, 60, false);
    assert!(matches!(
        result,
        Err(ExtractionError::FrameExtractionFailed(_))
    ));
}

#[test]
fn test_handle_frame_error_continue() {
    let command = HandleFrameErrorCommand {
        frame_id: Id::<VideoFrame>::new(),
        error: "Corrupt frame".to_string(),
        timestamp: 10,
        skipped_count: 5,
        max_skipped: 10,
    };
    let result = handle_frame_error(command);
    assert!(result.is_ok());
    let event = result.unwrap();
    assert!(event.continue_extraction);
}

#[test]
fn test_handle_frame_error_too_many() {
    let command = HandleFrameErrorCommand {
        frame_id: Id::<VideoFrame>::new(),
        error: "Corrupt frame".to_string(),
        timestamp: 10,
        skipped_count: 10,
        max_skipped: 10,
    };
    let result = handle_frame_error(command);
    assert!(matches!(
        result,
        Err(ExtractionError::TooManyCorruptFrames { .. })
    ));
}

#[test]
fn test_handle_optimize_storage() {
    let command = OptimizeStorageCommand {
        video_id: Id::<YouTubeVideo>::new(),
        frames_dir: "/tmp/frames".to_string(),
        compress: true,
        compression_quality: Some(85),
        cleanup_temp: true,
    };
    let result = handle_optimize_storage(command, 100_000_000, 50_000_000, 100);
    assert!(result.is_ok());
    let event = result.unwrap();
    assert_eq!(event.original_size_bytes, 100_000_000);
    assert_eq!(event.optimized_size_bytes, 50_000_000);
    assert_eq!(event.space_saved_percent, 50);
}

#[test]
fn test_create_frame_extracted_event() {
    let event = create_frame_extracted_event(
        Id::<VideoFrame>::new(),
        Id::<YouTubeVideo>::new(),
        1,
        0,
        "/tmp/frame.png".to_string(),
        1920,
        1080,
    );
    assert_eq!(event.frame_number, 1);
    assert_eq!(event.timestamp, 0);
    assert_eq!(event.width, 1920);
    assert_eq!(event.height, 1080);
}

#[test]
fn test_create_extracted_event() {
    let video_id = Id::<YouTubeVideo>::new();
    let event = create_extracted_event(
        Id::<VideoFrame>::new(),
        &video_id,
        2,
        5,
        "/tmp/frame2.png".to_string(),
        1280,
        720,
    );
    assert_eq!(event.frame_number, 2);
    assert_eq!(event.timestamp, 5);
    assert_eq!(event.video_id, video_id);
}

#[test]
fn test_create_too_many_errors_event() {
    let event = create_too_many_errors_event(Id::<YouTubeVideo>::new(), 15, 10);
    assert_eq!(event.failed_count, 15);
    assert_eq!(event.max_failures, 10);
}

#[test]
fn test_create_frames_cleaned_event() {
    let event = create_frames_cleaned_event(
        Id::<YouTubeVideo>::new(),
        "/tmp/frames".to_string(),
        100,
        50_000_000,
    );
    assert_eq!(event.frames_deleted, 100);
    assert_eq!(event.space_freed_bytes, 50_000_000);
}

#[test]
fn test_frames_extracted() {
    let event = FramesExtracted {
        video_id: Id::<YouTubeVideo>::new(),
        total_frames: 100,
        frames_dir: "/tmp/frames".to_string(),
        interval_secs: 5,
        format: "png".to_string(),
    };
    assert_eq!(event.total_frames, 100);
    assert_eq!(event.interval_secs, 5);
    assert_eq!(event.format, "png");
}

#[test]
fn test_frame_extracted() {
    let event = FrameExtracted {
        frame_id: Id::<VideoFrame>::new(),
        video_id: Id::<YouTubeVideo>::new(),
        frame_number: 1,
        timestamp: 0,
        frame_path: "/tmp/frames/frame_0001.png".to_string(),
        width: 1920,
        height: 1080,
    };
    assert_eq!(event.frame_number, 1);
    assert_eq!(event.timestamp, 0);
    assert_eq!(event.width, 1920);
    assert_eq!(event.height, 1080);
}

#[test]
fn test_hash_computed() {
    let event = HashComputed {
        frame_id: Id::<VideoFrame>::new(),
        hash: "a1b2c3d4e5f6".to_string(),
        algorithm: "average".to_string(),
        computation_time_ms: 50,
    };
    assert_eq!(event.hash, "a1b2c3d4e5f6");
    assert_eq!(event.algorithm, "average");
    assert_eq!(event.computation_time_ms, 50);
}

#[test]
fn test_frame_error_occurred() {
    let event = FrameErrorOccurred {
        frame_id: Id::<VideoFrame>::new(),
        error: "Corrupt frame".to_string(),
        timestamp: 10,
        continue_extraction: true,
    };
    assert_eq!(event.error, "Corrupt frame");
    assert_eq!(event.timestamp, 10);
    assert!(event.continue_extraction);
}

#[test]
fn test_too_many_frame_errors() {
    let event = TooManyFrameErrors {
        video_id: Id::<YouTubeVideo>::new(),
        failed_count: 15,
        max_failures: 10,
    };
    assert_eq!(event.failed_count, 15);
    assert_eq!(event.max_failures, 10);
}

#[test]
fn test_temporary_frames_cleaned() {
    let event = TemporaryFramesCleaned {
        video_id: Id::<YouTubeVideo>::new(),
        directory: "/tmp/frames".to_string(),
        frames_deleted: 100,
        space_freed_bytes: 50_000_000,
    };
    assert_eq!(event.frames_deleted, 100);
    assert_eq!(event.space_freed_bytes, 50_000_000);
}

#[test]
fn test_frame_extraction_progress() {
    let progress = FrameExtractionProgress {
        current_frame: 50,
        total_frames: 100,
        current_timestamp: 250,
        estimated_remaining_secs: Some(250),
    };
    assert_eq!(progress.current_frame, 50);
    assert_eq!(progress.total_frames, 100);
    assert_eq!(progress.current_timestamp, 250);
    assert_eq!(progress.estimated_remaining_secs, Some(250));
}

// Sampling a sixty-five second video every five seconds yields thirteen
// frames; an exact division yields no extra frame.
#[test]
fn test_frame_count_rounding() {
    assert_eq!(calculate_total_frames(65, 5), 13);
    assert_eq!(calculate_total_frames(60, 5), 12);
}

#[test]
fn test_extract_frames_command() {
    let id = Id::<YouTubeVideo>::from_value(7);
    let cmd = ExtractFramesCommand {
        video_id: id,
        video_path: "/tmp/video.mp4".to_string(),
        output_dir: "/tmp/frames".to_string(),
        interval_secs: 5,
        output_format: FrameFormat::Png,
        jpeg_quality: None,
    };
    assert_eq!(cmd.video_id.as_value(), 7);
    assert_eq!(cmd.interval_secs, 5);
    assert_eq!(cmd.output_format, FrameFormat::Png);
}

#[test]
fn test_compute_hash_command() {
    let cmd = ComputeHashCommand {
        frame_id: Id::<VideoFrame>::from_value(9),
        frame_path: "/tmp/frame.png".to_string(),
        algorithm: HashAlgorithm::Average,
    };
    assert_eq!(cmd.frame_id.as_value(), 9);
    assert_eq!(cmd.algorithm, HashAlgorithm::Average);
}

#[test]
fn test_handle_frame_error_command() {
    let cmd = HandleFrameErrorCommand {
        frame_id: Id::<VideoFrame>::from_value(3),
        error: "Corrupt frame".to_string(),
        timestamp: 10,
        skipped_count: 1,
        max_skipped: 10,
    };
    assert_eq!(cmd.frame_id.as_value(), 3);
    assert_eq!(cmd.timestamp, 10);
    assert_eq!(cmd.skipped_count, 1);
}

#[test]
fn test_optimize_storage_command() {
    let cmd = OptimizeStorageCommand {
        video_id: Id::<YouTubeVideo>::from_value(4),
        frames_dir: "/tmp/frames".to_string(),
        compress: true,
        compression_quality: Some(85),
        cleanup_temp: true,
    };
    assert_eq!(cmd.video_id.as_value(), 4);
    assert!(cmd.compress);
    assert_eq!(cmd.compression_quality, Some(85));
}
