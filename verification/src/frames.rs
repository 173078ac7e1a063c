//! Frame sampling: parameter validation, expected frame counts, and the
//! events that the sampling stage emits.

use vstd::prelude::*;
use crate::error::{DomainResult, ExtractionError};
use crate::ids::{Id, VideoFrame, YouTubeVideo};

verus! {

/// Image format of sampled frames.
#[derive(Debug, Clone, Copy, PartialEq, Eq, Structural)]
pub enum FrameFormat {
    /// Lossy compression, smaller files.
    Jpeg,
    /// Lossless compression, larger files.
    Png,
}

/// Perceptual hash algorithm.
#[derive(Debug, Clone, Copy, PartialEq, Eq, Structural)]
pub enum HashAlgorithm {
    /// One bit per cell: cell at or above the mean sample value.
    Average,
    /// One bit per horizontal neighbour pair: left at or above right.
    Difference,
    /// Average hash over a twice-downsampled image.
    Perceptual,
}

/// Request to sample frames from a video at a fixed interval.
#[derive(Debug, Clone)]
pub struct ExtractFramesCommand {
    /// The video to sample.
    pub video_id: Id<YouTubeVideo>,
    /// Path of the video file.
    pub video_path: String,
    /// Directory that receives the sampled frames.
    pub output_dir: String,
    /// Sampling interval in seconds.
    pub interval_secs: u64,
    /// Format of the sampled frames.
    pub output_format: FrameFormat,
    /// Quality from one to one hundred, for the lossy format.
    pub jpeg_quality: Option<u8>,
}

/// Request to fingerprint one sampled frame.
#[derive(Debug, Clone)]
pub struct ComputeHashCommand {
    /// The frame to fingerprint.
    pub frame_id: Id<VideoFrame>,
    /// Path of the frame image.
    pub frame_path: String,
    /// The algorithm to apply.
    pub algorithm: HashAlgorithm,
}

/// Report of one unreadable frame.
#[derive(Debug, Clone)]
pub struct HandleFrameErrorCommand {
    /// The frame that failed.
    pub frame_id: Id<VideoFrame>,
    /// What went wrong.
    pub error: String,
    /// Seconds from video start at which the frame lies.
    pub timestamp: u64,
    /// Frames skipped so far.
    pub skipped_count: u32,
    /// Most frames that may be skipped before the run fails.
    pub max_skipped: u32,
}

/// Request to compact the sampled-frame storage.
#[derive(Debug, Clone)]
pub struct OptimizeStorageCommand {
    /// The video whose frames are compacted.
    pub video_id: Id<YouTubeVideo>,
    /// Directory that holds the frames.
    pub frames_dir: String,
    /// Whether frames are recompressed.
    pub compress: bool,
    /// Quality from one to one hundred for recompression.
    pub compression_quality: Option<u8>,
    /// Whether temporary frames are removed afterwards.
    pub cleanup_temp: bool,
}

/// Event: the sampling stage finished.
#[derive(Debug, Clone)]
pub struct FramesExtracted {
    pub video_id: Id<YouTubeVideo>,
    /// How many frames the stage produced.
    pub total_frames: u32,
    /// Directory that holds them.
    pub frames_dir: String,
    /// Sampling interval in seconds.
    pub interval_secs: u64,
    /// Name of the frame format.
    pub format: String,
}

/// Event: one frame was sampled.
#[derive(Debug, Clone)]
pub struct FrameExtracted {
    pub frame_id: Id<VideoFrame>,
    pub video_id: Id<YouTubeVideo>,
    /// One-based position in sampling order.
    pub frame_number: u32,
    /// Seconds from video start.
    pub timestamp: u64,
    /// Path of the frame image.
    pub frame_path: String,
    /// Width in pixels.
    pub width: u32,
    /// Height in pixels.
    pub height: u32,
}

/// Event: a fingerprint was computed.
#[derive(Debug, Clone)]
pub struct HashComputed {
    pub frame_id: Id<VideoFrame>,
    /// The fingerprint, in hexadecimal digits.
    pub hash: String,
    /// Name of the algorithm used.
    pub algorithm: String,
    /// How long the computation took, in milliseconds.
    pub computation_time_ms: u64,
}

/// Event: a frame could not be read, and whether sampling goes on.
#[derive(Debug, Clone)]
pub struct FrameErrorOccurred {
    pub frame_id: Id<VideoFrame>,
    pub error: String,
    /// Seconds from video start.
    pub timestamp: u64,
    /// Whether the run continues despite the failure.
    pub continue_extraction: bool,
}

/// Event: the skip budget for unreadable frames is exhausted.
#[derive(Debug, Clone)]
pub struct TooManyFrameErrors {
    pub video_id: Id<YouTubeVideo>,
    pub failed_count: u32,
    pub max_failures: u32,
}

/// Event: frame storage was compacted.
#[derive(Debug, Clone)]
pub struct StorageOptimized {
    pub video_id: Id<YouTubeVideo>,
    pub original_size_bytes: u64,
    pub optimized_size_bytes: u64,
    pub frame_count: u32,
    /// Whole percent of space reclaimed.
    pub space_saved_percent: u64,
}

/// Event: temporary frames were removed.
#[derive(Debug, Clone)]
pub struct TemporaryFramesCleaned {
    pub video_id: Id<YouTubeVideo>,
    pub directory: String,
    pub frames_deleted: u32,
    pub space_freed_bytes: u64,
}

/// Progress of the sampling stage.
#[derive(Debug, Clone)]
pub struct FrameExtractionProgress {
    pub current_frame: u32,
    pub total_frames: u32,
    /// Seconds from video start.
    pub current_timestamp: u64,
    pub estimated_remaining_secs: Option<u64>,
}

/// Name under which a frame format is reported.
pub open spec fn spec_format_name(f: FrameFormat) -> Seq<char> {
    match f {
        FrameFormat::Jpeg => "Jpeg"@,
        FrameFormat::Png => "Png"@,
    }
}

impl FrameFormat {
    /// The name under which this format is reported.
    pub fn name(&self) -> (r: &'static str)
        ensures
            r@ == spec_format_name(*self),
    {
        match self {
            FrameFormat::Jpeg => "Jpeg",
            FrameFormat::Png => "Png",
        }
    }
}

/// Name under which a hash algorithm is reported.
pub open spec fn spec_algorithm_name(a: HashAlgorithm) -> Seq<char> {
    match a {
        HashAlgorithm::Average => "Average"@,
        HashAlgorithm::Difference => "Difference"@,
        HashAlgorithm::Perceptual => "Perceptual"@,
    }
}

impl HashAlgorithm {
    /// The name under which this algorithm is reported.
    pub fn name(&self) -> (r: &'static str)
        ensures
            r@ == spec_algorithm_name(*self),
    {
        match self {
            HashAlgorithm::Average => "Average",
            HashAlgorithm::Difference => "Difference",
            HashAlgorithm::Perceptual => "Perceptual",
        }
    }
}

/// Frames sampled when one frame is taken per interval tick and the first
/// tick lies at time zero: `duration / interval + 1`, or zero for a zero
/// interval.
pub open spec fn spec_expected_frames(duration_secs: u64, interval_secs: u64) -> int {
    if interval_secs == 0 {
        0
    } else {
        duration_secs as int / interval_secs as int + 1
    }
}

/// Expected number of sampled frames, counting the frame at time zero.
pub fn calculate_expected_frames(duration_secs: u64, interval_secs: u64) -> (r: u32)
    requires
        spec_expected_frames(duration_secs, interval_secs) <= u32::MAX,
    ensures
        r == spec_expected_frames(duration_secs, interval_secs),
{
    if interval_secs == 0 {
        return 0;
    }
    ((duration_secs / interval_secs) + 1) as u32
}

/// Frames sampled over a whole run: the interval count rounded up, and at
/// least one; zero for a zero interval.
pub open spec fn spec_total_frames(duration_secs: u64, interval_secs: u64) -> int {
    if interval_secs == 0 {
        0
    } else {
        let whole = duration_secs as int / interval_secs as int;
        let rounded = if duration_secs as int % interval_secs as int == 0 {
            whole
        } else {
            whole + 1
        };
        if rounded == 0 {
            1
        } else {
            rounded
        }
    }
}

/// Total number of frames to sample: the duration divided by the interval,
/// rounded up, with a minimum of one.
pub fn calculate_total_frames(duration_sec: u64, interval_secs: u64) -> (r: u32)
    requires
        spec_total_frames(duration_sec, interval_secs) <= u32::MAX,
    ensures
        r == spec_total_frames(duration_sec, interval_secs),
{
    if interval_secs == 0 {
        return 0;
    }
    let mut count: u64 = duration_sec / interval_secs;
    if duration_sec % interval_secs != 0 {
        count = count + 1;
    }
    if count == 0 {
        count = 1;
    }
    count as u32
}

/// Whether sampling parameters are acceptable: an interval between one and
/// sixty seconds, and a quality between one and one hundred when given.
pub open spec fn spec_extraction_params_ok(c: ExtractFramesCommand) -> bool {
    &&& 1 <= c.interval_secs <= 60
    &&& (c.jpeg_quality is Some ==> 1 <= c.jpeg_quality->0 <= 100)
}

/// Validates frame sampling parameters, rejecting an interval outside one
/// to sixty seconds and a quality outside one to one hundred.
pub fn validate_extraction_params(command: &ExtractFramesCommand) -> (r: DomainResult<()>)
    ensures
        r is Ok <==> spec_extraction_params_ok(*command),
        r is Err ==> r->Err_0 is InvalidConfig,
{
    if command.interval_secs < 1 {
        return Err(
            ExtractionError::InvalidConfig(
                String::from_str("Frame interval must be at least 1 second"),
            ),
        );
    }
    if command.interval_secs > 60 {
        return Err(
            ExtractionError::InvalidConfig(
                String::from_str("Frame interval must be at most 60 seconds"),
            ),
        );
    }
    if let Some(quality) = command.jpeg_quality {
        if quality < 1 || quality > 100 {
            return Err(
                ExtractionError::InvalidConfig(
                    String::from_str("JPEG quality must be between 1 and 100"),
                ),
            );
        }
    }
    Ok(())
}

/// Whether fingerprint parameters are acceptable: a grid between eight and
/// sixty-four cells a side.
pub open spec fn spec_hash_params_ok(hash_size: u32) -> bool {
    8 <= hash_size <= 64
}

/// Validates fingerprint parameters, rejecting a grid under eight or over
/// sixty-four cells a side.  Every algorithm accepts any size in range.
pub fn validate_hash_params(algorithm: HashAlgorithm, hash_size: u32) -> (r: DomainResult<()>)
    ensures
        r is Ok <==> spec_hash_params_ok(hash_size),
        r is Err ==> r->Err_0 is InvalidConfig,
{
    if hash_size < 8 {
        return Err(
            ExtractionError::InvalidConfig(
                String::from_str("Hash size must be at least 8x8 pixels"),
            ),
        );
    }
    if hash_size > 64 {
        return Err(
            ExtractionError::InvalidConfig(
                String::from_str("Hash size must be at most 64x64 pixels"),
            ),
        );
    }
    match algorithm {
        HashAlgorithm::Average | HashAlgorithm::Difference | HashAlgorithm::Perceptual => Ok(()),
    }
}

/// Accepts a sampling request, given whether the video file is present on
/// disk, and reports the frame count the stage will produce.  A zero
/// interval is a configuration error; a missing video file is a sampling
/// failure.
pub fn handle_extract_frames(
    command: ExtractFramesCommand,
    duration_sec: u64,
    video_exists: bool,
) -> (r: DomainResult<FramesExtracted>)
    requires
        command.interval_secs > 0 ==> spec_total_frames(duration_sec, command.interval_secs)
            <= u32::MAX,
    ensures
        r is Ok <==> command.interval_secs > 0 && video_exists,
        command.interval_secs == 0 ==> r->Err_0 is InvalidConfig,
        command.interval_secs > 0 && !video_exists ==> r->Err_0 is FrameExtractionFailed,
        r is Ok ==> ({
            let e = r->Ok_0;
            &&& e.video_id == command.video_id
            &&& e.total_frames == spec_total_frames(duration_sec, command.interval_secs)
            &&& e.frames_dir == command.output_dir
            &&& e.interval_secs == command.interval_secs
            &&& e.format@ == spec_format_name(command.output_format)
        }),
{
    if command.interval_secs == 0 {
        return Err(
            ExtractionError::InvalidConfig(
                String::from_str("Frame interval must be greater than 0"),
            ),
        );
    }
    if !video_exists {
        let mut message = String::from_str("Video file not found: ");
        message.append(command.video_path.as_str());
        return Err(ExtractionError::FrameExtractionFailed(message));
    }
    let total_frames = calculate_total_frames(duration_sec, command.interval_secs);
    Ok(
        FramesExtracted {
            video_id: command.video_id,
            total_frames,
            frames_dir: command.output_dir,
            interval_secs: command.interval_secs,
            format: String::from_str(command.output_format.name()),
        },
    )
}

/// Decides whether sampling continues after an unreadable frame: it does
/// exactly while fewer frames were skipped than the configured maximum;
/// otherwise the run fails with the skip budget attached.
pub fn handle_frame_error(command: HandleFrameErrorCommand) -> (r: DomainResult<
    FrameErrorOccurred,
>)
    ensures
        r is Ok <==> command.skipped_count < command.max_skipped,
        r is Ok ==> ({
            let e = r->Ok_0;
            &&& e.frame_id == command.frame_id
            &&& e.error == command.error
            &&& e.timestamp == command.timestamp
            &&& e.continue_extraction
        }),
        r is Err ==> r->Err_0 == (ExtractionError::TooManyCorruptFrames {
            count: command.skipped_count,
            max: command.max_skipped,
        }),
{
    let continue_extraction = command.skipped_count < command.max_skipped;
    if !continue_extraction {
        return Err(
            ExtractionError::TooManyCorruptFrames {
                count: command.skipped_count,
                max: command.max_skipped,
            },
        );
    }
    Ok(
        FrameErrorOccurred {
            frame_id: command.frame_id,
            error: command.error,
            timestamp: command.timestamp,
            continue_extraction,
        },
    )
}

/// Whole percent of space saved by compaction: zero when nothing was there
/// to begin with.
pub open spec fn spec_space_saved_percent(original: u64, optimized: u64) -> int {
    if original == 0 {
        0
    } else {
        let saved = if optimized <= original {
            original - optimized
        } else {
            0
        };
        saved * 100 / original as int
    }
}

/// Summarizes a storage compaction: how many bytes remained, and the whole
/// percent of space reclaimed.
pub fn handle_optimize_storage(
    command: OptimizeStorageCommand,
    original_size_bytes: u64,
    optimized_size_bytes: u64,
    frame_count: u32,
) -> (r: DomainResult<StorageOptimized>)
    ensures
        r is Ok,
        ({
            let e = r->Ok_0;
            &&& e.video_id == command.video_id
            &&& e.original_size_bytes == original_size_bytes
            &&& e.optimized_size_bytes == optimized_size_bytes
            &&& e.frame_count == frame_count
            &&& e.space_saved_percent == spec_space_saved_percent(
                original_size_bytes,
                optimized_size_bytes,
            )
        }),
{
    let space_saved_bytes: u64 = if optimized_size_bytes <= original_size_bytes {
        original_size_bytes - optimized_size_bytes
    } else {
        0
    };
    let space_saved_percent: u64 = if original_size_bytes > 0 {
        let wide: u128 = (space_saved_bytes as u128) * 100 / (original_size_bytes as u128);
        proof {
            assert(wide <= 100) by (nonlinear_arith)
                requires
                    wide == (space_saved_bytes as int) * 100 / (original_size_bytes as int),
                    space_saved_bytes <= original_size_bytes,
                    original_size_bytes > 0,
            ;
        }
        wide as u64
    } else {
        0
    };
    Ok(
        StorageOptimized {
            video_id: command.video_id,
            original_size_bytes,
            optimized_size_bytes,
            frame_count,
            space_saved_percent,
        },
    )
}

/// Builds the event for one sampled frame.
pub fn create_extracted_event(
    frame_id: Id<VideoFrame>,
    video_id: &Id<YouTubeVideo>,
    frame_number: u32,
    timestamp: u64,
    frame_path: String,
    width: u32,
    height: u32,
) -> (r: FrameExtracted)
    ensures
        r == (FrameExtracted {
            frame_id,
            video_id: *video_id,
            frame_number,
            timestamp,
            frame_path,
            width,
            height,
        }),
{
    FrameExtracted {
        frame_id,
        video_id: *video_id,
        frame_number,
        timestamp,
        frame_path,
        width,
        height,
    }
}

/// Builds the event for one sampled frame, taking the video by value.
pub fn create_frame_extracted_event(
    frame_id: Id<VideoFrame>,
    video_id: Id<YouTubeVideo>,
    frame_number: u32,
    timestamp: u64,
    frame_path: String,
    width: u32,
    height: u32,
) -> (r: FrameExtracted)
    ensures
        r == (FrameExtracted { frame_id, video_id, frame_number, timestamp, frame_path, width, height }),
{
    FrameExtracted { frame_id, video_id, frame_number, timestamp, frame_path, width, height }
}

/// Builds the event for an exhausted skip budget.
pub fn create_too_many_errors_event(
    video_id: Id<YouTubeVideo>,
    failed_count: u32,
    max_failures: u32,
) -> (r: TooManyFrameErrors)
    ensures
        r == (TooManyFrameErrors { video_id, failed_count, max_failures }),
{
    TooManyFrameErrors { video_id, failed_count, max_failures }
}

/// Builds the event for a cleaned frames directory.
pub fn create_frames_cleaned_event(
    video_id: Id<YouTubeVideo>,
    directory: String,
    frames_deleted: u32,
    space_freed_bytes: u64,
) -> (r: TemporaryFramesCleaned)
    ensures
        r == (TemporaryFramesCleaned { video_id, directory, frames_deleted, space_freed_bytes }),
{
    TemporaryFramesCleaned { video_id, directory, frames_deleted, space_freed_bytes }
}

} // verus!
