//! Typed failures of the extraction pipeline, with their classification.
//!
//! Durations are carried as whole seconds, timestamps as whole seconds from
//! video start, and recognition confidences as ten-thousandths (a score of
//! `0.85` is stored as `8500`), so that every value is exact.

use vstd::prelude::*;
use crate::decimal::{dec_digits, dec_digits_pad2, dec_digits_pad4, u64_to_dec, u64_to_dec_pad2, u64_to_dec_pad4};
use crate::ids::{hex_fixed, Id, Session, Slide, VideoFrame, YouTubeVideo};

verus! {

/// Classification of a failure, used to route user-facing messaging.
#[derive(Debug, Clone, Copy, PartialEq, Eq, Structural)]
pub enum ErrorCategory {
    Configuration,
    Network,
    FileSystem,
    ExternalDependency,
    Processing,
    Validation,
    Memory,
    Unknown,
}

/// A failure of the extraction pipeline.
#[derive(Debug, Clone)]
pub enum ExtractionError {
    /// The input locator is not a valid video address.
    InvalidUrl(String),
    /// The video exists but cannot be fetched.
    VideoUnavailable(Id<YouTubeVideo>),
    /// A configuration parameter is out of range or malformed.
    InvalidConfig(String),
    /// The download gave up after the given number of retries.
    DownloadFailed(u8, String),
    /// The frame-sampling collaborator failed.
    FrameExtractionFailed(String),
    /// A fingerprint could not be computed for the given frame.
    HashComputationFailed(Id<VideoFrame>),
    /// Text recognition failed for the given slide.
    OcrFailed(Id<Slide>, String),
    /// The output document could not be produced.
    MarkdownGenerationFailed(String),
    /// Deduplication was asked to group an empty frame sequence.
    NoUniqueSlidesFound,
    /// The output directory exists but cannot be written.
    OutputDirectoryNotWritable(String),
    /// Not enough memory for the operation; the requirement in megabytes.
    InsufficientMemory(u64),
    /// A network operation timed out after the given number of seconds.
    NetworkTimeout(u64),
    /// A required external tool is missing or broken.
    ExternalDependencyUnavailable(String),
    /// The output directory does not exist.
    OutputDirectoryNotFound(String),
    /// The parent of the output directory does not exist.
    ParentDirectoryNotFound(String),
    /// Required and available disk space in megabytes.
    InsufficientDiskSpace(u64, u64),
    /// Access to a resource was denied.
    PermissionDenied(String),
    /// An external tool failed its health check.
    DependencyCheckFailed { name: String, reason: String },
    /// An external tool is older than the required version.
    DependencyVersionMismatch { name: String, required: String, found: String },
    /// Memory use crossed the configured threshold; both in megabytes.
    MemoryThresholdExceeded { used: u64, threshold: u64 },
    /// The video exceeds the configured maximum duration; both in seconds.
    VideoTooLong { duration: u64, max: u64 },
    /// The video is age-restricted.
    VideoAgeRestricted,
    /// The video is not available in this region.
    VideoRegionLocked,
    /// The video was removed by its uploader.
    VideoDeleted,
    /// The video is private.
    VideoPrivate,
    /// No session with the given identifier exists.
    SessionNotFound(Id<Session>),
    /// A persisted session could not be restored.
    SessionRecoveryFailed(String),
    /// A single unreadable frame, at the given timestamp in seconds.
    CorruptFrame { timestamp: u64 },
    /// More frames were skipped than the configured maximum allows.
    TooManyCorruptFrames { count: u32, max: u32 },
    /// Recognition confidence fell below the threshold; both in
    /// ten-thousandths.
    LowOcrConfidence { slide_id: Id<Slide>, confidence: u64, threshold: u64 },
    /// The document template is invalid.
    TemplateError(String),
    /// A defect in the pipeline itself.
    InternalError(String),
    /// A file or directory operation failed.
    FileSystemError(String),
}

/// The category that each failure belongs to.
pub open spec fn spec_category(e: ExtractionError) -> ErrorCategory {
    match e {
        ExtractionError::InvalidUrl(_) => ErrorCategory::Validation,
        ExtractionError::VideoUnavailable(_) => ErrorCategory::Network,
        ExtractionError::InvalidConfig(_) => ErrorCategory::Configuration,
        ExtractionError::DownloadFailed(_, _) => ErrorCategory::Network,
        ExtractionError::FrameExtractionFailed(_) => ErrorCategory::Processing,
        ExtractionError::HashComputationFailed(_) => ErrorCategory::Processing,
        ExtractionError::OcrFailed(_, _) => ErrorCategory::Processing,
        ExtractionError::MarkdownGenerationFailed(_) => ErrorCategory::Processing,
        ExtractionError::NoUniqueSlidesFound => ErrorCategory::Processing,
        ExtractionError::OutputDirectoryNotWritable(_) => ErrorCategory::FileSystem,
        ExtractionError::InsufficientMemory(_) => ErrorCategory::Memory,
        ExtractionError::NetworkTimeout(_) => ErrorCategory::Network,
        ExtractionError::ExternalDependencyUnavailable(_) => ErrorCategory::ExternalDependency,
        ExtractionError::OutputDirectoryNotFound(_) => ErrorCategory::FileSystem,
        ExtractionError::ParentDirectoryNotFound(_) => ErrorCategory::FileSystem,
        ExtractionError::InsufficientDiskSpace(_, _) => ErrorCategory::FileSystem,
        ExtractionError::PermissionDenied(_) => ErrorCategory::FileSystem,
        ExtractionError::DependencyCheckFailed { .. } => ErrorCategory::ExternalDependency,
        ExtractionError::DependencyVersionMismatch { .. } => ErrorCategory::ExternalDependency,
        ExtractionError::MemoryThresholdExceeded { .. } => ErrorCategory::Memory,
        ExtractionError::VideoTooLong { .. } => ErrorCategory::Validation,
        ExtractionError::VideoAgeRestricted => ErrorCategory::Validation,
        ExtractionError::VideoRegionLocked => ErrorCategory::Validation,
        ExtractionError::VideoDeleted => ErrorCategory::Validation,
        ExtractionError::VideoPrivate => ErrorCategory::Validation,
        ExtractionError::SessionNotFound(_) => ErrorCategory::Processing,
        ExtractionError::SessionRecoveryFailed(_) => ErrorCategory::Processing,
        ExtractionError::CorruptFrame { .. } => ErrorCategory::Processing,
        ExtractionError::TooManyCorruptFrames { .. } => ErrorCategory::Processing,
        ExtractionError::LowOcrConfidence { .. } => ErrorCategory::Processing,
        ExtractionError::TemplateError(_) => ErrorCategory::Configuration,
        ExtractionError::InternalError(_) => ErrorCategory::Unknown,
        ExtractionError::FileSystemError(_) => ErrorCategory::FileSystem,
    }
}

impl ExtractionError {
    /// Classifies this failure.
    pub fn category(&self) -> (r: ErrorCategory)
        ensures
            r == spec_category(*self),
    {
        match self {
            ExtractionError::InvalidUrl(_) => ErrorCategory::Validation,
            ExtractionError::VideoUnavailable(_) => ErrorCategory::Network,
            ExtractionError::InvalidConfig(_) => ErrorCategory::Configuration,
            ExtractionError::DownloadFailed(_, _) => ErrorCategory::Network,
            ExtractionError::FrameExtractionFailed(_) => ErrorCategory::Processing,
            ExtractionError::HashComputationFailed(_) => ErrorCategory::Processing,
            ExtractionError::OcrFailed(_, _) => ErrorCategory::Processing,
            ExtractionError::MarkdownGenerationFailed(_) => ErrorCategory::Processing,
            ExtractionError::NoUniqueSlidesFound => ErrorCategory::Processing,
            ExtractionError::OutputDirectoryNotWritable(_) => ErrorCategory::FileSystem,
            ExtractionError::InsufficientMemory(_) => ErrorCategory::Memory,
            ExtractionError::NetworkTimeout(_) => ErrorCategory::Network,
            ExtractionError::ExternalDependencyUnavailable(_) => ErrorCategory::ExternalDependency,
            ExtractionError::OutputDirectoryNotFound(_) => ErrorCategory::FileSystem,
            ExtractionError::ParentDirectoryNotFound(_) => ErrorCategory::FileSystem,
            ExtractionError::InsufficientDiskSpace(_, _) => ErrorCategory::FileSystem,
            ExtractionError::PermissionDenied(_) => ErrorCategory::FileSystem,
            ExtractionError::DependencyCheckFailed { .. } => ErrorCategory::ExternalDependency,
            ExtractionError::DependencyVersionMismatch { .. } => ErrorCategory::ExternalDependency,
            ExtractionError::MemoryThresholdExceeded { .. } => ErrorCategory::Memory,
            ExtractionError::VideoTooLong { .. } => ErrorCategory::Validation,
            ExtractionError::VideoAgeRestricted => ErrorCategory::Validation,
            ExtractionError::VideoRegionLocked => ErrorCategory::Validation,
            ExtractionError::VideoDeleted => ErrorCategory::Validation,
            ExtractionError::VideoPrivate => ErrorCategory::Validation,
            ExtractionError::SessionNotFound(_) => ErrorCategory::Processing,
            ExtractionError::SessionRecoveryFailed(_) => ErrorCategory::Processing,
            ExtractionError::CorruptFrame { .. } => ErrorCategory::Processing,
            ExtractionError::TooManyCorruptFrames { .. } => ErrorCategory::Processing,
            ExtractionError::LowOcrConfidence { .. } => ErrorCategory::Processing,
            ExtractionError::TemplateError(_) => ErrorCategory::Configuration,
            ExtractionError::InternalError(_) => ErrorCategory::Unknown,
            ExtractionError::FileSystemError(_) => ErrorCategory::FileSystem,
        }
    }
}

/// Result type of the pipeline's own operations.
pub type DomainResult<T> = Result<T, ExtractionError>;

/// An identifier as it appears inside a message.
pub open spec fn id_chars(v: u128) -> Seq<char> {
    hex_fixed(v as nat, 32)
}

/// A count as it appears inside a message.
pub open spec fn num_chars(n: int) -> Seq<char> {
    dec_digits(n as nat)
}

/// A confidence in ten-thousandths as it appears inside a message: a unit
/// fraction with four decimal places.
pub open spec fn confidence_chars(c: int) -> Seq<char> {
    dec_digits((c / 10000) as nat) + "."@ + dec_digits_pad4((c % 10000) as nat)
}

/// A confidence in ten-thousandths as a percentage with two decimal
/// places.
pub open spec fn percent_chars(c: int) -> Seq<char> {
    dec_digits((c / 100) as nat) + "."@ + dec_digits_pad2((c % 100) as nat)
}

/// The one-line technical message of each failure.
pub open spec fn spec_short_message(e: ExtractionError) -> Seq<char> {
    match e {
        ExtractionError::InvalidUrl(s) => "Invalid YouTube URL: "@ + s@,
        ExtractionError::VideoUnavailable(id) => "Video ID '"@ + id_chars(id.spec_value())
            + "' is unavailable"@,
        ExtractionError::InvalidConfig(s) => "Invalid configuration: "@ + s@,
        ExtractionError::DownloadFailed(n, s) => "Download failed after "@ + num_chars(n as int)
            + " retries: "@ + s@,
        ExtractionError::FrameExtractionFailed(s) => "Frame extraction failed: "@ + s@,
        ExtractionError::HashComputationFailed(id) => "Hash computation failed for frame "@
            + id_chars(id.spec_value()),
        ExtractionError::OcrFailed(id, s) => "OCR failed for slide "@ + id_chars(id.spec_value())
            + ": "@ + s@,
        ExtractionError::MarkdownGenerationFailed(s) => "Markdown generation failed: "@ + s@,
        ExtractionError::NoUniqueSlidesFound => "No unique slides found"@,
        ExtractionError::OutputDirectoryNotWritable(s) => "Output directory not writable: \""@
            + s@ + "\""@,
        ExtractionError::InsufficientMemory(n) => "Insufficient memory: required "@ + num_chars(
            n as int,
        ) + "MB"@,
        ExtractionError::NetworkTimeout(n) => "Network timeout after "@ + num_chars(n as int)
            + "s"@,
        ExtractionError::ExternalDependencyUnavailable(s) => "External dependency unavailable: "@
            + s@,
        ExtractionError::OutputDirectoryNotFound(s) => "Output directory does not exist: "@ + s@,
        ExtractionError::ParentDirectoryNotFound(s) => "Parent directory does not exist: "@ + s@,
        ExtractionError::InsufficientDiskSpace(required, available) => {
            "Insufficient disk space: required "@ + num_chars(required as int) + "MB, available "@
                + num_chars(available as int) + "MB"@
        },
        ExtractionError::PermissionDenied(s) => "Permission denied: "@ + s@,
        ExtractionError::DependencyCheckFailed { name, reason } => {
            "External dependency check failed: "@ + name@ + " - "@ + reason@
        },
        ExtractionError::DependencyVersionMismatch { name, required, found } => {
            "External dependency version mismatch: "@ + name@ + " - required "@ + required@
                + ", found "@ + found@
        },
        ExtractionError::MemoryThresholdExceeded { used, threshold } => {
            "Memory threshold exceeded: using "@ + num_chars(used as int) + "MB of "@ + num_chars(
                threshold as int,
            ) + "MB limit"@
        },
        ExtractionError::VideoTooLong { duration, max } => {
            "Video too long: "@ + num_chars(duration as int) + " seconds (maximum: "@ + num_chars(
                max as int,
            ) + " seconds)"@
        },
        ExtractionError::VideoAgeRestricted => {
            "Video age-restricted: cannot download age-restricted content"@
        },
        ExtractionError::VideoRegionLocked => {
            "Video region-locked: not available in your region"@
        },
        ExtractionError::VideoDeleted => {
            "Video deleted: the video has been removed by the uploader"@
        },
        ExtractionError::VideoPrivate => "Video private: this video is not publicly available"@,
        ExtractionError::SessionNotFound(id) => "Session not found: "@ + id_chars(
            id.spec_value(),
        ),
        ExtractionError::SessionRecoveryFailed(s) => "Session recovery failed: "@ + s@,
        ExtractionError::CorruptFrame { timestamp } => "Corrupt frame at timestamp "@ + num_chars(
            timestamp as int,
        ) + "s - skipping"@,
        ExtractionError::TooManyCorruptFrames { count, max } => {
            "Too many corrupt frames: "@ + num_chars(count as int)
                + " frames skipped (maximum: "@ + num_chars(max as int) + ")"@
        },
        ExtractionError::LowOcrConfidence { slide_id, confidence, threshold } => {
            "OCR confidence too low for slide "@ + id_chars(slide_id.spec_value()) + ": "@
                + confidence_chars(confidence as int) + " (threshold: "@ + confidence_chars(
                threshold as int,
            ) + ")"@
        },
        ExtractionError::TemplateError(s) => "Template error: "@ + s@,
        ExtractionError::InternalError(s) => "Internal error: "@ + s@,
        ExtractionError::FileSystemError(s) => "File system error: "@ + s@,
    }
}

impl ExtractionError {
    /// The short, one-line technical message of this failure.
    pub fn short_message(&self) -> (r: String)
        ensures
            r@ == spec_short_message(*self),
    {
        match self {
            ExtractionError::InvalidUrl(s) => {
                let mut m = String::from_str("Invalid YouTube URL: ");
                m.append(s.as_str());
                proof {
                    assert(m@ =~= spec_short_message(*self));
                }
                m
            },
            ExtractionError::VideoUnavailable(id) => {
                let mut m = String::from_str("Video ID '");
                let t = id.to_hex();
                m.append(t.as_str());
                m.append("' is unavailable");
                proof {
                    assert(m@ =~= spec_short_message(*self));
                }
                m
            },
            ExtractionError::InvalidConfig(s) => {
                let mut m = String::from_str("Invalid configuration: ");
                m.append(s.as_str());
                proof {
                    assert(m@ =~= spec_short_message(*self));
                }
                m
            },
            ExtractionError::DownloadFailed(n, s) => {
                let mut m = String::from_str("Download failed after ");
                let d = u64_to_dec(*n as u64);
                m.append(d.as_str());
                m.append(" retries: ");
                m.append(s.as_str());
                proof {
                    assert(m@ =~= spec_short_message(*self));
                }
                m
            },
            ExtractionError::FrameExtractionFailed(s) => {
                let mut m = String::from_str("Frame extraction failed: ");
                m.append(s.as_str());
                proof {
                    assert(m@ =~= spec_short_message(*self));
                }
                m
            },
            ExtractionError::HashComputationFailed(id) => {
                let mut m = String::from_str("Hash computation failed for frame ");
                let t = id.to_hex();
                m.append(t.as_str());
                proof {
                    assert(m@ =~= spec_short_message(*self));
                }
                m
            },
            ExtractionError::OcrFailed(id, s) => {
                let mut m = String::from_str("OCR failed for slide ");
                let t = id.to_hex();
                m.append(t.as_str());
                m.append(": ");
                m.append(s.as_str());
                proof {
                    assert(m@ =~= spec_short_message(*self));
                }
                m
            },
            ExtractionError::MarkdownGenerationFailed(s) => {
                let mut m = String::from_str("Markdown generation failed: ");
                m.append(s.as_str());
                proof {
                    assert(m@ =~= spec_short_message(*self));
                }
                m
            },
            ExtractionError::NoUniqueSlidesFound => {
                let m = String::from_str("No unique slides found");
                proof {
                    assert(m@ =~= spec_short_message(*self));
                }
                m
            },
            ExtractionError::OutputDirectoryNotWritable(s) => {
                let mut m = String::from_str("Output directory not writable: \"");
                m.append(s.as_str());
                m.append("\"");
                proof {
                    assert(m@ =~= spec_short_message(*self));
                }
                m
            },
            ExtractionError::InsufficientMemory(n) => {
                let mut m = String::from_str("Insufficient memory: required ");
                let d = u64_to_dec(*n);
                m.append(d.as_str());
                m.append("MB");
                proof {
                    assert(m@ =~= spec_short_message(*self));
                }
                m
            },
            ExtractionError::NetworkTimeout(n) => {
                let mut m = String::from_str("Network timeout after ");
                let d = u64_to_dec(*n);
                m.append(d.as_str());
                m.append("s");
                proof {
                    assert(m@ =~= spec_short_message(*self));
                }
                m
            },
            ExtractionError::ExternalDependencyUnavailable(s) => {
                let mut m = String::from_str("External dependency unavailable: ");
                m.append(s.as_str());
                proof {
                    assert(m@ =~= spec_short_message(*self));
                }
                m
            },
            ExtractionError::OutputDirectoryNotFound(s) => {
                let mut m = String::from_str("Output directory does not exist: ");
                m.append(s.as_str());
                proof {
                    assert(m@ =~= spec_short_message(*self));
                }
                m
            },
            ExtractionError::ParentDirectoryNotFound(s) => {
                let mut m = String::from_str("Parent directory does not exist: ");
                m.append(s.as_str());
                proof {
                    assert(m@ =~= spec_short_message(*self));
                }
                m
            },
            ExtractionError::InsufficientDiskSpace(required, available) => {
                let mut m = String::from_str("Insufficient disk space: required ");
                let d1 = u64_to_dec(*required);
                m.append(d1.as_str());
                m.append("MB, available ");
                let d2 = u64_to_dec(*available);
                m.append(d2.as_str());
                m.append("MB");
                proof {
                    assert(m@ =~= spec_short_message(*self));
                }
                m
            },
            ExtractionError::PermissionDenied(s) => {
                let mut m = String::from_str("Permission denied: ");
                m.append(s.as_str());
                proof {
                    assert(m@ =~= spec_short_message(*self));
                }
                m
            },
            ExtractionError::DependencyCheckFailed { name, reason } => {
                let mut m = String::from_str("External dependency check failed: ");
                m.append(name.as_str());
                m.append(" - ");
                m.append(reason.as_str());
                proof {
                    assert(m@ =~= spec_short_message(*self));
                }
                m
            },
            ExtractionError::DependencyVersionMismatch { name, required, found } => {
                let mut m = String::from_str("External dependency version mismatch: ");
                m.append(name.as_str());
                m.append(" - required ");
                m.append(required.as_str());
                m.append(", found ");
                m.append(found.as_str());
                proof {
                    assert(m@ =~= spec_short_message(*self));
                }
                m
            },
            ExtractionError::MemoryThresholdExceeded { used, threshold } => {
                let mut m = String::from_str("Memory threshold exceeded: using ");
                let d1 = u64_to_dec(*used);
                m.append(d1.as_str());
                m.append("MB of ");
                let d2 = u64_to_dec(*threshold);
                m.append(d2.as_str());
                m.append("MB limit");
                proof {
                    assert(m@ =~= spec_short_message(*self));
                }
                m
            },
            ExtractionError::VideoTooLong { duration, max } => {
                let mut m = String::from_str("Video too long: ");
                let d1 = u64_to_dec(*duration);
                m.append(d1.as_str());
                m.append(" seconds (maximum: ");
                let d2 = u64_to_dec(*max);
                m.append(d2.as_str());
                m.append(" seconds)");
                proof {
                    assert(m@ =~= spec_short_message(*self));
                }
                m
            },
            ExtractionError::VideoAgeRestricted => {
                let m = String::from_str(
                    "Video age-restricted: cannot download age-restricted content",
                );
                proof {
                    assert(m@ =~= spec_short_message(*self));
                }
                m
            },
            ExtractionError::VideoRegionLocked => {
                let m = String::from_str("Video region-locked: not available in your region");
                proof {
                    assert(m@ =~= spec_short_message(*self));
                }
                m
            },
            ExtractionError::VideoDeleted => {
                let m = String::from_str(
                    "Video deleted: the video has been removed by the uploader",
                );
                proof {
                    assert(m@ =~= spec_short_message(*self));
                }
                m
            },
            ExtractionError::VideoPrivate => {
                let m = String::from_str("Video private: this video is not publicly available");
                proof {
                    assert(m@ =~= spec_short_message(*self));
                }
                m
            },
            ExtractionError::SessionNotFound(id) => {
                let mut m = String::from_str("Session not found: ");
                let t = id.to_hex();
                m.append(t.as_str());
                proof {
                    assert(m@ =~= spec_short_message(*self));
                }
                m
            },
            ExtractionError::SessionRecoveryFailed(s) => {
                let mut m = String::from_str("Session recovery failed: ");
                m.append(s.as_str());
                proof {
                    assert(m@ =~= spec_short_message(*self));
                }
                m
            },
            ExtractionError::CorruptFrame { timestamp } => {
                let mut m = String::from_str("Corrupt frame at timestamp ");
                let d = u64_to_dec(*timestamp);
                m.append(d.as_str());
                m.append("s - skipping");
                proof {
                    assert(m@ =~= spec_short_message(*self));
                }
                m
            },
            ExtractionError::TooManyCorruptFrames { count, max } => {
                let mut m = String::from_str("Too many corrupt frames: ");
                let d1 = u64_to_dec(*count as u64);
                m.append(d1.as_str());
                m.append(" frames skipped (maximum: ");
                let d2 = u64_to_dec(*max as u64);
                m.append(d2.as_str());
                m.append(")");
                proof {
                    assert(m@ =~= spec_short_message(*self));
                }
                m
            },
            ExtractionError::LowOcrConfidence { slide_id, confidence, threshold } => {
                let mut m = String::from_str("OCR confidence too low for slide ");
                let t = slide_id.to_hex();
                m.append(t.as_str());
                m.append(": ");
                let c = format_confidence(*confidence);
                m.append(c.as_str());
                m.append(" (threshold: ");
                let th = format_confidence(*threshold);
                m.append(th.as_str());
                m.append(")");
                proof {
                    assert(m@ =~= spec_short_message(*self));
                }
                m
            },
            ExtractionError::TemplateError(s) => {
                let mut m = String::from_str("Template error: ");
                m.append(s.as_str());
                proof {
                    assert(m@ =~= spec_short_message(*self));
                }
                m
            },
            ExtractionError::InternalError(s) => {
                let mut m = String::from_str("Internal error: ");
                m.append(s.as_str());
                proof {
                    assert(m@ =~= spec_short_message(*self));
                }
                m
            },
            ExtractionError::FileSystemError(s) => {
                let mut m = String::from_str("File system error: ");
                m.append(s.as_str());
                proof {
                    assert(m@ =~= spec_short_message(*self));
                }
                m
            },
        }
    }
}

/// The longer, actionable message of each failure: what happened, the
/// likely cause, and a suggested remedy.
pub open spec fn spec_user_message(e: ExtractionError) -> Seq<char> {
    match e {
        ExtractionError::InvalidUrl(url) => "The YouTube URL '"@ + url@
            + "' is invalid. Please ensure you provide a valid YouTube URL (e.g., https://www.youtube.com/watch?v=VIDEO_ID or https://youtu.be/VIDEO_ID)."@,
        ExtractionError::VideoUnavailable(id) => "The video with ID '"@ + id_chars(
            id.spec_value(),
        )
            + "' is unavailable. This could be because the video has been deleted, is private, or has been made unavailable by the uploader."@,
        ExtractionError::InvalidConfig(msg) => "Invalid configuration: "@ + msg@
            + ". Please check your configuration parameters and try again."@,
        ExtractionError::DownloadFailed(retries, reason) => "Failed to download the video after "@
            + num_chars(retries as int) + " retries. Reason: "@ + reason@
            + ". Please check your internet connection and try again. If the problem persists, the video may be unavailable or region-locked."@,
        ExtractionError::FrameExtractionFailed(reason) => {
            "Failed to extract frames from the video: "@ + reason@
                + ". This may be due to a corrupted video file or an issue with FFmpeg. Please ensure FFmpeg is properly installed and try again."@
        },
        ExtractionError::HashComputationFailed(id) => "Failed to compute hash for frame "@
            + id_chars(id.spec_value())
            + ": Image processing error. This is an internal error. Please report this issue if it persists."@,
        ExtractionError::OcrFailed(id, reason) => "OCR failed for slide "@ + id_chars(
            id.spec_value(),
        ) + ": "@ + reason@
            + ". Please ensure Tesseract is properly installed and the required language data is available. The slide image will still be included in the output."@,
        ExtractionError::MarkdownGenerationFailed(reason) => {
            "Failed to generate Markdown document: "@ + reason@
                + ". Please check the output directory permissions and try again."@
        },
        ExtractionError::NoUniqueSlidesFound => {
            "No unique slides were found in the video. This could happen if: 1) The video doesn't contain slides, 2) The similarity threshold is too high, or 3) The frame interval is too large. Try lowering the similarity threshold or reducing the frame extraction interval."@
        },
        ExtractionError::OutputDirectoryNotWritable(dir) => "Cannot write to output directory '"@
            + dir@
            + "'. Please check that you have write permissions for this directory or choose a different output directory."@,
        ExtractionError::InsufficientMemory(n) => {
            "Insufficient memory available. The operation requires approximately "@ + num_chars(
                n as int,
            )
                + "MB of memory. Suggestions: 1) Process a shorter video, 2) Increase the frame extraction interval, or 3) Close other applications to free up memory."@
        },
        ExtractionError::NetworkTimeout(n) => "Network timeout after "@ + num_chars(n as int)
            + "s. Please check your internet connection and try again. If you're on a slow connection, consider increasing the timeout duration."@,
        ExtractionError::ExternalDependencyUnavailable(dep) => "External dependency '"@ + dep@
            + "' is not available. Please ensure it is installed and accessible in your system PATH. See the documentation for installation instructions."@,
        ExtractionError::OutputDirectoryNotFound(dir) => "Output directory '"@ + dir@
            + "' does not exist. Please create this directory or provide a valid output path."@,
        ExtractionError::ParentDirectoryNotFound(dir) => "Parent directory '"@ + dir@
            + "' does not exist. Cannot create output directory. Please ensure the parent directory exists or provide a valid output path."@,
        ExtractionError::InsufficientDiskSpace(required, available) => {
            "Insufficient disk space. Required: "@ + num_chars(required as int)
                + "MB, Available: "@ + num_chars(available as int)
                + "MB. Please free up disk space or choose a different output directory."@
        },
        ExtractionError::PermissionDenied(resource) => "Permission denied: "@ + resource@
            + ". Please ensure you have the necessary permissions to access this resource or try running with elevated privileges."@,
        ExtractionError::DependencyCheckFailed { name, reason } => {
            "External dependency check failed for '"@ + name@ + "': "@ + reason@
                + ". Please ensure the dependency is properly installed and configured. See the documentation for troubleshooting steps."@
        },
        ExtractionError::DependencyVersionMismatch { name, required, found } => {
            "External dependency version mismatch for '"@ + name@ + "': required "@ + required@
                + ", found "@ + found@
                + ". Please install the required version of the dependency."@
        },
        ExtractionError::MemoryThresholdExceeded { used, threshold } => {
            "Memory usage exceeded threshold: using "@ + num_chars(used as int) + "MB of "@
                + num_chars(threshold as int)
                + "MB limit. Suggestions: 1) Process a shorter video, 2) Increase the frame extraction interval, or 3) Increase the memory threshold in configuration."@
        },
        ExtractionError::VideoTooLong { duration, max } => "Video is too long: "@ + num_chars(
            duration as int,
        ) + " seconds (maximum: "@ + num_chars(max as int)
            + " seconds). Please process a shorter video or adjust the maximum duration setting."@,
        ExtractionError::VideoAgeRestricted => {
            "The video is age-restricted and cannot be downloaded. Age-restricted content is not supported. Please try a different video."@
        },
        ExtractionError::VideoRegionLocked => {
            "The video is region-locked and not available in your current region. Please try a different video or use a VPN if applicable."@
        },
        ExtractionError::VideoDeleted => {
            "The video has been deleted by the uploader and is no longer available. Please try a different video."@
        },
        ExtractionError::VideoPrivate => {
            "The video is private and not publicly available. Please try a different video or ensure you have access to the private content."@
        },
        ExtractionError::SessionNotFound(id) => "Session '"@ + id_chars(id.spec_value())
            + "' not found. The session may have expired or the ID is incorrect."@,
        ExtractionError::SessionRecoveryFailed(reason) => "Failed to recover session: "@ + reason@
            + ". Please start a new extraction session."@,
        ExtractionError::CorruptFrame { timestamp } => "Corrupt frame detected at "@ + num_chars(
            timestamp as int,
        )
            + "s. This frame will be skipped. If many frames are corrupt, the video file may be damaged."@,
        ExtractionError::TooManyCorruptFrames { count, max } => "Too many corrupt frames: "@
            + num_chars(count as int) + " frames skipped (maximum allowed: "@ + num_chars(
            max as int,
        ) + "). The video file may be damaged. Please try a different video or re-download."@,
        ExtractionError::LowOcrConfidence { slide_id, confidence, threshold } => {
            "Low OCR confidence for slide "@ + id_chars(slide_id.spec_value()) + ": "@
                + percent_chars(confidence as int) + "% (threshold: "@ + percent_chars(
                threshold as int,
            )
                + "%). The extracted text may be inaccurate. This is indicated in the output with a warning."@
        },
        ExtractionError::TemplateError(reason) => "Template error: "@ + reason@
            + ". Please check your template syntax and ensure it's valid."@,
        ExtractionError::InternalError(msg) => "An internal error occurred: "@ + msg@
            + ". This is likely a bug. Please report this issue with details about what you were doing when it happened."@,
        ExtractionError::FileSystemError(msg) => "A file or directory operation failed: "@ + msg@
            + ". Please check the path and permissions and try again."@,
    }
}

impl ExtractionError {
    /// The longer, actionable message of this failure: what happened, the
    /// likely cause, and a suggested remedy.
    pub fn user_message(&self) -> (r: String)
        ensures
            r@ == spec_user_message(*self),
    {
        match self {
            ExtractionError::InvalidUrl(url) => {
                let mut m = String::from_str("The YouTube URL '");
                m.append(url.as_str());
                m.append(
                    "' is invalid. Please ensure you provide a valid YouTube URL (e.g., https://www.youtube.com/watch?v=VIDEO_ID or https://youtu.be/VIDEO_ID).",
                );
                proof {
                    assert(m@ =~= spec_user_message(*self));
                }
                m
            },
            ExtractionError::VideoUnavailable(id) => {
                let mut m = String::from_str("The video with ID '");
                let t = id.to_hex();
                m.append(t.as_str());
                m.append(
                    "' is unavailable. This could be because the video has been deleted, is private, or has been made unavailable by the uploader.",
                );
                proof {
                    assert(m@ =~= spec_user_message(*self));
                }
                m
            },
            ExtractionError::InvalidConfig(msg) => {
                let mut m = String::from_str("Invalid configuration: ");
                m.append(msg.as_str());
                m.append(". Please check your configuration parameters and try again.");
                proof {
                    assert(m@ =~= spec_user_message(*self));
                }
                m
            },
            ExtractionError::DownloadFailed(retries, reason) => {
                let mut m = String::from_str("Failed to download the video after ");
                let d = u64_to_dec(*retries as u64);
                m.append(d.as_str());
                m.append(" retries. Reason: ");
                m.append(reason.as_str());
                m.append(
                    ". Please check your internet connection and try again. If the problem persists, the video may be unavailable or region-locked.",
                );
                proof {
                    assert(m@ =~= spec_user_message(*self));
                }
                m
            },
            ExtractionError::FrameExtractionFailed(reason) => {
                let mut m = String::from_str("Failed to extract frames from the video: ");
                m.append(reason.as_str());
                m.append(
                    ". This may be due to a corrupted video file or an issue with FFmpeg. Please ensure FFmpeg is properly installed and try again.",
                );
                proof {
                    assert(m@ =~= spec_user_message(*self));
                }
                m
            },
            ExtractionError::HashComputationFailed(id) => {
                let mut m = String::from_str("Failed to compute hash for frame ");
                let t = id.to_hex();
                m.append(t.as_str());
                m.append(
                    ": Image processing error. This is an internal error. Please report this issue if it persists.",
                );
                proof {
                    assert(m@ =~= spec_user_message(*self));
                }
                m
            },
            ExtractionError::OcrFailed(id, reason) => {
                let mut m = String::from_str("OCR failed for slide ");
                let t = id.to_hex();
                m.append(t.as_str());
                m.append(": ");
                m.append(reason.as_str());
                m.append(
                    ". Please ensure Tesseract is properly installed and the required language data is available. The slide image will still be included in the output.",
                );
                proof {
                    assert(m@ =~= spec_user_message(*self));
                }
                m
            },
            ExtractionError::MarkdownGenerationFailed(reason) => {
                let mut m = String::from_str("Failed to generate Markdown document: ");
                m.append(reason.as_str());
                m.append(". Please check the output directory permissions and try again.");
                proof {
                    assert(m@ =~= spec_user_message(*self));
                }
                m
            },
            ExtractionError::NoUniqueSlidesFound => {
                let m = String::from_str(
                    "No unique slides were found in the video. This could happen if: 1) The video doesn't contain slides, 2) The similarity threshold is too high, or 3) The frame interval is too large. Try lowering the similarity threshold or reducing the frame extraction interval.",
                );
                proof {
                    assert(m@ =~= spec_user_message(*self));
                }
                m
            },
            ExtractionError::OutputDirectoryNotWritable(dir) => {
                let mut m = String::from_str("Cannot write to output directory '");
                m.append(dir.as_str());
                m.append(
                    "'. Please check that you have write permissions for this directory or choose a different output directory.",
                );
                proof {
                    assert(m@ =~= spec_user_message(*self));
                }
                m
            },
            ExtractionError::InsufficientMemory(n) => {
                let mut m = String::from_str(
                    "Insufficient memory available. The operation requires approximately ",
                );
                let d = u64_to_dec(*n);
                m.append(d.as_str());
                m.append(
                    "MB of memory. Suggestions: 1) Process a shorter video, 2) Increase the frame extraction interval, or 3) Close other applications to free up memory.",
                );
                proof {
                    assert(m@ =~= spec_user_message(*self));
                }
                m
            },
            ExtractionError::NetworkTimeout(n) => {
                let mut m = String::from_str("Network timeout after ");
                let d = u64_to_dec(*n);
                m.append(d.as_str());
                m.append(
                    "s. Please check your internet connection and try again. If you're on a slow connection, consider increasing the timeout duration.",
                );
                proof {
                    assert(m@ =~= spec_user_message(*self));
                }
                m
            },
            ExtractionError::ExternalDependencyUnavailable(dep) => {
                let mut m = String::from_str("External dependency '");
                m.append(dep.as_str());
                m.append(
                    "' is not available. Please ensure it is installed and accessible in your system PATH. See the documentation for installation instructions.",
                );
                proof {
                    assert(m@ =~= spec_user_message(*self));
                }
                m
            },
            ExtractionError::OutputDirectoryNotFound(dir) => {
                let mut m = String::from_str("Output directory '");
                m.append(dir.as_str());
                m.append(
                    "' does not exist. Please create this directory or provide a valid output path.",
                );
                proof {
                    assert(m@ =~= spec_user_message(*self));
                }
                m
            },
            ExtractionError::ParentDirectoryNotFound(dir) => {
                let mut m = String::from_str("Parent directory '");
                m.append(dir.as_str());
                m.append(
                    "' does not exist. Cannot create output directory. Please ensure the parent directory exists or provide a valid output path.",
                );
                proof {
                    assert(m@ =~= spec_user_message(*self));
                }
                m
            },
            ExtractionError::InsufficientDiskSpace(required, available) => {
                let mut m = String::from_str("Insufficient disk space. Required: ");
                let d1 = u64_to_dec(*required);
                m.append(d1.as_str());
                m.append("MB, Available: ");
                let d2 = u64_to_dec(*available);
                m.append(d2.as_str());
                m.append(
                    "MB. Please free up disk space or choose a different output directory.",
                );
                proof {
                    assert(m@ =~= spec_user_message(*self));
                }
                m
            },
            ExtractionError::PermissionDenied(resource) => {
                let mut m = String::from_str("Permission denied: ");
                m.append(resource.as_str());
                m.append(
                    ". Please ensure you have the necessary permissions to access this resource or try running with elevated privileges.",
                );
                proof {
                    assert(m@ =~= spec_user_message(*self));
                }
                m
            },
            ExtractionError::DependencyCheckFailed { name, reason } => {
                let mut m = String::from_str("External dependency check failed for '");
                m.append(name.as_str());
                m.append("': ");
                m.append(reason.as_str());
                m.append(
                    ". Please ensure the dependency is properly installed and configured. See the documentation for troubleshooting steps.",
                );
                proof {
                    assert(m@ =~= spec_user_message(*self));
                }
                m
            },
            ExtractionError::DependencyVersionMismatch { name, required, found } => {
                let mut m = String::from_str("External dependency version mismatch for '");
                m.append(name.as_str());
                m.append("': required ");
                m.append(required.as_str());
                m.append(", found ");
                m.append(found.as_str());
                m.append(". Please install the required version of the dependency.");
                proof {
                    assert(m@ =~= spec_user_message(*self));
                }
                m
            },
            ExtractionError::MemoryThresholdExceeded { used, threshold } => {
                let mut m = String::from_str("Memory usage exceeded threshold: using ");
                let d1 = u64_to_dec(*used);
                m.append(d1.as_str());
                m.append("MB of ");
                let d2 = u64_to_dec(*threshold);
                m.append(d2.as_str());
                m.append(
                    "MB limit. Suggestions: 1) Process a shorter video, 2) Increase the frame extraction interval, or 3) Increase the memory threshold in configuration.",
                );
                proof {
                    assert(m@ =~= spec_user_message(*self));
                }
                m
            },
            ExtractionError::VideoTooLong { duration, max } => {
                let mut m = String::from_str("Video is too long: ");
                let d1 = u64_to_dec(*duration);
                m.append(d1.as_str());
                m.append(" seconds (maximum: ");
                let d2 = u64_to_dec(*max);
                m.append(d2.as_str());
                m.append(
                    " seconds). Please process a shorter video or adjust the maximum duration setting.",
                );
                proof {
                    assert(m@ =~= spec_user_message(*self));
                }
                m
            },
            ExtractionError::VideoAgeRestricted => {
                let m = String::from_str(
                    "The video is age-restricted and cannot be downloaded. Age-restricted content is not supported. Please try a different video.",
                );
                proof {
                    assert(m@ =~= spec_user_message(*self));
                }
                m
            },
            ExtractionError::VideoRegionLocked => {
                let m = String::from_str(
                    "The video is region-locked and not available in your current region. Please try a different video or use a VPN if applicable.",
                );
                proof {
                    assert(m@ =~= spec_user_message(*self));
                }
                m
            },
            ExtractionError::VideoDeleted => {
                let m = String::from_str(
                    "The video has been deleted by the uploader and is no longer available. Please try a different video.",
                );
                proof {
                    assert(m@ =~= spec_user_message(*self));
                }
                m
            },
            ExtractionError::VideoPrivate => {
                let m = String::from_str(
                    "The video is private and not publicly available. Please try a different video or ensure you have access to the private content.",
                );
                proof {
                    assert(m@ =~= spec_user_message(*self));
                }
                m
            },
            ExtractionError::SessionNotFound(id) => {
                let mut m = String::from_str("Session '");
                let t = id.to_hex();
                m.append(t.as_str());
                m.append("' not found. The session may have expired or the ID is incorrect.");
                proof {
                    assert(m@ =~= spec_user_message(*self));
                }
                m
            },
            ExtractionError::SessionRecoveryFailed(reason) => {
                let mut m = String::from_str("Failed to recover session: ");
                m.append(reason.as_str());
                m.append(". Please start a new extraction session.");
                proof {
                    assert(m@ =~= spec_user_message(*self));
                }
                m
            },
            ExtractionError::CorruptFrame { timestamp } => {
                let mut m = String::from_str("Corrupt frame detected at ");
                let d = u64_to_dec(*timestamp);
                m.append(d.as_str());
                m.append(
                    "s. This frame will be skipped. If many frames are corrupt, the video file may be damaged.",
                );
                proof {
                    assert(m@ =~= spec_user_message(*self));
                }
                m
            },
            ExtractionError::TooManyCorruptFrames { count, max } => {
                let mut m = String::from_str("Too many corrupt frames: ");
                let d1 = u64_to_dec(*count as u64);
                m.append(d1.as_str());
                m.append(" frames skipped (maximum allowed: ");
                let d2 = u64_to_dec(*max as u64);
                m.append(d2.as_str());
                m.append(
                    "). The video file may be damaged. Please try a different video or re-download.",
                );
                proof {
                    assert(m@ =~= spec_user_message(*self));
                }
                m
            },
            ExtractionError::LowOcrConfidence { slide_id, confidence, threshold } => {
                let mut m = String::from_str("Low OCR confidence for slide ");
                let t = slide_id.to_hex();
                m.append(t.as_str());
                m.append(": ");
                let c = format_percent(*confidence);
                m.append(c.as_str());
                m.append("% (threshold: ");
                let th = format_percent(*threshold);
                m.append(th.as_str());
                m.append(
                    "%). The extracted text may be inaccurate. This is indicated in the output with a warning.",
                );
                proof {
                    assert(m@ =~= spec_user_message(*self));
                }
                m
            },
            ExtractionError::TemplateError(reason) => {
                let mut m = String::from_str("Template error: ");
                m.append(reason.as_str());
                m.append(". Please check your template syntax and ensure it's valid.");
                proof {
                    assert(m@ =~= spec_user_message(*self));
                }
                m
            },
            ExtractionError::InternalError(msg) => {
                let mut m = String::from_str("An internal error occurred: ");
                m.append(msg.as_str());
                m.append(
                    ". This is likely a bug. Please report this issue with details about what you were doing when it happened.",
                );
                proof {
                    assert(m@ =~= spec_user_message(*self));
                }
                m
            },
            ExtractionError::FileSystemError(msg) => {
                let mut m = String::from_str("A file or directory operation failed: ");
                m.append(msg.as_str());
                m.append(". Please check the path and permissions and try again.");
                proof {
                    assert(m@ =~= spec_user_message(*self));
                }
                m
            },
        }
    }
}

/// Renders a confidence in ten-thousandths as a unit fraction with four
/// decimal places.
fn format_confidence(c: u64) -> (r: String)
    ensures
        r@ == confidence_chars(c as int),
{
    let mut s = u64_to_dec(c / 10000);
    s.append(".");
    let frac = u64_to_dec_pad4(c % 10000);
    s.append(frac.as_str());
    proof {
        assert(s@ =~= confidence_chars(c as int));
    }
    s
}

/// Renders a confidence in ten-thousandths as a percentage with two
/// decimal places.
fn format_percent(c: u64) -> (r: String)
    ensures
        r@ == percent_chars(c as int),
{
    let mut s = u64_to_dec(c / 100);
    s.append(".");
    let frac = u64_to_dec_pad2(c % 100);
    s.append(frac.as_str());
    proof {
        assert(s@ =~= percent_chars(c as int));
    }
    s
}

} // verus!
