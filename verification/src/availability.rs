//! Availability policy for a video: duration limits and restriction rules,
//! applied to the metadata that the external metadata collaborator fetched.

use vstd::prelude::*;
use crate::error::{DomainResult, ExtractionError};
use crate::ids::{Id, YouTubeVideo};
use crate::text::{contains_ci, spec_contains_ci};

verus! {

/// Metadata of a video as the external collaborator reports it.
#[derive(Debug)]
pub struct VideoMetadata {
    /// Video title.
    pub title: String,
    /// Duration in seconds.
    pub duration: u64,
    /// Width in pixels.
    pub width: u32,
    /// Height in pixels.
    pub height: u32,
    /// Uploader or channel name.
    pub uploader: String,
    /// Upload date.
    pub upload_date: String,
    /// View count, where reported.
    pub view_count: Option<u64>,
    /// Whether the video is age-restricted.
    pub age_restricted: bool,
}

impl Clone for VideoMetadata {
    fn clone(&self) -> (r: Self)
        ensures
            r == *self,
    {
        VideoMetadata {
            title: self.title.clone(),
            duration: self.duration,
            width: self.width,
            height: self.height,
            uploader: self.uploader.clone(),
            upload_date: self.upload_date.clone(),
            view_count: self.view_count,
            age_restricted: self.age_restricted,
        }
    }
}

/// Availability of a video.
#[derive(Debug, Clone, PartialEq, Eq)]
pub enum AvailabilityStatus {
    /// The video can be fetched.
    Available,
    /// The video is private.
    Private,
    /// The video was removed.
    Deleted,
    /// The video is age-restricted.
    AgeRestricted,
    /// The video is not available in this region.
    RegionLocked,
    /// The video cannot be fetched for another reason.
    Unavailable(String),
}

/// Configuration of the availability check.
#[derive(Debug, Clone, PartialEq, Eq, Structural)]
pub struct AvailabilityCheckerConfig {
    /// Timeout of the check, in seconds.
    pub timeout_secs: u64,
    /// Longest acceptable duration in seconds; zero means no limit.
    pub max_duration: u64,
    /// Shortest acceptable duration in seconds; zero means no limit.
    pub min_duration: u64,
}

/// Default timeout of the availability check, in seconds.
pub const DEFAULT_CHECK_TIMEOUT_SECS: u64 = 5;

/// Default longest acceptable duration: four hours, in seconds.
pub const DEFAULT_MAX_DURATION_SECS: u64 = 14400;

impl Default for AvailabilityCheckerConfig {
    /// The default policy: a five-second check timeout, a four-hour
    /// duration cap, and no lower bound.
    fn default() -> (r: Self)
        ensures
            r == (AvailabilityCheckerConfig {
                timeout_secs: DEFAULT_CHECK_TIMEOUT_SECS,
                max_duration: DEFAULT_MAX_DURATION_SECS,
                min_duration: 0u64,
            }),
    {
        AvailabilityCheckerConfig {
            timeout_secs: DEFAULT_CHECK_TIMEOUT_SECS,
            max_duration: DEFAULT_MAX_DURATION_SECS,
            min_duration: 0,
        }
    }
}

impl AvailabilityCheckerConfig {
    /// The default policy.
    pub fn new() -> (r: Self)
        ensures
            r == (AvailabilityCheckerConfig {
                timeout_secs: DEFAULT_CHECK_TIMEOUT_SECS,
                max_duration: DEFAULT_MAX_DURATION_SECS,
                min_duration: 0u64,
            }),
    {
        AvailabilityCheckerConfig {
            timeout_secs: DEFAULT_CHECK_TIMEOUT_SECS,
            max_duration: DEFAULT_MAX_DURATION_SECS,
            min_duration: 0,
        }
    }

    /// Sets the check timeout, in seconds.
    pub fn timeout(self, timeout_secs: u64) -> (r: Self)
        ensures
            r == (AvailabilityCheckerConfig { timeout_secs, ..self }),
    {
        AvailabilityCheckerConfig { timeout_secs, ..self }
    }

    /// Sets the longest acceptable duration, in seconds.
    pub fn max_duration(self, max_duration: u64) -> (r: Self)
        ensures
            r == (AvailabilityCheckerConfig { max_duration, ..self }),
    {
        AvailabilityCheckerConfig { max_duration, ..self }
    }

    /// Sets the shortest acceptable duration, in seconds.
    pub fn min_duration(self, min_duration: u64) -> (r: Self)
        ensures
            r == (AvailabilityCheckerConfig { min_duration, ..self }),
    {
        AvailabilityCheckerConfig { min_duration, ..self }
    }
}

/// Applies the duration and restriction policy to fetched metadata.
#[derive(Debug, Clone)]
pub struct AvailabilityChecker {
    /// The policy in force.
    pub config: AvailabilityCheckerConfig,
}

impl AvailabilityChecker {
    /// A checker with the default policy.
    pub fn new() -> (r: Self)
        ensures
            r.config == (AvailabilityCheckerConfig {
                timeout_secs: DEFAULT_CHECK_TIMEOUT_SECS,
                max_duration: DEFAULT_MAX_DURATION_SECS,
                min_duration: 0u64,
            }),
    {
        AvailabilityChecker { config: AvailabilityCheckerConfig::new() }
    }

    /// A checker with the given policy.
    pub fn with_config(config: AvailabilityCheckerConfig) -> (r: Self)
        ensures
            r.config == config,
    {
        AvailabilityChecker { config }
    }

    /// Accepts or rejects fetched metadata: too long, too short, or
    /// age-restricted content is rejected, in that order of precedence;
    /// anything else passes through unchanged.
    pub fn check_availability(&self, metadata: VideoMetadata) -> (r: DomainResult<VideoMetadata>)
        ensures
            r is Ok <==> !(self.config.max_duration > 0 && metadata.duration
                > self.config.max_duration) && !(self.config.min_duration > 0 && metadata.duration
                < self.config.min_duration) && !metadata.age_restricted,
            r is Ok ==> r->Ok_0 == metadata,
            self.config.max_duration > 0 && metadata.duration > self.config.max_duration
                ==> r->Err_0 == (ExtractionError::VideoTooLong {
                duration: metadata.duration,
                max: self.config.max_duration,
            }),
            !(self.config.max_duration > 0 && metadata.duration > self.config.max_duration)
                && self.config.min_duration > 0 && metadata.duration < self.config.min_duration
                ==> r->Err_0 is InvalidUrl,
            !(self.config.max_duration > 0 && metadata.duration > self.config.max_duration) && !(
            self.config.min_duration > 0 && metadata.duration < self.config.min_duration)
                && metadata.age_restricted ==> r->Err_0 is VideoAgeRestricted,
    {
        if self.config.max_duration > 0 && metadata.duration > self.config.max_duration {
            return Err(
                ExtractionError::VideoTooLong {
                    duration: metadata.duration,
                    max: self.config.max_duration,
                },
            );
        }
        if self.config.min_duration > 0 && metadata.duration < self.config.min_duration {
            return Err(ExtractionError::InvalidUrl(String::from_str("Video is too short")));
        }
        if metadata.age_restricted {
            return Err(ExtractionError::VideoAgeRestricted);
        }
        Ok(metadata)
    }
}

/// The availability that fetched metadata itself shows: restricted or
/// plainly available.
pub fn status_of_metadata(metadata: &VideoMetadata) -> (r: AvailabilityStatus)
    ensures
        metadata.age_restricted ==> r is AgeRestricted,
        !metadata.age_restricted ==> r is Available,
{
    if metadata.age_restricted {
        AvailabilityStatus::AgeRestricted
    } else {
        AvailabilityStatus::Available
    }
}

/// Whether a diagnostic names a private video.
pub open spec fn mentions_private(s: Seq<char>) -> bool {
    spec_contains_ci(s, "private"@)
}

/// Whether a diagnostic names a removed video.
pub open spec fn mentions_deleted(s: Seq<char>) -> bool {
    ||| spec_contains_ci(s, "deleted"@)
    ||| spec_contains_ci(s, "not found"@)
    ||| spec_contains_ci(s, "unavailable"@)
}

/// Whether a diagnostic names an age restriction.
pub open spec fn mentions_age(s: Seq<char>) -> bool {
    spec_contains_ci(s, "age"@) || spec_contains_ci(s, "sign in"@)
}

/// Whether a diagnostic names a regional restriction.
pub open spec fn mentions_region(s: Seq<char>) -> bool {
    spec_contains_ci(s, "region"@) || spec_contains_ci(s, "country"@)
}

/// Classifies a fetch failure's diagnostic into an availability status, by
/// the words it mentions, in order of precedence: private, then removed,
/// then age-restricted, then region-locked; anything else is unavailable
/// with the diagnostic attached.
pub fn classify_error_message(message: &str) -> (r: AvailabilityStatus)
    ensures
        mentions_private(message@) ==> r is Private,
        !mentions_private(message@) && mentions_deleted(message@) ==> r is Deleted,
        !mentions_private(message@) && !mentions_deleted(message@) && mentions_age(message@)
            ==> r is AgeRestricted,
        !mentions_private(message@) && !mentions_deleted(message@) && !mentions_age(message@)
            && mentions_region(message@) ==> r is RegionLocked,
        !mentions_private(message@) && !mentions_deleted(message@) && !mentions_age(message@)
            && !mentions_region(message@) ==> r is Unavailable && r->Unavailable_0@ == message@,
{
    if contains_ci(message, "private") {
        AvailabilityStatus::Private
    } else if contains_ci(message, "deleted") || contains_ci(message, "not found") || contains_ci(
        message,
        "unavailable",
    ) {
        AvailabilityStatus::Deleted
    } else if contains_ci(message, "age") || contains_ci(message, "sign in") {
        AvailabilityStatus::AgeRestricted
    } else if contains_ci(message, "region") || contains_ci(message, "country") {
        AvailabilityStatus::RegionLocked
    } else {
        AvailabilityStatus::Unavailable(String::from_str(message))
    }
}

/// Whether a fetch tool's diagnostic names a private video.
pub open spec fn stderr_private(s: Seq<char>) -> bool {
    spec_contains_ci(s, "private video"@)
}

/// Whether a fetch tool's diagnostic names a regional restriction.
pub open spec fn stderr_region(s: Seq<char>) -> bool {
    spec_contains_ci(s, "region"@) || spec_contains_ci(s, "geo"@) || spec_contains_ci(
        s,
        "country"@,
    )
}

/// Classifies the diagnostic of a failed metadata fetch into a typed
/// failure, by the words it mentions, in order of precedence: a private
/// video, a removed video, an age restriction, a regional restriction;
/// anything else leaves the video unavailable.
pub fn classify_fetch_stderr(stderr: &str, video_id: Id<YouTubeVideo>) -> (r: ExtractionError)
    ensures
        stderr_private(stderr@) ==> r is VideoPrivate,
        !stderr_private(stderr@) && mentions_deleted(stderr@) ==> r is VideoDeleted,
        !stderr_private(stderr@) && !mentions_deleted(stderr@) && mentions_age(stderr@)
            ==> r is VideoAgeRestricted,
        !stderr_private(stderr@) && !mentions_deleted(stderr@) && !mentions_age(stderr@)
            && stderr_region(stderr@) ==> r is VideoRegionLocked,
        !stderr_private(stderr@) && !mentions_deleted(stderr@) && !mentions_age(stderr@)
            && !stderr_region(stderr@) ==> r == ExtractionError::VideoUnavailable(video_id),
{
    if contains_ci(stderr, "private video") {
        ExtractionError::VideoPrivate
    } else if contains_ci(stderr, "deleted") || contains_ci(stderr, "not found") || contains_ci(
        stderr,
        "unavailable",
    ) {
        ExtractionError::VideoDeleted
    } else if contains_ci(stderr, "age") || contains_ci(stderr, "sign in") {
        ExtractionError::VideoAgeRestricted
    } else if contains_ci(stderr, "region") || contains_ci(stderr, "geo") || contains_ci(
        stderr,
        "country",
    ) {
        ExtractionError::VideoRegionLocked
    } else {
        ExtractionError::VideoUnavailable(video_id)
    }
}

} // verus!
