//! Validation of video locators: recognized address forms, extraction of
//! the video identifier, and the identifier's format rules.

use vstd::prelude::*;
use crate::error::{DomainResult, ExtractionError};
use crate::ids::{spec_token_hash, Id, YouTubeVideo};
use crate::text::{
    find_sub, segment_after, spec_find, spec_segment, spec_starts_with, spec_take_until,
    starts_with, take_until,
};

verus! {

/// Request to validate one locator.
#[derive(Debug, Clone)]
pub struct ValidateUrlCommand {
    /// The locator to validate.
    pub url: String,
}

/// Request to download one video.
#[derive(Debug, Clone)]
pub struct DownloadVideoCommand {
    /// The video to download.
    pub video_id: Id<YouTubeVideo>,
}

/// Request to verify one video's availability.
#[derive(Debug, Clone)]
pub struct VerifyAvailabilityCommand {
    /// The video to verify.
    pub video_id: Id<YouTubeVideo>,
    /// Its full locator.
    pub url: String,
}

/// Event: a locator was accepted and its video identifier extracted.
#[derive(Debug, Clone)]
pub struct VideoUrlValidated {
    /// The accepted locator.
    pub url: String,
    /// The identifier derived from the embedded video token.
    pub video_id: Id<YouTubeVideo>,
}

/// Event: a video file was downloaded.
#[derive(Debug, Clone)]
pub struct VideoDownloaded {
    pub video_id: Id<YouTubeVideo>,
    /// Path of the downloaded file.
    pub path: String,
    /// Duration in seconds.
    pub duration_sec: u64,
    /// Width in pixels.
    pub width: u32,
    /// Height in pixels.
    pub height: u32,
    /// Size of the file in bytes.
    pub file_size: u64,
}

/// Event: a video's availability was verified.
#[derive(Debug, Clone)]
pub struct VideoAvailabilityVerified {
    pub video_id: Id<YouTubeVideo>,
    pub title: String,
    /// Duration in seconds.
    pub duration: u64,
    pub width: u32,
    pub height: u32,
    pub uploader: String,
    pub upload_date: String,
    pub age_restricted: bool,
}

/// Validates locator shape and extracts video identifiers.
#[derive(Debug, Clone)]
pub struct UrlValidator;

impl UrlValidator {
    /// Builds a validator.
    pub fn new() -> Self {
        UrlValidator
    }
}

/// Downloads video files through the external download tool; the
/// invocation itself happens outside this library, against the
/// deterministic destination that `handle_download_video` names.
#[derive(Debug, Clone)]
pub struct VideoDownloader;

impl VideoDownloader {
    /// Builds a downloader.
    pub fn new() -> Self {
        VideoDownloader
    }
}

/// Position of the first `v` query parameter: the earlier of the first
/// `?v=` and the first `&v=` occurrence, or minus one when neither is
/// present.
pub open spec fn spec_query_v(url: Seq<char>) -> int {
    let q = spec_find(url, "?v="@, 0);
    let a = spec_find(url, "&v="@, 0);
    if q == -1 {
        a
    } else if a == -1 {
        q
    } else if q <= a {
        q
    } else {
        a
    }
}

/// The video token a locator carries: the value of the `v` query
/// parameter where one is present (matched as a query key, so another
/// parameter merely ending in `v=` does not count), else the text after
/// the first recognized path marker; in either case cut at the query
/// separator, and for a path marker also at the marker's next occurrence.
/// A locator with no marker yields the empty sequence.
pub open spec fn spec_extract_video_id(url: Seq<char>) -> Seq<char> {
    if spec_query_v(url) >= 0 {
        spec_take_until(url.subrange(spec_query_v(url) + 3, url.len() as int), '&')
    } else if spec_find(url, "youtu.be/"@, 0) >= 0 {
        spec_take_until(spec_segment(url, "youtu.be/"@), '?')
    } else if spec_find(url, "/embed/"@, 0) >= 0 {
        spec_take_until(spec_segment(url, "/embed/"@), '?')
    } else if spec_find(url, "/shorts/"@, 0) >= 0 {
        spec_take_until(spec_segment(url, "/shorts/"@), '?')
    } else if spec_find(url, "/v/"@, 0) >= 0 {
        spec_take_until(spec_segment(url, "/v/"@), '?')
    } else {
        Seq::empty()
    }
}

/// Extracts the video token from a locator: the `v` query parameter's
/// value where one is present, else the text after the first recognized
/// path marker, cut at the query separator.  A locator with no marker
/// yields the empty string.
pub fn extract_video_id(url: &str) -> (r: String)
    ensures
        r@ == spec_extract_video_id(url@),
{
    let qv: Option<usize> = match (find_sub(url, "?v="), find_sub(url, "&v=")) {
        (None, None) => None,
        (Some(q), None) => Some(q),
        (None, Some(a)) => Some(a),
        (Some(q), Some(a)) => Some(
            if q <= a {
                q
            } else {
                a
            },
        ),
    };
    if let Some(i) = qv {
        proof {
            reveal_strlit("?v=");
            reveal_strlit("&v=");
        }
        let n: usize = url.unicode_len();
        let rest: &str = url.substring_char(i + 3, n);
        return take_until(rest, '&');
    }
    if let Some(seg) = segment_after(url, "youtu.be/") {
        return take_until(seg.as_str(), '?');
    }
    if let Some(seg) = segment_after(url, "/embed/") {
        return take_until(seg.as_str(), '?');
    }
    if let Some(seg) = segment_after(url, "/shorts/") {
        return take_until(seg.as_str(), '?');
    }
    if let Some(seg) = segment_after(url, "/v/") {
        return take_until(seg.as_str(), '?');
    }
    let empty = String::new();
    proof {
        assert(empty@ =~= spec_extract_video_id(url@));
    }
    empty
}

/// The address prefixes under which a locator is recognized.  Only the
/// secure scheme is accepted, deliberately: a plain-scheme locator is
/// rejected rather than silently upgraded.
pub open spec fn spec_is_valid_youtube_url(url: Seq<char>) -> bool {
    ||| spec_starts_with(url, "https://www.youtube.com/"@)
    ||| spec_starts_with(url, "https://youtube.com/"@)
    ||| spec_starts_with(url, "https://m.youtube.com/"@)
    ||| spec_starts_with(url, "https://music.youtube.com/"@)
    ||| spec_starts_with(url, "https://youtu.be/"@)
}

/// Whether the locator carries one of the recognized secure address
/// prefixes.
pub fn is_valid_youtube_url(url: &str) -> (r: bool)
    ensures
        r == spec_is_valid_youtube_url(url@),
{
    starts_with(url, "https://www.youtube.com/") || starts_with(url, "https://youtube.com/")
        || starts_with(url, "https://m.youtube.com/") || starts_with(
        url,
        "https://music.youtube.com/",
    ) || starts_with(url, "https://youtu.be/")
}

/// Characters allowed in a video token: ASCII letters, digits, underscore
/// and hyphen.
pub open spec fn spec_valid_id_char(v: u32) -> bool {
    ||| 48 <= v <= 57
    ||| 65 <= v <= 90
    ||| 97 <= v <= 122
    ||| v == 95
    ||| v == 45
}

/// A well-formed video token: ten to twelve characters, all from the
/// allowed set.
pub open spec fn spec_valid_video_id(s: Seq<char>) -> bool {
    &&& 10 <= s.len() <= 12
    &&& forall|i: int| 0 <= i < s.len() ==> spec_valid_id_char(#[trigger] (s[i] as u32))
}

/// Validates the format of a video token: ten to twelve characters, each
/// an ASCII letter, digit, underscore or hyphen.
pub fn validate_video_id_format(video_id: &str) -> (r: DomainResult<()>)
    ensures
        r is Ok <==> spec_valid_video_id(video_id@),
        r is Err ==> r->Err_0 is InvalidUrl,
{
    let n: usize = video_id.unicode_len();
    if n == 0 {
        return Err(ExtractionError::InvalidUrl(String::from_str("Video ID is empty")));
    }
    if n < 10 || n > 12 {
        return Err(ExtractionError::InvalidUrl(String::from_str("Video ID has invalid length")));
    }
    let mut i: usize = 0;
    while i < n
        invariant
            0 <= i <= n,
            n == video_id@.len(),
            forall|k: int| 0 <= k < i ==> spec_valid_id_char(#[trigger] (video_id@[k] as u32)),
        decreases n - i,
    {
        let v: u32 = video_id.get_char(i) as u32;
        let ok = (48 <= v && v <= 57) || (65 <= v && v <= 90) || (97 <= v && v <= 122) || v == 95
            || v == 45;
        if !ok {
            return Err(
                ExtractionError::InvalidUrl(String::from_str("Video ID has invalid format")),
            );
        }
        i = i + 1;
    }
    Ok(())
}

/// Validates a locator and derives the video's identifier from its token.
/// A locator is accepted exactly when it is non-empty, carries a
/// recognized address prefix, and embeds a well-formed video token.
pub fn validate_video_url(url: &str) -> (r: DomainResult<VideoUrlValidated>)
    ensures
        r is Ok <==> url@.len() > 0 && spec_is_valid_youtube_url(url@) && spec_valid_video_id(
            spec_extract_video_id(url@),
        ),
        r is Err ==> r->Err_0 is InvalidUrl,
        r is Ok ==> r->Ok_0.url@ == url@ && r->Ok_0.video_id.spec_value() == spec_token_hash(
            spec_extract_video_id(url@),
        ),
{
    let n: usize = url.unicode_len();
    if n == 0 {
        return Err(ExtractionError::InvalidUrl(String::from_str("URL is empty")));
    }
    if !is_valid_youtube_url(url) {
        return Err(ExtractionError::InvalidUrl(String::from_str("Not a valid YouTube URL")));
    }
    let video_id_str = extract_video_id(url);
    if video_id_str.as_str().unicode_len() == 0 {
        return Err(
            ExtractionError::InvalidUrl(String::from_str("Could not extract video ID from URL")),
        );
    }
    match validate_video_id_format(video_id_str.as_str()) {
        Err(e) => Err(e),
        Ok(()) => {
            let video_id = Id::<YouTubeVideo>::from_token(video_id_str.as_str());
            Ok(VideoUrlValidated { url: String::from_str(url), video_id })
        },
    }
}

/// Validates the locator named by a command.
pub fn handle_validate_url(command: ValidateUrlCommand) -> (r: DomainResult<VideoUrlValidated>)
    ensures
        r is Ok <==> command.url@.len() > 0 && spec_is_valid_youtube_url(command.url@)
            && spec_valid_video_id(spec_extract_video_id(command.url@)),
        r is Err ==> r->Err_0 is InvalidUrl,
        r is Ok ==> r->Ok_0.url@ == command.url@ && r->Ok_0.video_id.spec_value()
            == spec_token_hash(spec_extract_video_id(command.url@)),
{
    validate_video_url(command.url.as_str())
}

/// Accepts a download request and names the deterministic destination
/// `{output_path}/{video token}.mp4`; an empty output path is a failure.
pub fn handle_download_video(
    command: DownloadVideoCommand,
    output_path: &str,
    duration_sec: u64,
) -> (r: DomainResult<VideoDownloaded>)
    ensures
        r is Ok <==> output_path@.len() > 0,
        r is Err ==> r->Err_0 is DownloadFailed,
        r is Ok ==> ({
            let e = r->Ok_0;
            &&& e.video_id == command.video_id
            &&& e.path@ == output_path@ + "/"@ + crate::ids::hex_fixed(
                command.video_id.spec_value() as nat,
                32,
            ) + ".mp4"@
            &&& e.duration_sec == duration_sec
            &&& e.width == 0
            &&& e.height == 0
            &&& e.file_size == 0
        }),
{
    if output_path.unicode_len() == 0 {
        return Err(
            ExtractionError::DownloadFailed(0, String::from_str("Output path is empty")),
        );
    }
    let mut path = String::from_str(output_path);
    path.append("/");
    let token = command.video_id.to_hex();
    path.append(token.as_str());
    path.append(".mp4");
    Ok(
        VideoDownloaded {
            video_id: command.video_id,
            path,
            duration_sec,
            width: 0,
            height: 0,
            file_size: 0,
        },
    )
}

/// Builds the verification event from fetched metadata.
pub fn handle_verify_availability(
    command: VerifyAvailabilityCommand,
    metadata: crate::availability::VideoMetadata,
) -> (r: DomainResult<VideoAvailabilityVerified>)
    ensures
        r is Ok,
        ({
            let e = r->Ok_0;
            &&& e.video_id == command.video_id
            &&& e.title == metadata.title
            &&& e.duration == metadata.duration
            &&& e.width == metadata.width
            &&& e.height == metadata.height
            &&& e.uploader == metadata.uploader
            &&& e.upload_date == metadata.upload_date
            &&& e.age_restricted == metadata.age_restricted
        }),
{
    Ok(
        VideoAvailabilityVerified {
            video_id: command.video_id,
            title: metadata.title,
            duration: metadata.duration,
            width: metadata.width,
            height: metadata.height,
            uploader: metadata.uploader,
            upload_date: metadata.upload_date,
            age_restricted: metadata.age_restricted,
        },
    )
}

} // verus!
