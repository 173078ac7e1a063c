//! The checkpointed state machine that makes an extraction run resumable.
//!
//! A session's progress is a status that only moves forward through the
//! stage sequence, plus the artifact paths recorded as stages complete.
//! Which stage runs next is a pure function of the status, so a resumed run
//! skips every stage whose target status was already reached; once a path
//! is recorded it is never cleared except by a fresh run.

use vstd::prelude::*;
use crate::availability::VideoMetadata;
use crate::ids::{Id, Session};

verus! {

/// Progress of an extraction session, in strict forward order, with a
/// terminal failure reachable from any non-terminal status.
#[derive(Debug, Clone, PartialEq)]
pub enum SessionStatus {
    Starting,
    MetadataFetched,
    VideoDownloaded,
    FramesExtracted,
    UniqueSlidesIdentified,
    Completed,
    Failed(String),
}

/// One slide as the checkpoint records it.
#[derive(Debug, Clone)]
pub struct SlideState {
    /// One-based position in emission order.
    pub slide_index: u32,
    /// Seconds from video start of the representative frame.
    pub timestamp: u64,
    /// Path of the preserved image.
    pub image_path: String,
}

/// Durable record of a session's progress.
#[derive(Debug, Clone)]
pub struct SessionState {
    /// The session this record belongs to.
    pub session_id: Id<Session>,
    /// How far the run has come.
    pub status: SessionStatus,
    /// Metadata, present from the moment it was fetched.
    pub video_metadata: Option<VideoMetadata>,
    /// Path of the downloaded video, present once downloaded.
    pub video_path: Option<String>,
    /// Directory of sampled frames, present once sampled.
    pub frames_dir: Option<String>,
    /// Directory of preserved slides, present once identified.
    pub slides_dir: Option<String>,
    /// Path of the output document, present once completed.
    pub report_path: Option<String>,
    /// The preserved slides.
    pub slides: Vec<SlideState>,
}

/// One unit of checkpointed pipeline work.
#[derive(Debug, Clone, Copy, PartialEq, Eq, Structural)]
pub enum Stage {
    /// Validate the locator and fetch metadata.
    FetchMetadata,
    /// Download the video file.
    DownloadVideo,
    /// Sample frames at the configured interval.
    ExtractFrames,
    /// Fingerprint, group, and preserve unique slides.
    IdentifySlides,
    /// Recognize text and write the output document.
    GenerateDocument,
}

/// How far forward a status has come; failure is terminal.
pub open spec fn status_rank(s: SessionStatus) -> int {
    match s {
        SessionStatus::Starting => 0,
        SessionStatus::MetadataFetched => 1,
        SessionStatus::VideoDownloaded => 2,
        SessionStatus::FramesExtracted => 3,
        SessionStatus::UniqueSlidesIdentified => 4,
        SessionStatus::Completed => 5,
        SessionStatus::Failed(_) => 6,
    }
}

/// The stage that runs next from a status: each non-terminal status gates
/// exactly one stage; a completed or failed run gates none.
pub open spec fn spec_next_stage(s: SessionStatus) -> Option<Stage> {
    match s {
        SessionStatus::Starting => Some(Stage::FetchMetadata),
        SessionStatus::MetadataFetched => Some(Stage::DownloadVideo),
        SessionStatus::VideoDownloaded => Some(Stage::ExtractFrames),
        SessionStatus::FramesExtracted => Some(Stage::IdentifySlides),
        SessionStatus::UniqueSlidesIdentified => Some(Stage::GenerateDocument),
        SessionStatus::Completed => None,
        SessionStatus::Failed(_) => None,
    }
}

impl SessionState {
    /// Every artifact that the status implies is recorded.
    pub open spec fn wf(self) -> bool {
        &&& (1 <= status_rank(self.status) <= 5 ==> self.video_metadata is Some)
        &&& (2 <= status_rank(self.status) <= 5 ==> self.video_path is Some)
        &&& (3 <= status_rank(self.status) <= 5 ==> self.frames_dir is Some)
        &&& (4 <= status_rank(self.status) <= 5 ==> self.slides_dir is Some)
        &&& (5 == status_rank(self.status) ==> self.report_path is Some)
    }

    /// Whether every artifact the recorded status implies is present.  A
    /// loaded checkpoint that fails this check is inconsistent and should
    /// be treated as no checkpoint at all.
    pub fn check_recorded(&self) -> (r: bool)
        ensures
            r == self.wf(),
    {
        let rank: u64 = match &self.status {
            SessionStatus::Starting => 0,
            SessionStatus::MetadataFetched => 1,
            SessionStatus::VideoDownloaded => 2,
            SessionStatus::FramesExtracted => 3,
            SessionStatus::UniqueSlidesIdentified => 4,
            SessionStatus::Completed => 5,
            SessionStatus::Failed(_) => 6,
        };
        let ok_metadata = !(1 <= rank && rank <= 5) || self.video_metadata.is_some();
        let ok_video = !(2 <= rank && rank <= 5) || self.video_path.is_some();
        let ok_frames = !(3 <= rank && rank <= 5) || self.frames_dir.is_some();
        let ok_slides = !(4 <= rank && rank <= 5) || self.slides_dir.is_some();
        let ok_report = !(rank == 5) || self.report_path.is_some();
        ok_metadata && ok_video && ok_frames && ok_slides && ok_report
    }

    /// A fresh run: nothing fetched, nothing recorded.
    pub fn new(session_id: Id<Session>) -> (r: Self)
        ensures
            r.session_id == session_id,
            r.status is Starting,
            r.video_metadata is None,
            r.video_path is None,
            r.frames_dir is None,
            r.slides_dir is None,
            r.report_path is None,
            r.slides@.len() == 0,
            r.wf(),
    {
        SessionState {
            session_id,
            status: SessionStatus::Starting,
            video_metadata: None,
            video_path: None,
            frames_dir: None,
            slides_dir: None,
            report_path: None,
            slides: Vec::new(),
        }
    }

    /// The stage that runs next, or nothing for a finished run.
    pub fn next_stage(&self) -> (r: Option<Stage>)
        ensures
            r == spec_next_stage(self.status),
    {
        match &self.status {
            SessionStatus::Starting => Some(Stage::FetchMetadata),
            SessionStatus::MetadataFetched => Some(Stage::DownloadVideo),
            SessionStatus::VideoDownloaded => Some(Stage::ExtractFrames),
            SessionStatus::FramesExtracted => Some(Stage::IdentifySlides),
            SessionStatus::UniqueSlidesIdentified => Some(Stage::GenerateDocument),
            SessionStatus::Completed => None,
            SessionStatus::Failed(_) => None,
        }
    }

    /// Records fetched metadata and advances to `MetadataFetched`; nothing
    /// else changes.
    pub fn record_metadata(&mut self, metadata: VideoMetadata)
        requires
            old(self).status is Starting,
            old(self).wf(),
        ensures
            final(self).status is MetadataFetched,
            final(self).video_metadata == Some(metadata),
            final(self).session_id == old(self).session_id,
            final(self).video_path == old(self).video_path,
            final(self).frames_dir == old(self).frames_dir,
            final(self).slides_dir == old(self).slides_dir,
            final(self).report_path == old(self).report_path,
            final(self).slides == old(self).slides,
            final(self).wf(),
    {
        self.video_metadata = Some(metadata);
        self.status = SessionStatus::MetadataFetched;
    }

    /// Records the downloaded video and advances to `VideoDownloaded`;
    /// nothing else changes.
    pub fn record_download(&mut self, video_path: String)
        requires
            old(self).status is MetadataFetched,
            old(self).wf(),
        ensures
            final(self).status is VideoDownloaded,
            final(self).video_path == Some(video_path),
            final(self).session_id == old(self).session_id,
            final(self).video_metadata == old(self).video_metadata,
            final(self).frames_dir == old(self).frames_dir,
            final(self).slides_dir == old(self).slides_dir,
            final(self).report_path == old(self).report_path,
            final(self).slides == old(self).slides,
            final(self).wf(),
    {
        self.video_path = Some(video_path);
        self.status = SessionStatus::VideoDownloaded;
    }

    /// Records the frames directory and advances to `FramesExtracted`;
    /// nothing else changes.
    pub fn record_frames(&mut self, frames_dir: String)
        requires
            old(self).status is VideoDownloaded,
            old(self).wf(),
        ensures
            final(self).status is FramesExtracted,
            final(self).frames_dir == Some(frames_dir),
            final(self).session_id == old(self).session_id,
            final(self).video_metadata == old(self).video_metadata,
            final(self).video_path == old(self).video_path,
            final(self).slides_dir == old(self).slides_dir,
            final(self).report_path == old(self).report_path,
            final(self).slides == old(self).slides,
            final(self).wf(),
    {
        self.frames_dir = Some(frames_dir);
        self.status = SessionStatus::FramesExtracted;
    }

    /// Records the slides directory and the preserved slides, and advances
    /// to `UniqueSlidesIdentified`; nothing else changes.
    pub fn record_slides(&mut self, slides_dir: String, slides: Vec<SlideState>)
        requires
            old(self).status is FramesExtracted,
            old(self).wf(),
        ensures
            final(self).status is UniqueSlidesIdentified,
            final(self).slides_dir == Some(slides_dir),
            final(self).slides == slides,
            final(self).session_id == old(self).session_id,
            final(self).video_metadata == old(self).video_metadata,
            final(self).video_path == old(self).video_path,
            final(self).frames_dir == old(self).frames_dir,
            final(self).report_path == old(self).report_path,
            final(self).wf(),
    {
        self.slides_dir = Some(slides_dir);
        self.slides = slides;
        self.status = SessionStatus::UniqueSlidesIdentified;
    }

    /// Records the output document and advances to `Completed`; nothing
    /// else changes.
    pub fn record_report(&mut self, report_path: String)
        requires
            old(self).status is UniqueSlidesIdentified,
            old(self).wf(),
        ensures
            final(self).status is Completed,
            final(self).report_path == Some(report_path),
            final(self).session_id == old(self).session_id,
            final(self).video_metadata == old(self).video_metadata,
            final(self).video_path == old(self).video_path,
            final(self).frames_dir == old(self).frames_dir,
            final(self).slides_dir == old(self).slides_dir,
            final(self).slides == old(self).slides,
            final(self).wf(),
    {
        self.report_path = Some(report_path);
        self.status = SessionStatus::Completed;
    }

    /// Marks the run as failed with the given reason; every recorded
    /// artifact is kept, so a later run resumes from the last completed
    /// stage.
    pub fn fail(&mut self, reason: String)
        requires
            !(old(self).status is Completed),
            !(old(self).status is Failed),
        ensures
            final(self).status == SessionStatus::Failed(reason),
            final(self).session_id == old(self).session_id,
            final(self).video_metadata == old(self).video_metadata,
            final(self).video_path == old(self).video_path,
            final(self).frames_dir == old(self).frames_dir,
            final(self).slides_dir == old(self).slides_dir,
            final(self).report_path == old(self).report_path,
            final(self).slides == old(self).slides,
            final(self).wf(),
    {
        self.status = SessionStatus::Failed(reason);
    }
}

/// The fixed directory layout of one session, derived deterministically
/// from the output directory and the session identifier.
#[derive(Debug, Clone)]
pub struct SessionPaths {
    /// `{output_dir}/{session token}`.
    pub session_dir: String,
    /// `{session_dir}/frames`.
    pub frames_dir: String,
    /// `{session_dir}/slides`.
    pub slides_dir: String,
    /// `{session_dir}/report.md`.
    pub doc_path: String,
    /// `{session_dir}/session.json`.
    pub state_path: String,
}

/// The session directory a run uses.
pub open spec fn spec_session_dir(output_dir: Seq<char>, session_id: Id<Session>) -> Seq<char> {
    output_dir + "/"@ + crate::ids::hex_fixed(session_id.spec_value() as nat, 32)
}

/// Drives the stage sequence of one extraction run.  The external calls
/// each stage makes happen outside this library; which stage runs next,
/// what each stage records, and where every artifact lies are decided
/// here.
pub struct SessionOrchestrator;

impl SessionOrchestrator {
    /// The deterministic directory layout of a session.
    pub fn session_paths(output_dir: &str, session_id: &Id<Session>) -> (r: SessionPaths)
        ensures
            r.session_dir@ == spec_session_dir(output_dir@, *session_id),
            r.frames_dir@ == spec_session_dir(output_dir@, *session_id) + "/frames"@,
            r.slides_dir@ == spec_session_dir(output_dir@, *session_id) + "/slides"@,
            r.doc_path@ == spec_session_dir(output_dir@, *session_id) + "/report.md"@,
            r.state_path@ == spec_session_dir(output_dir@, *session_id) + "/session.json"@,
    {
        let mut session_dir = String::from_str(output_dir);
        session_dir.append("/");
        let token = session_id.to_hex();
        session_dir.append(token.as_str());

        let mut frames_dir = session_dir.clone();
        frames_dir.append("/frames");
        let mut slides_dir = session_dir.clone();
        slides_dir.append("/slides");
        let mut doc_path = session_dir.clone();
        doc_path.append("/report.md");
        let mut state_path = session_dir.clone();
        state_path.append("/session.json");
        SessionPaths { session_dir, frames_dir, slides_dir, doc_path, state_path }
    }
}

/// A session whose checkpoint records `Completed` gates no further stage:
/// resuming it performs no work and leaves the recorded report path as the
/// result.
pub proof fn lemma_completed_runs_nothing(s: SessionState)
    requires
        s.status is Completed,
    ensures
        spec_next_stage(s.status) is None,
        s.wf() ==> s.report_path is Some,
{
}

/// The status only moves forward: each recording step advances the rank by
/// exactly one stage.
pub proof fn lemma_stage_order()
    ensures
        status_rank(SessionStatus::Starting) < status_rank(SessionStatus::MetadataFetched)
            < status_rank(SessionStatus::VideoDownloaded) < status_rank(
            SessionStatus::FramesExtracted,
        ) < status_rank(SessionStatus::UniqueSlidesIdentified) < status_rank(
            SessionStatus::Completed,
        ),
{
}

} // verus!
