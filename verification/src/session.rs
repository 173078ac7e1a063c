//! Processing sessions: their lifecycle, progress, and metadata.
//!
//! Timestamps are sampled from the environment by the caller and handed
//! in; every state rule and progress computation is verified.

use vstd::prelude::*;
use crate::config::ExtractionConfig;
use crate::error::{DomainResult, ExtractionError};
use crate::ids::{Id, Session};

verus! {

/// Lifecycle of a processing session.
#[derive(Debug, Clone, Copy, PartialEq, Eq, Structural)]
pub enum SessionState {
    /// Created but not started.
    Created,
    /// Actively processing.
    Processing,
    /// Finished successfully.
    Completed,
    /// Finished with an error.
    Failed,
}

impl SessionState {
    /// Whether the session can go no further.
    pub fn is_terminal(&self) -> (r: bool)
        ensures
            r == (*self is Completed || *self is Failed),
    {
        match self {
            SessionState::Completed | SessionState::Failed => true,
            _ => false,
        }
    }

    /// Whether the session can be started.
    pub fn can_start(&self) -> (r: bool)
        ensures
            r == (*self is Created),
    {
        match self {
            SessionState::Created => true,
            _ => false,
        }
    }

    /// Whether the session can move to processing.
    pub fn can_process(&self) -> (r: bool)
        ensures
            r == (*self is Created),
    {
        match self {
            SessionState::Created => true,
            _ => false,
        }
    }

    /// Whether the session can be marked completed.
    pub fn can_complete(&self) -> (r: bool)
        ensures
            r == (*self is Processing),
    {
        match self {
            SessionState::Processing => true,
            _ => false,
        }
    }

    /// Whether the session can be marked failed.
    pub fn can_fail(&self) -> (r: bool)
        ensures
            r == (*self is Created || *self is Processing),
    {
        match self {
            SessionState::Created | SessionState::Processing => true,
            _ => false,
        }
    }
}

/// The part of the work done so far: completed count against a total, with
/// the percentage kept consistent.
#[derive(Debug, Clone)]
pub struct SessionProgress {
    /// The stage under way.
    pub stage: String,
    /// Whole percent complete, zero to one hundred.
    pub percentage: u64,
    /// Items processed so far.
    pub processed: u64,
    /// Items to process in all.
    pub total: u64,
    /// A note on the current operation.
    pub message: Option<String>,
}

/// Whole percent that `processed` of `total` amounts to, capped at one
/// hundred; zero when the total is zero.
pub open spec fn spec_percent(processed: u64, total: u64) -> int {
    if total == 0 {
        0
    } else if processed as int * 100 / total as int > 100 {
        100
    } else {
        processed as int * 100 / total as int
    }
}

impl SessionProgress {
    /// Fresh progress for a stage: nothing processed yet.
    pub fn new(stage: String, total: u64) -> (r: Self)
        ensures
            r.stage == stage,
            r.percentage == 0,
            r.processed == 0,
            r.total == total,
            r.message is None,
    {
        SessionProgress { stage, percentage: 0, processed: 0, total, message: None }
    }

    /// Records progress: the processed count, the recomputed percentage,
    /// and the note.
    pub fn update(&mut self, processed: u64, message: Option<String>)
        ensures
            final(self).processed == processed,
            final(self).percentage == spec_percent(processed, old(self).total),
            final(self).message == message,
            final(self).stage == old(self).stage,
            final(self).total == old(self).total,
    {
        self.processed = processed;
        if self.total > 0 {
            let wide: u128 = (processed as u128) * 100 / (self.total as u128);
            self.percentage = if wide > 100 {
                100
            } else {
                wide as u64
            };
        } else {
            self.percentage = 0;
        }
        self.message = message;
    }

    /// Records one more processed item, saturating at the counter's top.
    pub fn increment(&mut self)
        ensures
            final(self).processed == (if old(self).processed == u64::MAX {
                u64::MAX
            } else {
                (old(self).processed + 1) as u64
            }),
            final(self).percentage == spec_percent(final(self).processed, old(self).total),
            final(self).message is None,
            final(self).stage == old(self).stage,
            final(self).total == old(self).total,
    {
        let next: u64 = if self.processed == u64::MAX {
            u64::MAX
        } else {
            self.processed + 1
        };
        self.update(next, None);
    }
}

/// One processing session, with its configuration, state, and metadata.
#[derive(Debug, Clone)]
pub struct ProcessingSession {
    /// The session's identifier.
    pub id: Id<Session>,
    /// The locator being processed.
    pub youtube_url: String,
    /// The run's configuration.
    pub config: ExtractionConfig,
    /// Where the session stands in its lifecycle.
    pub state: SessionState,
    /// When the session was created, in seconds since the epoch.
    pub created_at: u64,
    /// When it finished, in seconds since the epoch.
    pub completed_at: Option<u64>,
    /// The part of the work done so far.
    pub progress: SessionProgress,
    /// What went wrong, for a failed session.
    pub error_message: Option<String>,
    /// Unique slides found so far.
    pub unique_slides: u64,
    /// Frames processed so far.
    pub frames_processed: u64,
    /// Free-form metadata, the most recent entry per key in force.
    pub metadata: Vec<(String, String)>,
}

/// The value recorded for a key, the most recent entry taking precedence.
pub open spec fn spec_metadata_lookup(entries: Seq<(String, String)>, key: Seq<char>) -> Option<
    String,
>
    decreases entries.len(),
{
    if entries.len() == 0 {
        None
    } else if entries.last().0@ == key {
        Some(entries.last().1)
    } else {
        spec_metadata_lookup(entries.drop_last(), key)
    }
}

impl ProcessingSession {
    /// A fresh session in the created state, stamped with the given
    /// creation time.
    pub fn new(youtube_url: String, config: ExtractionConfig, created_at: u64) -> (r: Self)
        ensures
            r.youtube_url == youtube_url,
            r.config == config,
            r.state is Created,
            r.created_at == created_at,
            r.completed_at is None,
            r.progress.percentage == 0 && r.progress.processed == 0 && r.progress.total == 0,
            r.error_message is None,
            r.unique_slides == 0,
            r.frames_processed == 0,
            r.metadata@.len() == 0,
    {
        ProcessingSession {
            id: Id::new(),
            youtube_url,
            config,
            state: SessionState::Created,
            created_at,
            completed_at: None,
            progress: SessionProgress::new(String::from_str("Initializing"), 0),
            error_message: None,
            unique_slides: 0,
            frames_processed: 0,
            metadata: Vec::new(),
        }
    }

    /// Moves a created session to processing; any other state is a
    /// configuration error and changes nothing.
    pub fn start_processing(&mut self) -> (r: DomainResult<()>)
        ensures
            r is Ok <==> old(self).state is Created,
            r is Ok ==> final(self).state is Processing && final(self).progress.stage@
                == "Processing"@,
            r is Err ==> *final(self) == *old(self) && r->Err_0 is InvalidConfig,
    {
        if !self.state.can_process() {
            return Err(
                ExtractionError::InvalidConfig(
                    String::from_str("Cannot start processing session in this state"),
                ),
            );
        }
        self.state = SessionState::Processing;
        self.progress.stage = String::from_str("Processing");
        Ok(())
    }

    /// Completes a processing session at the given time; any other state
    /// is a configuration error and changes nothing.
    pub fn complete(&mut self, now: u64) -> (r: DomainResult<()>)
        ensures
            r is Ok <==> old(self).state is Processing,
            r is Ok ==> final(self).state is Completed && final(self).completed_at == Some(now)
                && final(self).progress.stage@ == "Completed"@ && final(self).progress.percentage
                == 100,
            r is Err ==> *final(self) == *old(self) && r->Err_0 is InvalidConfig,
    {
        if !self.state.can_complete() {
            return Err(
                ExtractionError::InvalidConfig(
                    String::from_str("Cannot complete session in this state"),
                ),
            );
        }
        self.state = SessionState::Completed;
        self.completed_at = Some(now);
        self.progress.stage = String::from_str("Completed");
        self.progress.percentage = 100;
        Ok(())
    }

    /// Fails a session that has not already finished, at the given time,
    /// recording the reason; a finished session is a configuration error
    /// and changes nothing.
    pub fn fail(&mut self, error_message: String, now: u64) -> (r: DomainResult<()>)
        ensures
            r is Ok <==> (old(self).state is Created || old(self).state is Processing),
            r is Ok ==> final(self).state is Failed && final(self).completed_at == Some(now)
                && final(self).error_message == Some(error_message),
            r is Err ==> *final(self) == *old(self) && r->Err_0 is InvalidConfig,
    {
        if !self.state.can_fail() {
            return Err(
                ExtractionError::InvalidConfig(
                    String::from_str("Cannot fail session in this state"),
                ),
            );
        }
        self.state = SessionState::Failed;
        self.error_message = Some(error_message);
        self.completed_at = Some(now);
        Ok(())
    }

    /// Records the stage, totals, and note of the work under way.
    pub fn update_progress(
        &mut self,
        stage: String,
        processed: u64,
        total: u64,
        message: Option<String>,
    )
        ensures
            final(self).progress.stage == stage,
            final(self).progress.total == total,
            final(self).progress.processed == processed,
            final(self).progress.percentage == spec_percent(processed, total),
            final(self).progress.message == message,
            final(self).state == old(self).state,
    {
        self.progress.stage = stage;
        self.progress.total = total;
        self.progress.update(processed, message);
    }

    /// Records a metadata entry; the most recent entry per key is the one
    /// in force.
    pub fn set_metadata(&mut self, key: String, value: String)
        ensures
            final(self).metadata@ == old(self).metadata@.push((key, value)),
    {
        self.metadata.push((key, value));
    }

    /// The value recorded for a key, if any.
    pub fn get_metadata(&self, key: &str) -> (r: Option<String>)
        ensures
            r == spec_metadata_lookup(self.metadata@, key@),
    {
        let mut k: usize = self.metadata.len();
        proof {
            assert(self.metadata@.subrange(0, self.metadata@.len() as int) =~= self.metadata@);
        }
        while k > 0
            invariant
                0 <= k <= self.metadata@.len(),
                spec_metadata_lookup(self.metadata@, key@) == spec_metadata_lookup(
                    self.metadata@.subrange(0, k as int),
                    key@,
                ),
            decreases k,
        {
            let entry = &self.metadata[k - 1];
            proof {
                assert(self.metadata@.subrange(0, k as int).last() == self.metadata@[k - 1]);
                assert(self.metadata@.subrange(0, k as int).drop_last()
                    =~= self.metadata@.subrange(0, k - 1));
            }
            if crate::text::str_eq(entry.0.as_str(), key) {
                return Some(entry.1.clone());
            }
            k = k - 1;
        }
        proof {
            assert(self.metadata@.subrange(0, 0) =~= Seq::<(String, String)>::empty());
        }
        None
    }

    /// Seconds the session has run: from creation to completion, or to the
    /// given current time while it is still active; never negative.
    pub fn duration(&self, now: u64) -> (r: u64)
        ensures
            ({
                let end = if self.completed_at is Some {
                    self.completed_at->0
                } else {
                    now
                };
                r == (if end >= self.created_at {
                    end - self.created_at
                } else {
                    0int
                })
            }),
    {
        let end: u64 = match self.completed_at {
            Some(t) => t,
            None => now,
        };
        if end >= self.created_at {
            end - self.created_at
        } else {
            0
        }
    }
}

} // verus!
