//! Tracking of approximate process memory use against a configured
//! threshold.
//!
//! The current consumption is sampled from the operating environment by
//! the caller and handed in; the peak, the threshold arithmetic, and the
//! advisory and hard-limit decisions are computed here and verified.

use vstd::prelude::*;
use crate::error::{DomainResult, ExtractionError};

verus! {

/// Bytes in one megabyte.
pub const BYTES_PER_MB: u64 = 1048576;

/// Default memory threshold: five hundred megabytes, in bytes.
pub const DEFAULT_THRESHOLD_BYTES: u64 = 524288000;

/// Default advisory threshold, as a whole percent of the hard threshold.
pub const DEFAULT_WARNING_PERCENT: u64 = 80;

/// A snapshot of memory use.
#[derive(Debug, Clone, Copy, PartialEq, Eq, Structural)]
pub struct MemoryUsage {
    /// Current consumption in bytes.
    pub current_bytes: u64,
    /// Highest recorded consumption in bytes.
    pub peak_bytes: u64,
    /// The configured threshold in bytes.
    pub threshold_bytes: u64,
}

impl MemoryUsage {
    /// Current consumption in whole megabytes.
    pub fn current_mb(&self) -> (r: u64)
        ensures
            r == self.current_bytes / BYTES_PER_MB,
    {
        self.current_bytes / BYTES_PER_MB
    }

    /// Highest recorded consumption in whole megabytes.
    pub fn peak_mb(&self) -> (r: u64)
        ensures
            r == self.peak_bytes / BYTES_PER_MB,
    {
        self.peak_bytes / BYTES_PER_MB
    }

    /// The configured threshold in whole megabytes.
    pub fn threshold_mb(&self) -> (r: u64)
        ensures
            r == self.threshold_bytes / BYTES_PER_MB,
    {
        self.threshold_bytes / BYTES_PER_MB
    }
}

/// Tracks peak memory use and decides threshold crossings.
#[derive(Debug, Clone, Copy, PartialEq, Eq, Structural)]
pub struct MemoryMonitor {
    /// Highest recorded consumption in bytes.
    pub peak_bytes: u64,
    /// The hard threshold in bytes.
    pub threshold_bytes: u64,
    /// The advisory threshold, as a whole percent of the hard one.
    pub warning_percent: u64,
}

/// The advisory limit in bytes: the given percent of the threshold.
pub open spec fn spec_warning_bytes(threshold_bytes: u64, warning_percent: u64) -> int {
    threshold_bytes * warning_percent / 100
}

impl MemoryMonitor {
    /// A monitor with the default threshold of five hundred megabytes and
    /// an advisory limit at eighty percent of it.
    pub fn new() -> (r: Self)
        ensures
            r.peak_bytes == 0,
            r.threshold_bytes == DEFAULT_THRESHOLD_BYTES,
            r.warning_percent == DEFAULT_WARNING_PERCENT,
    {
        MemoryMonitor {
            peak_bytes: 0,
            threshold_bytes: DEFAULT_THRESHOLD_BYTES,
            warning_percent: DEFAULT_WARNING_PERCENT,
        }
    }

    /// A monitor with the given threshold in megabytes and advisory
    /// percent; a percent over one hundred is clamped to one hundred.
    pub fn with_threshold(threshold_mb: u64, warning_percent: u64) -> (r: Self)
        requires
            threshold_mb <= u64::MAX / BYTES_PER_MB,
        ensures
            r.peak_bytes == 0,
            r.threshold_bytes == threshold_mb * BYTES_PER_MB,
            r.warning_percent == (if warning_percent <= 100 {
                warning_percent
            } else {
                100u64
            }),
    {
        MemoryMonitor {
            peak_bytes: 0,
            threshold_bytes: threshold_mb * BYTES_PER_MB,
            warning_percent: if warning_percent <= 100 {
                warning_percent
            } else {
                100
            },
        }
    }

    /// Records an observed consumption: the peak never decreases, and
    /// rises exactly to a higher observation.
    pub fn record_usage(&mut self, bytes: u64)
        ensures
            final(self).peak_bytes == (if bytes > old(self).peak_bytes {
                bytes
            } else {
                old(self).peak_bytes
            }),
            final(self).threshold_bytes == old(self).threshold_bytes,
            final(self).warning_percent == old(self).warning_percent,
    {
        if bytes > self.peak_bytes {
            self.peak_bytes = bytes;
        }
    }

    /// A snapshot combining the sampled current consumption with the
    /// recorded peak and the configured threshold.
    pub fn get_usage(&self, current_bytes: u64) -> (r: MemoryUsage)
        ensures
            r == (MemoryUsage {
                current_bytes,
                peak_bytes: self.peak_bytes,
                threshold_bytes: self.threshold_bytes,
            }),
    {
        MemoryUsage {
            current_bytes,
            peak_bytes: self.peak_bytes,
            threshold_bytes: self.threshold_bytes,
        }
    }

    /// Whether the sampled consumption is over the hard threshold.
    pub fn exceeds_threshold(&self, current_bytes: u64) -> (r: bool)
        ensures
            r == (current_bytes > self.threshold_bytes),
    {
        current_bytes > self.threshold_bytes
    }

    /// Whether the sampled consumption is over the advisory limit.
    pub fn approaching_threshold(&self, current_bytes: u64) -> (r: bool)
        ensures
            r == (current_bytes > spec_warning_bytes(self.threshold_bytes, self.warning_percent)),
    {
        proof {
            assert((self.threshold_bytes as int) * (self.warning_percent as int) <= u128::MAX)
                by (nonlinear_arith)
                requires
                    self.threshold_bytes <= u64::MAX,
                    self.warning_percent <= u64::MAX,
            ;
        }
        let warning: u128 = (self.threshold_bytes as u128) * (self.warning_percent as u128) / 100;
        proof {
            assert(warning == spec_warning_bytes(self.threshold_bytes, self.warning_percent));
        }
        (current_bytes as u128) > warning
    }

    /// Accepts the sampled consumption exactly while it does not cross the
    /// hard threshold; a crossing is the reportable memory failure with
    /// both figures in megabytes.
    pub fn validate(&self, current_bytes: u64) -> (r: DomainResult<()>)
        ensures
            r is Ok <==> current_bytes <= self.threshold_bytes,
            r is Err ==> r->Err_0 == (ExtractionError::MemoryThresholdExceeded {
                used: current_bytes / BYTES_PER_MB,
                threshold: self.threshold_bytes / BYTES_PER_MB,
            }),
    {
        if self.exceeds_threshold(current_bytes) {
            let usage = self.get_usage(current_bytes);
            return Err(
                ExtractionError::MemoryThresholdExceeded {
                    used: usage.current_mb(),
                    threshold: usage.threshold_mb(),
                },
            );
        }
        Ok(())
    }

    /// Whether the advisory limit is crossed; the crossing is advisory
    /// only and never a failure.
    pub fn check_and_warn(&self, current_bytes: u64) -> (r: bool)
        ensures
            r == (current_bytes > spec_warning_bytes(self.threshold_bytes, self.warning_percent)),
    {
        self.approaching_threshold(current_bytes)
    }
}

/// Accepts a memory requirement exactly when at least that much is
/// available; both figures in megabytes.
pub fn validate_memory_requirement(required_mb: u64, available_mb: u64) -> (r: DomainResult<()>)
    ensures
        r is Ok <==> available_mb >= required_mb,
        r is Err ==> r->Err_0 == ExtractionError::InsufficientMemory(required_mb),
{
    if available_mb < required_mb {
        return Err(ExtractionError::InsufficientMemory(required_mb));
    }
    Ok(())
}

/// Accepts a memory requirement and hands back a monitor configured with
/// the given threshold, or the default one when none is given.
pub fn check_memory_sufficient(
    required_mb: u64,
    threshold_mb: Option<u64>,
    available_mb: u64,
) -> (r: DomainResult<MemoryMonitor>)
    requires
        threshold_mb is Some ==> threshold_mb->0 <= u64::MAX / BYTES_PER_MB,
    ensures
        r is Ok <==> available_mb >= required_mb,
        r is Err ==> r->Err_0 == ExtractionError::InsufficientMemory(required_mb),
        r is Ok && threshold_mb is Some ==> r->Ok_0.threshold_bytes == threshold_mb->0
            * BYTES_PER_MB && r->Ok_0.warning_percent == DEFAULT_WARNING_PERCENT,
        r is Ok && threshold_mb is None ==> r->Ok_0.threshold_bytes == DEFAULT_THRESHOLD_BYTES
            && r->Ok_0.warning_percent == DEFAULT_WARNING_PERCENT,
{
    if let Err(e) = validate_memory_requirement(required_mb, available_mb) {
        return Err(e);
    }
    let monitor = match threshold_mb {
        Some(threshold) => MemoryMonitor::with_threshold(threshold, DEFAULT_WARNING_PERCENT),
        None => MemoryMonitor::new(),
    };
    Ok(monitor)
}

} // verus!
