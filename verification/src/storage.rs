//! Disk space accounting for the output directory.
//!
//! Reading the numbers from the operating environment happens outside
//! this library; the unit arithmetic and the sufficiency rule are
//! verified here.

use vstd::prelude::*;
use crate::error::{DomainResult, ExtractionError};
use crate::memory::BYTES_PER_MB;

verus! {

/// A snapshot of disk space.
#[derive(Debug, Clone, Copy, PartialEq, Eq, Structural)]
pub struct DiskSpaceInfo {
    /// Bytes still free.
    pub available_bytes: u64,
    /// Bytes in all.
    pub total_bytes: u64,
}

impl DiskSpaceInfo {
    /// Free space in whole megabytes.
    pub fn available_mb(&self) -> (r: u64)
        ensures
            r == self.available_bytes / BYTES_PER_MB,
    {
        self.available_bytes / BYTES_PER_MB
    }

    /// Total space in whole megabytes.
    pub fn total_mb(&self) -> (r: u64)
        ensures
            r == self.total_bytes / BYTES_PER_MB,
    {
        self.total_bytes / BYTES_PER_MB
    }
}

/// Validates the output directory of a run.  The directory checks
/// themselves touch the file system and happen outside this library; the
/// space rule is decided here.
#[derive(Debug, Clone)]
pub struct OutputDirectoryValidator {
    /// The directory under validation.
    pub output_dir: String,
}

impl OutputDirectoryValidator {
    /// A validator for the given directory.
    pub fn new(output_dir: String) -> (r: Self)
        ensures
            r.output_dir == output_dir,
    {
        OutputDirectoryValidator { output_dir }
    }

    /// Accepts the sampled disk space exactly when at least the required
    /// number of megabytes is free.
    pub fn validate_disk_space(&self, required_mb: u64, space: DiskSpaceInfo) -> (r: DomainResult<
        (),
    >)
        ensures
            r is Ok <==> space.available_bytes / BYTES_PER_MB >= required_mb,
            r is Err ==> r->Err_0 == ExtractionError::InsufficientDiskSpace(
                required_mb,
                space.available_bytes / BYTES_PER_MB,
            ),
    {
        let available_mb = space.available_mb();
        if available_mb < required_mb {
            return Err(ExtractionError::InsufficientDiskSpace(required_mb, available_mb));
        }
        Ok(())
    }
}

} // verus!
