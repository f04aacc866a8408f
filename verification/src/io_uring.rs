//! File operation settings, file metadata records and per-copy progress
//! tracking.

use vstd::prelude::*;
use std::path::PathBuf;
use std::time::SystemTime;
use crate::error::SyncError;
use vstd::string::StringExecFns;

verus! {

/// Settings for file operations.
#[derive(Debug, Clone, Copy)]
pub struct FileOperations {
    buffer_size: usize,
}

impl FileOperations {
    /// The configured buffer size.
    pub closed spec fn spec_buffer_size(self) -> usize {
        self.buffer_size
    }

    /// Create new file operations; the queue depth is reserved and not used.
    /// A buffer size of 0 is invalid and refused.
    pub fn new(queue_depth: usize, buffer_size: usize) -> (r: Result<Self, SyncError>)
        ensures
            r is Ok <==> buffer_size > 0,
            r matches Ok(ops) ==> ops.spec_buffer_size() == buffer_size,
            r matches Err(e) ==> e is IoUring,
    {
        if buffer_size == 0 {
            return Err(SyncError::IoUring(String::from_str("Invalid buffer size: must be > 0")));
        }
        Ok(FileOperations { buffer_size })
    }

    /// Get the configured buffer size for I/O operations.
    pub fn buffer_size(&self) -> (r: usize)
        ensures
            r == self.spec_buffer_size(),
    {
        self.buffer_size
    }
}

/// Comprehensive file metadata for preservation.
#[derive(Debug, Clone, Copy, PartialEq, Eq)]
pub struct FileMetadata {
    /// File size in bytes.
    pub size: u64,
    /// File permissions (mode bits including special permissions).
    pub permissions: u32,
    /// User ID of the file owner.
    pub uid: u32,
    /// Group ID of the file owner.
    pub gid: u32,
    /// Last modification timestamp.
    pub modified: SystemTime,
    /// Last access timestamp.
    pub accessed: SystemTime,
}

/// Status of a file copy operation.
#[derive(Debug, Clone, PartialEq, Eq)]
pub enum CopyStatus {
    /// Copy operation is pending.
    Pending,
    /// Copy operation is in progress.
    InProgress,
    /// Copy operation completed successfully.
    Completed,
    /// Copy operation failed with an error message.
    Failed(String),
}

/// File copy operation with progress tracking.
#[derive(Debug)]
pub struct CopyOperation {
    /// Source file path.
    pub src_path: PathBuf,
    /// Destination file path.
    pub dst_path: PathBuf,
    /// Total file size in bytes.
    pub file_size: u64,
    /// Number of bytes copied so far.
    pub bytes_copied: u64,
    /// Current copy status.
    pub status: CopyStatus,
}

impl CopyOperation {
    /// Create a new, pending copy operation.
    pub fn new(src: PathBuf, dst: PathBuf, size: u64) -> (op: Self)
        ensures
            op.src_path == src,
            op.dst_path == dst,
            op.file_size == size,
            op.bytes_copied == 0,
            op.status == CopyStatus::Pending,
    {
        CopyOperation { src_path: src, dst_path: dst, file_size: size, bytes_copied: 0, status: CopyStatus::Pending }
    }

    /// Record `bytes` more copied bytes; the copy is completed once the
    /// count reaches the file size, and in progress before.
    pub fn update_progress(&mut self, bytes: u64)
        requires
            old(self).bytes_copied + bytes <= u64::MAX,
        ensures
            final(self).bytes_copied == old(self).bytes_copied + bytes,
            final(self).status == (if final(self).bytes_copied >= old(self).file_size {
                CopyStatus::Completed
            } else {
                CopyStatus::InProgress
            }),
            final(self).file_size == old(self).file_size,
            final(self).src_path == old(self).src_path,
            final(self).dst_path == old(self).dst_path,
    {
        self.bytes_copied = self.bytes_copied + bytes;
        if self.bytes_copied >= self.file_size {
            self.status = CopyStatus::Completed;
        } else {
            self.status = CopyStatus::InProgress;
        }
    }

    /// Mark the copy operation as failed.
    pub fn mark_failed(&mut self, error: String)
        ensures
            final(self).status == CopyStatus::Failed(error),
            final(self).bytes_copied == old(self).bytes_copied,
            final(self).file_size == old(self).file_size,
            final(self).src_path == old(self).src_path,
            final(self).dst_path == old(self).dst_path,
    {
        self.status = CopyStatus::Failed(error);
    }
}

/// Progress only grows: two updates reach the same count and status as one
/// update by their sum.
pub proof fn lemma_progress_updates_compose(file_size: u64, copied: u64, a: u64, b: u64)
    requires
        copied + a + b <= u64::MAX,
    ensures
        (copied + a) + b == copied + (a + b),
        (copied + a + b >= file_size) == ((copied + (a + b)) >= file_size),
        copied + a <= copied + a + b,
{
}

} // verus!
