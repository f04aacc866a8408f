//! Errors raised by copy operations.

use vstd::prelude::*;

verus! {

/// An error raised while synchronising files. Each variant carries a
/// human-readable message.
#[derive(Debug, Clone, PartialEq, Eq)]
pub enum SyncError {
    /// A filesystem operation failed.
    FileSystem(String),
    /// An asynchronous I/O submission failed.
    IoUring(String),
    /// The copy itself went wrong (short write, task failure).
    CopyFailed(String),
    /// File descriptors ran out and adaptation is disabled.
    FdExhaustion(String),
    /// A remote-protocol operation failed or is not available.
    Protocol(String),
}

impl SyncError {
    /// The message carried by this error.
    pub open spec fn spec_message(&self) -> Seq<char> {
        match self {
            SyncError::FileSystem(m) => m@,
            SyncError::IoUring(m) => m@,
            SyncError::CopyFailed(m) => m@,
            SyncError::FdExhaustion(m) => m@,
            SyncError::Protocol(m) => m@,
        }
    }

    /// The message carried by this error.
    pub fn message(&self) -> (m: &String)
        ensures
            m@ == self.spec_message(),
    {
        match self {
            SyncError::FileSystem(m) => m,
            SyncError::IoUring(m) => m,
            SyncError::CopyFailed(m) => m,
            SyncError::FdExhaustion(m) => m,
            SyncError::Protocol(m) => m,
        }
    }
}

} // verus!
