//! File metadata as returned by `statx`, and its file-type predicates.

use vstd::prelude::*;
use std::time::SystemTime;

verus! {

/// Mask of the file-type bits of a mode.
pub const S_IFMT: u32 = 0o170000;
/// File-type bits of a regular file.
pub const S_IFREG: u32 = 0o100000;
/// File-type bits of a directory.
pub const S_IFDIR: u32 = 0o040000;
/// File-type bits of a symbolic link.
pub const S_IFLNK: u32 = 0o120000;
/// Mask of the permission bits (including setuid, setgid and sticky).
pub const PERMISSION_BITS: u32 = 0o7777;

/// Full file metadata.
#[derive(Debug, Clone, Copy)]
pub struct FileMetadata {
    /// File size in bytes.
    pub size: u64,
    /// File mode (type and permissions).
    pub mode: u32,
    /// User ID of owner.
    pub uid: u32,
    /// Group ID of owner.
    pub gid: u32,
    /// Number of hard links.
    pub nlink: u64,
    /// Inode number.
    pub ino: u64,
    /// Device ID.
    pub dev: u64,
    /// Last access time.
    pub accessed: SystemTime,
    /// Last modification time.
    pub modified: SystemTime,
    /// Creation time, if the filesystem records it.
    pub created: Option<SystemTime>,
    /// Linux file attributes (immutable, append-only, ...), when supported.
    pub attributes: Option<u64>,
    /// Mask of the attributes that are valid.
    pub attributes_mask: Option<u64>,
}

/// The file-type bits of a mode.
pub open spec fn file_type(mode: u32) -> u32 {
    mode & S_IFMT
}

impl FileMetadata {
    /// Check if this is a regular file.
    pub fn is_file(&self) -> (r: bool)
        ensures
            r == (file_type(self.mode) == S_IFREG),
    {
        (self.mode & S_IFMT) == S_IFREG
    }

    /// Check if this is a directory.
    pub fn is_dir(&self) -> (r: bool)
        ensures
            r == (file_type(self.mode) == S_IFDIR),
    {
        (self.mode & S_IFMT) == S_IFDIR
    }

    /// Check if this is a symlink.
    pub fn is_symlink(&self) -> (r: bool)
        ensures
            r == (file_type(self.mode) == S_IFLNK),
    {
        (self.mode & S_IFMT) == S_IFLNK
    }

    /// Get file permissions (`mode & 0o7777`).
    pub fn permissions(&self) -> (r: u32)
        ensures
            r == self.mode & PERMISSION_BITS,
            r <= PERMISSION_BITS,
    {
        let mode = self.mode;
        let r = mode & PERMISSION_BITS;
        assert(mode & 0o7777u32 <= 0o7777u32) by (bit_vector);
        r
    }
}

/// A mode has at most one file type: no entry is both a file and a
/// directory, a file and a symlink, or a directory and a symlink; and the
/// permission bits never change the type.
pub proof fn lemma_file_types_exclusive(mode: u32)
    ensures
        !(file_type(mode) == S_IFREG && file_type(mode) == S_IFDIR),
        !(file_type(mode) == S_IFREG && file_type(mode) == S_IFLNK),
        !(file_type(mode) == S_IFDIR && file_type(mode) == S_IFLNK),
        file_type(mode) == file_type(mode & !PERMISSION_BITS),
{
    assert((mode & 0o170000u32) == ((mode & !0o7777u32) & 0o170000u32)) by (bit_vector);
}

} // verus!
