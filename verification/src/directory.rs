//! Directory copying: entry metadata, copy statistics, and the decisions the
//! traversal takes for each entry it meets.

use vstd::prelude::*;
use crate::file_metadata::{file_type, FileMetadata, S_IFDIR, S_IFLNK, S_IFMT, S_IFREG};
use crate::metadata::MetadataConfig;

verus! {

/// Metadata of a directory entry, as obtained through `statx`.
#[derive(Debug, Clone, Copy)]
pub struct ExtendedMetadata {
    /// The underlying filesystem metadata.
    pub metadata: FileMetadata,
}

impl ExtendedMetadata {
    /// Wrap metadata obtained from `statx`.
    pub fn from_statx(metadata: FileMetadata) -> (m: Self)
        ensures
            m.metadata == metadata,
    {
        ExtendedMetadata { metadata }
    }

    /// Check if this is a directory.
    pub fn is_dir(&self) -> (r: bool)
        ensures
            r == (file_type(self.metadata.mode) == S_IFDIR),
    {
        self.metadata.is_dir()
    }

    /// Check if this is a regular file.
    pub fn is_file(&self) -> (r: bool)
        ensures
            r == (file_type(self.metadata.mode) == S_IFREG),
    {
        self.metadata.is_file()
    }

    /// Check if this is a symlink.
    pub fn is_symlink(&self) -> (r: bool)
        ensures
            r == (file_type(self.metadata.mode) == S_IFLNK),
    {
        self.metadata.is_symlink()
    }

    /// Get file size.
    pub fn len(&self) -> (r: u64)
        ensures
            r == self.metadata.size,
    {
        self.metadata.size
    }

    /// Check if file is empty.
    pub fn is_empty(&self) -> (r: bool)
        ensures
            r == (self.metadata.size == 0),
    {
        self.metadata.size == 0
    }

    /// Get device ID (for filesystem boundary detection).
    pub fn device_id(&self) -> (r: u64)
        ensures
            r == self.metadata.dev,
    {
        self.metadata.dev
    }

    /// Get inode number (for hardlink detection).
    pub fn inode_number(&self) -> (r: u64)
        ensures
            r == self.metadata.ino,
    {
        self.metadata.ino
    }

    /// Get link count (for hardlink detection).
    pub fn link_count(&self) -> (r: u64)
        ensures
            r == self.metadata.nlink,
    {
        self.metadata.nlink
    }
}

/// Directory copy operation statistics.
#[derive(Debug, Default, Clone, Copy, PartialEq, Eq)]
pub struct DirectoryStats {
    /// Total number of files copied.
    pub files_copied: u64,
    /// Total number of directories created.
    pub directories_created: u64,
    /// Total number of bytes copied.
    pub bytes_copied: u64,
    /// Number of symlinks processed.
    pub symlinks_processed: u64,
    /// Number of errors encountered.
    pub errors: u64,
}

/// What the traversal does with an entry of the source tree.
#[derive(Debug, Clone, Copy, PartialEq, Eq)]
pub enum EntryAction {
    /// Create the directory (or accept an existing one), preserve its
    /// metadata and process its children.
    Directory,
    /// Copy a regular file, with hardlink detection.
    File,
    /// Recreate the symlink itself at the destination.
    CopySymlink,
    /// Read the symlink's target and process the target in its place.
    FollowSymlink,
    /// Any other kind of entry (device, socket, fifo) is left alone.
    Skip,
}

/// The action for an entry with mode `mode` under `config`.
pub open spec fn spec_entry_action(mode: u32, config: MetadataConfig) -> EntryAction {
    if file_type(mode) == S_IFDIR {
        EntryAction::Directory
    } else if file_type(mode) == S_IFREG {
        EntryAction::File
    } else if file_type(mode) == S_IFLNK {
        if config.spec_preserve_links() { EntryAction::CopySymlink } else { EntryAction::FollowSymlink }
    } else {
        EntryAction::Skip
    }
}

/// Decide how the traversal handles an entry.
pub fn plan_entry(metadata: &ExtendedMetadata, config: &MetadataConfig) -> (a: EntryAction)
    ensures
        a == spec_entry_action(metadata.metadata.mode, *config),
{
    if metadata.is_dir() {
        EntryAction::Directory
    } else if metadata.is_file() {
        EntryAction::File
    } else if metadata.is_symlink() {
        if config.should_preserve_links() {
            EntryAction::CopySymlink
        } else {
            EntryAction::FollowSymlink
        }
    } else {
        EntryAction::Skip
    }
}

/// What a task does with a regular file once it has registered the file's
/// inode with the hardlink tracker.
#[derive(Debug, Clone, Copy, PartialEq, Eq)]
pub enum FileAction {
    /// First task to meet a hardlinked inode: copy the contents, then signal
    /// the tasks waiting for the copy, whether the copy succeeded or failed,
    /// so that none of them waits for ever.
    CopyAndSignal,
    /// A later task meeting the same inode: after the copy is signalled,
    /// create a hardlink to the first destination.
    LinkToFirstCopy,
    /// A file with a single link: copy it.
    Copy,
}

/// The action for a file: `is_copier` is what registration answered and
/// `link_count` the file's number of links.
pub open spec fn spec_file_action(is_copier: bool, link_count: u64) -> FileAction {
    if is_copier {
        FileAction::CopyAndSignal
    } else if link_count > 1 {
        FileAction::LinkToFirstCopy
    } else {
        FileAction::Copy
    }
}

/// Decide how a regular file is handled after hardlink registration.
pub fn plan_file(is_copier: bool, link_count: u64) -> (a: FileAction)
    ensures
        a == spec_file_action(is_copier, link_count),
{
    if is_copier {
        FileAction::CopyAndSignal
    } else if link_count > 1 {
        FileAction::LinkToFirstCopy
    } else {
        FileAction::Copy
    }
}

/// Directories are entered, regular files copied, symlinks copied as links
/// under `-l` or `-a` and followed otherwise, and every other kind of entry
/// is skipped.
pub proof fn lemma_entry_kinds(mode: u32, config: MetadataConfig)
    ensures
        (mode & S_IFMT) == S_IFDIR ==> spec_entry_action(mode, config) == EntryAction::Directory,
        (mode & S_IFMT) == S_IFREG ==> spec_entry_action(mode, config) == EntryAction::File,
        (mode & S_IFMT) == S_IFLNK && (config.links || config.archive) ==> spec_entry_action(mode, config)
            == EntryAction::CopySymlink,
        (mode & S_IFMT) == S_IFLNK && !config.links && !config.archive ==> spec_entry_action(mode, config)
            == EntryAction::FollowSymlink,
        (mode & S_IFMT) != S_IFDIR && (mode & S_IFMT) != S_IFREG && (mode & S_IFMT) != S_IFLNK
            ==> spec_entry_action(mode, config) == EntryAction::Skip,
{
}

/// The task that registered first copies and signals; every later task
/// meeting a file with more than one link links to the first copy, however
/// many links there are; a single-link file is copied.
pub proof fn lemma_file_action_cases(is_copier: bool, link_count: u64)
    ensures
        is_copier ==> spec_file_action(is_copier, link_count) == FileAction::CopyAndSignal,
        (!is_copier && link_count > 1) ==> spec_file_action(is_copier, link_count) == FileAction::LinkToFirstCopy,
        (!is_copier && link_count <= 1) ==> spec_file_action(is_copier, link_count) == FileAction::Copy,
{
}

/// Once a later task links for some link count, it links for every larger
/// one too.
pub proof fn lemma_linking_is_monotone(link_count: u64, more: u64)
    requires
        link_count <= more,
        spec_file_action(false, link_count) == FileAction::LinkToFirstCopy,
    ensures
        spec_file_action(false, more) == FileAction::LinkToFirstCopy,
{
}

/// Symlinks are followed exactly when links are not preserved, and only
/// symlinks are ever followed or recreated.
pub proof fn lemma_symlink_handling(mode: u32, config: MetadataConfig)
    ensures
        spec_entry_action(mode, config) == EntryAction::FollowSymlink
            <==> (file_type(mode) == S_IFLNK && !config.spec_preserve_links()),
        spec_entry_action(mode, config) == EntryAction::CopySymlink
            <==> (file_type(mode) == S_IFLNK && config.spec_preserve_links()),
{
}

} // verus!
