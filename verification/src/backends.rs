//! Filesystem backends: the local filesystem and remote filesystems reached
//! through a transport.

use vstd::prelude::*;
use std::path::PathBuf;
use std::time::SystemTime;

verus! {

/// Local filesystem backend.
#[derive(Debug, Clone, Copy, PartialEq, Eq)]
pub struct LocalFileSystem;

impl LocalFileSystem {
    /// Create a new local filesystem backend.
    pub fn new() -> (fs: Self)
        ensures
            fs == LocalFileSystem,
    {
        LocalFileSystem
    }
}

impl Default for LocalFileSystem {
    fn default() -> (fs: Self)
        ensures
            fs == LocalFileSystem,
    {
        LocalFileSystem::new()
    }
}

/// Remote filesystem backend that communicates through a transport.
pub struct ProtocolFileSystem<T> {
    transport: T,
}

impl<T> ProtocolFileSystem<T> {
    /// The transport used for communication.
    pub closed spec fn spec_transport(&self) -> T {
        self.transport
    }

    /// Create a backend over `transport`.
    pub fn new(transport: T) -> (fs: Self)
        ensures
            fs.spec_transport() == transport,
    {
        ProtocolFileSystem { transport }
    }

    /// Get a reference to the underlying transport.
    pub fn transport(&self) -> (t: &T)
        ensures
            *t == self.spec_transport(),
    {
        &self.transport
    }

    /// Get a mutable reference to the underlying transport.
    pub fn transport_mut(&mut self) -> (t: &mut T)
        ensures
            *t == old(self).spec_transport(),
            final(self).spec_transport() == *final(t),
    {
        &mut self.transport
    }
}

/// A remote file reached through a transport.
pub struct ProtocolFile<T> {
    transport: T,
    path: PathBuf,
}

impl<T> ProtocolFile<T> {
    /// The remote path.
    pub closed spec fn spec_path(&self) -> PathBuf {
        self.path
    }

    fn new(transport: T, path: PathBuf) -> (f: Self)
        ensures
            f.spec_path() == path,
    {
        ProtocolFile { transport, path }
    }
}

/// A remote directory reached through a transport.
pub struct ProtocolDirectory<T> {
    transport: T,
    path: PathBuf,
}

impl<T> ProtocolDirectory<T> {
    /// The remote path.
    pub closed spec fn spec_path(&self) -> PathBuf {
        self.path
    }

    fn new(transport: T, path: PathBuf) -> (d: Self)
        ensures
            d.spec_path() == path,
    {
        ProtocolDirectory { transport, path }
    }
}

/// An entry of a remote directory.
pub struct ProtocolDirectoryEntry<T> {
    transport: T,
    name: String,
    path: PathBuf,
}

impl<T> ProtocolDirectoryEntry<T> {
    /// The entry's name.
    pub closed spec fn spec_name(&self) -> Seq<char> {
        self.name@
    }

    fn new(transport: T, name: String, path: PathBuf) -> (e: Self)
        ensures
            e.spec_name() == name@,
    {
        ProtocolDirectoryEntry { transport, name, path }
    }

    /// The entry's name.
    pub fn name(&self) -> (r: &String)
        ensures
            r@ == self.spec_name(),
    {
        &self.name
    }
}

/// Metadata of a remote file.
#[derive(Debug, Clone, Copy)]
pub struct ProtocolMetadata {
    size: u64,
    is_file: bool,
    is_dir: bool,
    is_symlink: bool,
    permissions: u32,
    uid: u32,
    gid: u32,
    modified: SystemTime,
    accessed: SystemTime,
    device_id: u64,
    inode_number: u64,
    link_count: u64,
}

impl ProtocolMetadata {
    /// File size in bytes.
    pub closed spec fn spec_size(&self) -> u64 { self.size }
    /// Whether this is a regular file.
    pub closed spec fn spec_is_file(&self) -> bool { self.is_file }
    /// Whether this is a directory.
    pub closed spec fn spec_is_dir(&self) -> bool { self.is_dir }
    /// Whether this is a symlink.
    pub closed spec fn spec_is_symlink(&self) -> bool { self.is_symlink }
    /// Permission bits.
    pub closed spec fn spec_permissions(&self) -> u32 { self.permissions }
    /// Owner.
    pub closed spec fn spec_uid(&self) -> u32 { self.uid }
    /// Group.
    pub closed spec fn spec_gid(&self) -> u32 { self.gid }
    /// Device ID.
    pub closed spec fn spec_device_id(&self) -> u64 { self.device_id }
    /// Inode number.
    pub closed spec fn spec_inode_number(&self) -> u64 { self.inode_number }
    /// Link count.
    pub closed spec fn spec_link_count(&self) -> u64 { self.link_count }
    /// Last modification time.
    pub closed spec fn spec_modified(&self) -> SystemTime { self.modified }
    /// Last access time.
    pub closed spec fn spec_accessed(&self) -> SystemTime { self.accessed }

    /// Create remote file metadata.
    pub fn new(
        size: u64,
        is_file: bool,
        is_dir: bool,
        is_symlink: bool,
        permissions: u32,
        uid: u32,
        gid: u32,
        modified: SystemTime,
        accessed: SystemTime,
        device_id: u64,
        inode_number: u64,
        link_count: u64,
    ) -> (m: Self)
        ensures
            m.spec_size() == size,
            m.spec_is_file() == is_file,
            m.spec_is_dir() == is_dir,
            m.spec_is_symlink() == is_symlink,
            m.spec_permissions() == permissions,
            m.spec_uid() == uid,
            m.spec_gid() == gid,
            m.spec_modified() == modified,
            m.spec_accessed() == accessed,
            m.spec_device_id() == device_id,
            m.spec_inode_number() == inode_number,
            m.spec_link_count() == link_count,
    {
        ProtocolMetadata {
            size,
            is_file,
            is_dir,
            is_symlink,
            permissions,
            uid,
            gid,
            modified,
            accessed,
            device_id,
            inode_number,
            link_count,
        }
    }

    /// File size in bytes.
    pub fn size(&self) -> (r: u64) ensures r == self.spec_size() { self.size }
    /// Whether this is a regular file.
    pub fn is_file(&self) -> (r: bool) ensures r == self.spec_is_file() { self.is_file }
    /// Whether this is a directory.
    pub fn is_dir(&self) -> (r: bool) ensures r == self.spec_is_dir() { self.is_dir }
    /// Whether this is a symlink.
    pub fn is_symlink(&self) -> (r: bool) ensures r == self.spec_is_symlink() { self.is_symlink }
    /// Permission bits.
    pub fn permissions(&self) -> (r: u32) ensures r == self.spec_permissions() { self.permissions }
    /// Owner.
    pub fn uid(&self) -> (r: u32) ensures r == self.spec_uid() { self.uid }
    /// Group.
    pub fn gid(&self) -> (r: u32) ensures r == self.spec_gid() { self.gid }
    /// Last modification time.
    pub fn modified(&self) -> (r: SystemTime) ensures r == self.spec_modified() { self.modified }
    /// Last access time.
    pub fn accessed(&self) -> (r: SystemTime) ensures r == self.spec_accessed() { self.accessed }
    /// Device ID.
    pub fn device_id(&self) -> (r: u64) ensures r == self.spec_device_id() { self.device_id }
    /// Inode number.
    pub fn inode_number(&self) -> (r: u64) ensures r == self.spec_inode_number() { self.inode_number }
    /// Link count.
    pub fn link_count(&self) -> (r: u64) ensures r == self.spec_link_count() { self.link_count }
}

} // verus!
