use arsync::directory::{plan_entry, plan_file, DirectoryStats, EntryAction, ExtendedMetadata, FileAction};
use arsync::file_metadata::FileMetadata;
use arsync::metadata::MetadataConfig;
use std::time::SystemTime;

fn meta(mode: u32, size: u64, nlink: u64) -> FileMetadata {
    FileMetadata {
        size,
        mode,
        uid: 1000,
        gid: 100,
        nlink,
        ino: 77,
        dev: 3,
        accessed: SystemTime::UNIX_EPOCH,
        modified: SystemTime::UNIX_EPOCH,
        created: None,
        attributes: None,
        attributes_mask: None,
    }
}

fn config(links: bool) -> MetadataConfig {
    MetadataConfig {
        archive: false,
        recursive: false,
        links,
        perms: false,
        times: false,
        group: false,
        owner: false,
        devices: false,
        fsync: false,
        xattrs: false,
        acls: false,
        hard_links: false,
        atimes: false,
        crtimes: false,
        preserve_xattr: false,
        preserve_acl: false,
    }
}

#[test]
fn file_type_predicates_and_permissions() {
    let file = meta(0o100644, 12, 1);
    assert!(file.is_file());
    assert!(!file.is_dir());
    assert!(!file.is_symlink());
    assert_eq!(file.permissions(), 0o644);
    let dir = meta(0o040755, 4096, 2);
    assert!(dir.is_dir());
    assert!(!dir.is_file());
    let link = meta(0o120777, 10, 1);
    assert!(link.is_symlink());
    let setuid = meta(0o104755, 0, 1);
    assert_eq!(setuid.permissions(), 0o4755);
}

#[test]
fn extended_metadata_accessors() {
    let m = ExtendedMetadata::from_statx(meta(0o100600, 12, 3));
    assert!(m.is_file());
    assert_eq!(m.len(), 12);
    assert!(!m.is_empty());
    assert_eq!(m.device_id(), 3);
    assert_eq!(m.inode_number(), 77);
    assert_eq!(m.link_count(), 3);
    let e = ExtendedMetadata::from_statx(meta(0o100600, 0, 1));
    assert!(e.is_empty());
}

#[test]
fn entry_actions() {
    let dir = ExtendedMetadata::from_statx(meta(0o040755, 0, 2));
    let file = ExtendedMetadata::from_statx(meta(0o100644, 0, 1));
    let link = ExtendedMetadata::from_statx(meta(0o120777, 0, 1));
    let fifo = ExtendedMetadata::from_statx(meta(0o010644, 0, 1));
    assert_eq!(plan_entry(&dir, &config(false)), EntryAction::Directory);
    assert_eq!(plan_entry(&file, &config(false)), EntryAction::File);
    assert_eq!(plan_entry(&link, &config(true)), EntryAction::CopySymlink);
    assert_eq!(plan_entry(&link, &config(false)), EntryAction::FollowSymlink);
    assert_eq!(plan_entry(&fifo, &config(true)), EntryAction::Skip);
}

#[test]
fn file_actions() {
    assert_eq!(plan_file(true, 2), FileAction::CopyAndSignal);
    assert_eq!(plan_file(false, 2), FileAction::LinkToFirstCopy);
    assert_eq!(plan_file(false, 1), FileAction::Copy);
}

#[test]
fn directory_stats_default() {
    let s = DirectoryStats::default();
    assert_eq!(s.files_copied, 0);
    assert_eq!(s.errors, 0);
}
