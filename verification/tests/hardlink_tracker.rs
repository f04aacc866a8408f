use arsync::hardlink_tracker::{FilesystemTracker, Registration};
use std::path::PathBuf;

#[test]
fn test_filesystem_tracker_basic() {
    let tracker = FilesystemTracker::new();
    let stats = tracker.get_stats();
    assert_eq!(stats.total_files, 0);
    assert_eq!(stats.hardlink_groups, 0);
    assert_eq!(stats.total_hardlinks, 0);
}

#[test]
fn test_filesystem_tracker_hardlinks() {
    let mut tracker = FilesystemTracker::new();
    let file1 = PathBuf::from("/tmp/arsync-test/file1.txt");
    let dst1 = PathBuf::from("/tmp/arsync-test/dst1.txt");

    // Register first file (should be copier)
    let is_copier = matches!(tracker.register_file(&file1, &dst1, 1, 100, 2), Registration::Copier);
    assert!(is_copier); // Should be copier (first registration)

    // Check stats
    let stats = tracker.get_stats();
    assert_eq!(stats.total_files, 1);
    assert_eq!(stats.hardlink_groups, 0); // Only 1 link registered so far
    assert_eq!(stats.total_hardlinks, 1);
}

#[test]
fn test_dst_path_set_at_registration() {
    let mut tracker = FilesystemTracker::new();
    let src_file = PathBuf::from("/tmp/arsync-test/src.txt");
    let dst_file = PathBuf::from("/tmp/arsync-test/dst.txt");

    let is_copier = matches!(tracker.register_file(&src_file, &dst_file, 7, 4242, 2), Registration::Copier);
    assert!(is_copier, "First registration should be copier");

    let retrieved_dst = tracker.get_dst_path_for_inode(4242);
    assert_eq!(retrieved_dst, Some(dst_file.clone()), "dst_path should be set at registration, not after copy");
}

#[test]
fn second_registration_is_linker_and_counts() {
    let mut tracker = FilesystemTracker::new();
    let a = PathBuf::from("/s/a");
    let b = PathBuf::from("/s/b");
    let da = PathBuf::from("/d/a");
    let db = PathBuf::from("/d/b");
    assert!(matches!(tracker.register_file(&a, &da, 1, 9, 2), Registration::Copier));
    match tracker.register_file(&b, &db, 1, 9, 2) {
        Registration::Linker(cv) => {
            assert!(!cv.is_notified());
            assert!(tracker.signal_copy_complete(9));
            assert!(cv.is_notified());
        }
        _ => panic!("second registration must be a linker"),
    }
    assert_eq!(tracker.get_dst_path_for_inode(9), Some(da.clone()));
    assert_eq!(tracker.get_original_path_for_inode(1, 9), Some(a.clone()));
    assert!(tracker.is_inode_copied(1, 9));
    assert!(!tracker.is_inode_copied(2, 9));
    assert_eq!(tracker.get_hardlink_groups(), vec![(9, 2)]);
    let stats = tracker.get_stats();
    assert_eq!(stats.total_files, 1);
    assert_eq!(stats.hardlink_groups, 1);
    assert_eq!(stats.total_hardlinks, 2);
}

#[test]
fn single_link_files_are_not_tracked() {
    let mut tracker = FilesystemTracker::new();
    let a = PathBuf::from("/s/a");
    let da = PathBuf::from("/d/a");
    assert!(matches!(tracker.register_file(&a, &da, 1, 5, 1), Registration::Single));
    assert!(matches!(tracker.register_file(&a, &da, 1, 5, 1), Registration::Single));
    assert!(!tracker.is_inode_copied(1, 5));
    assert_eq!(tracker.get_stats().total_files, 0);
    assert_eq!(tracker.get_dst_path_for_inode(5), None);
    assert!(!tracker.signal_copy_complete(5));
}

#[test]
fn same_inode_on_other_device_is_separate() {
    let mut tracker = FilesystemTracker::new();
    let a = PathBuf::from("/s/a");
    let da = PathBuf::from("/d/a");
    assert!(matches!(tracker.register_file(&a, &da, 1, 5, 3), Registration::Copier));
    assert!(matches!(tracker.register_file(&a, &da, 2, 5, 3), Registration::Copier));
    assert_eq!(tracker.get_stats().total_files, 2);
    assert_eq!(tracker.get_hardlink_groups(), Vec::<(u64, u64)>::new());
}

#[test]
fn source_filesystem_boundary() {
    let mut tracker = FilesystemTracker::new();
    assert!(tracker.is_on_source_filesystem(3));
    tracker.set_source_filesystem(7);
    assert!(tracker.is_on_source_filesystem(7));
    assert!(!tracker.is_same_filesystem(3));
    assert!(!tracker.check_source_filesystem(3, |_| true));
    assert!(tracker.check_source_filesystem(7, |s| s == Some(7)));
    let t2 = FilesystemTracker::with_source_filesystem(4);
    assert!(t2.is_on_source_filesystem(4));
    assert!(!t2.is_on_source_filesystem(5));
}

struct FlagWaker(std::sync::atomic::AtomicBool);

impl std::task::Wake for FlagWaker {
    fn wake(self: std::sync::Arc<Self>) {
        self.0.store(true, std::sync::atomic::Ordering::SeqCst);
    }
}

#[test]
fn test_linker_waits_for_copier_signal() {
    let mut tracker = FilesystemTracker::new();
    let file1 = PathBuf::from("/tmp/arsync-test/file1.txt");
    let file2 = PathBuf::from("/tmp/arsync-test/file2.txt");
    let dst_file1 = PathBuf::from("/tmp/arsync-test/dst/file1.txt");
    let dst_file2 = PathBuf::from("/tmp/arsync-test/dst/file2.txt");

    assert!(matches!(tracker.register_file(&file1, &dst_file1, 1, 77, 2), Registration::Copier));
    let condvar = match tracker.register_file(&file2, &dst_file2, 1, 77, 2) {
        Registration::Linker(cv) => cv,
        _ => panic!("second registration should be a linker"),
    };

    let flag = std::sync::Arc::new(FlagWaker(std::sync::atomic::AtomicBool::new(false)));
    let waker = std::task::Waker::from(std::sync::Arc::clone(&flag));
    // The linker waits: the copy is not done yet.
    assert!(!condvar.poll_wait(waker.clone()));
    assert!(!flag.0.load(std::sync::atomic::Ordering::SeqCst));

    // The copier signals completion; the linker is woken and may link.
    assert!(tracker.signal_copy_complete(77));
    assert!(flag.0.load(std::sync::atomic::Ordering::SeqCst));
    assert!(condvar.poll_wait(waker));
    assert_eq!(tracker.get_dst_path_for_inode(77), Some(dst_file1));
}
