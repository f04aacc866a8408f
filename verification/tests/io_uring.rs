use arsync::io_uring::{CopyOperation, CopyStatus, FileOperations};
use std::path::PathBuf;

#[test]
fn test_copy_operation_progress_status() {
    let src = PathBuf::from("/tmp/src");
    let dst = PathBuf::from("/tmp/dst");
    let mut operation = CopyOperation::new(src, dst, 1000);

    assert_eq!(operation.bytes_copied, 0);
    assert_eq!(operation.status, CopyStatus::Pending);

    operation.update_progress(500);
    assert_eq!(operation.bytes_copied, 500);
    assert_eq!(operation.status, CopyStatus::InProgress);

    operation.update_progress(500);
    assert_eq!(operation.bytes_copied, 1000);
    assert_eq!(operation.status, CopyStatus::Completed);

    operation.mark_failed("Test error".to_string());
    assert_eq!(operation.status, CopyStatus::Failed("Test error".to_string()));
    assert_eq!(operation.bytes_copied, 1000);
}

#[test]
fn empty_file_completes_on_first_update() {
    let mut op = CopyOperation::new(PathBuf::from("/a"), PathBuf::from("/b"), 0);
    op.update_progress(0);
    assert_eq!(op.status, CopyStatus::Completed);
}

#[test]
fn file_operations_keep_buffer_size() {
    let ops = FileOperations::new(4096, 64 * 1024).unwrap();
    assert_eq!(ops.buffer_size(), 65536);
}

#[test]
fn file_operations_refuse_zero_buffer() {
    assert!(FileOperations::new(4096, 0).is_err());
    assert!(FileOperations::new(0, 1).is_ok());
}
