use arsync::syscall_analysis::{
    analyzed_part, match_trace, parse_strace_output, parse_unsigned_str, summarize_trace, LineMatch,
    TraceMatches,
};
use arsync::syscall_report::{
    assess, batch_counts, determine_exit_code, io_uring_op_rows, is_expected_io_uring_op,
    syscall_category, syscall_rows, unexpected_syscalls, ExitVerdict, LegacySyscall, Rating,
    SyscallCategory,
};

const TRACE: &str = "execve(\"/bin/arsync\", [\"arsync\"], 0x7ffd) = 0
openat(AT_FDCWD, \"/etc/ld.so.cache\", O_RDONLY|O_CLOEXEC) = 3
getdents64(3, 0x55 /* 4 entries */, 32768) = 112
statx(AT_FDCWD, \"/tmp/src/file1.bin\", AT_STATX_SYNC_AS_STAT, STATX_ALL, {}) = 0
statx(AT_FDCWD, \"\", AT_EMPTY_PATH, STATX_ALL, {}) = 0
statx(5, \"file2.bin\", AT_SYMLINK_NOFOLLOW, STATX_ALL, {}) = 0
openat(AT_FDCWD, \"/tmp/src/file1.bin\", O_RDONLY) = 6
io_uring_enter(4, 3, 0, 0, NULL, 8) = 3
fchmod(6, 0100644) = 0
fchmod(7, 040755) = 0
fchmod(8, 0755) = 0
utimensat(6, NULL, [UTIME_OMIT, UTIME_OMIT], 0) = 0
read(9, \"\\1\\0\\0\\0\\0\\0\\0\\0\", 8) = 8
read(10, \"abc\", 3) = 3
[pid 12] write(11, \"x\", 1 <unfinished ...>
IORING_OP_READ IORING_OP_WRITE IORING_OP_READ
";

#[test]
fn analyzed_part_drops_startup_lines() {
    let (content, startup) = analyzed_part(TRACE);
    assert_eq!(startup, 2);
    assert!(content.starts_with("getdents64(3"));
    assert!(!content.contains("/etc/ld.so.cache"));
    assert!(!content.ends_with('\n'));
}

#[test]
fn analyzed_part_without_getdents_keeps_everything() {
    let (content, startup) = analyzed_part("a\r\nb\n");
    assert_eq!(startup, 0);
    assert_eq!(content, "a\nb");
    let (content, _) = analyzed_part("\n");
    assert_eq!(content, "\n");
}

#[test]
fn parse_counts_a_small_trace() {
    let stats = parse_strace_output(2, "/tmp/src", TRACE).unwrap();
    assert_eq!(stats.filtered_startup_syscalls, 2);
    assert_eq!(stats.io_uring_setup, 0);
    assert_eq!(stats.io_uring_enter, 1);
    assert_eq!(stats.io_uring_batch_sizes, vec![3]);
    assert_eq!(stats.statx_total, 3);
    assert_eq!(stats.statx_path_based, 1);
    assert_eq!(stats.statx_fd_based, 2);
    assert_eq!(stats.openat_total, 1);
    assert_eq!(stats.openat_path_based, 1);
    assert_eq!(stats.fchmod, 3);
    assert_eq!(stats.fchmod_files, 1);
    assert_eq!(stats.fchmod_dirs, 2);
    assert_eq!(stats.fchown_files, 1);
    assert_eq!(stats.utimensat_total, 1);
    assert_eq!(stats.utimensat_fd_based, 1);
    assert_eq!(stats.utimensat_path_based, 0);
    assert_eq!(stats.utimensat_symlinks, 0);
    assert_eq!(stats.filtered_eventfd_read, 1);
    assert_eq!(stats.read_total, 1);
    assert_eq!(stats.write_total, 0);
    assert_eq!(stats.filtered_incomplete_traces, 1);
    assert_eq!(stats.all_syscalls.get("statx"), 3);
    assert_eq!(stats.all_syscalls.get("fchmod"), 3);
    assert_eq!(stats.all_syscalls.get("getdents64"), 1);
    assert_eq!(stats.all_syscalls.get("read"), 2);
    assert_eq!(stats.all_syscalls.get("write"), 1);
    assert_eq!(stats.all_syscalls.get("execve"), 0);
    assert_eq!(stats.io_uring_ops.get("READ"), 2);
    assert_eq!(stats.io_uring_ops.get("WRITE"), 1);
    assert_eq!(stats.per_file.len(), 2);
    assert_eq!(stats.per_file[0].0, "file1.bin");
    assert_eq!(stats.per_file[0].1.statx, 1);
    assert_eq!(stats.per_file[0].1.openat, 1);
    assert_eq!(stats.per_file[0].1.mentions, 2);
    assert_eq!(stats.per_file[1].0, "file2.bin");
    assert_eq!(stats.per_file[1].1.statx, 0);
    assert_eq!(stats.per_file[1].1.mentions, 1);
    assert_eq!(stats.dir_stats.getdents, 1);
    assert_eq!(stats.dir_stats.src_statx, 0);
    assert_eq!(stats.dir_stats.dst_fchmod, 3);
    assert_eq!(determine_exit_code(&stats, 2), ExitVerdict::Failure);
}

#[test]
fn summarize_uses_the_given_matches() {
    let raw = "getdents64(3) = 0\nfoo(1) = 0\n<... foo resumed> = 0";
    let m = TraceMatches {
        lines: vec![
            LineMatch { syscall: Some("getdents64".to_string()), user_openat: false, read_call: false, write_call: false },
            LineMatch { syscall: Some("foo".to_string()), user_openat: true, read_call: true, write_call: true },
            LineMatch { syscall: Some("foo".to_string()), user_openat: false, read_call: true, write_call: false },
        ],
        batch_sizes: vec![Some("7".to_string()), None, Some("x".to_string()), Some("+2".to_string())],
        fchmod_modes: vec![Some("0100600".to_string()), Some("99".to_string())],
        io_uring_ops: vec![Some("READ".to_string()), None, Some("READ".to_string())],
        utimensat_symlinks: 4,
        utimensat_fd_based: 5,
        utimensat_path_based: 6,
        per_file: vec![(9, 8)],
    };
    let stats = summarize_trace(1, "/src", raw, &m);
    assert_eq!(stats.all_syscalls.get("foo"), 1);
    assert_eq!(stats.all_syscalls.get("getdents64"), 1);
    assert_eq!(stats.openat_path_based, 1);
    assert_eq!(stats.read_total, 1);
    assert_eq!(stats.write_total, 1);
    assert_eq!(stats.filtered_incomplete_traces, 1);
    assert_eq!(stats.io_uring_batch_sizes, vec![7, 2]);
    assert_eq!(stats.fchmod_files, 1);
    assert_eq!(stats.fchmod_dirs, 0);
    assert_eq!(stats.io_uring_ops.get("READ"), 2);
    assert_eq!(stats.utimensat_symlinks, 4);
    assert_eq!(stats.utimensat_path_based, 6);
    assert_eq!(stats.per_file[0].1.statx, 9);
    assert_eq!(stats.per_file[0].1.openat, 8);
}

#[test]
fn match_trace_finds_one_entry_per_line() {
    let m = match_trace(5, TRACE).unwrap();
    assert_eq!(m.lines.len(), 14);
    assert_eq!(m.per_file.len(), 3);
    assert_eq!(m.lines[0].syscall.as_deref(), Some("getdents64"));
    assert_eq!(m.lines[12].syscall.as_deref(), Some("write"));
    assert!(m.lines[11].read_call);
}

#[test]
fn numbers_parse_like_from_str_radix() {
    assert_eq!(parse_unsigned_str("0755", 8, u32::MAX as u64), Some(0o755));
    assert_eq!(parse_unsigned_str("+17", 10, u64::MAX), Some(17));
    assert_eq!(parse_unsigned_str("8", 8, u64::MAX), None);
    assert_eq!(parse_unsigned_str("", 10, u64::MAX), None);
    assert_eq!(parse_unsigned_str("+", 10, u64::MAX), None);
    assert_eq!(parse_unsigned_str("-1", 10, u64::MAX), None);
    assert_eq!(parse_unsigned_str("4294967296", 10, u32::MAX as u64), None);
    assert_eq!(parse_unsigned_str("18446744073709551615", 10, u64::MAX), Some(u64::MAX));
    assert_eq!(parse_unsigned_str("18446744073709551616", 10, u64::MAX), None);
}

#[test]
fn categories_and_expected_operations() {
    assert_eq!(syscall_category("io_uring_enter"), SyscallCategory::IoUring);
    assert_eq!(syscall_category("pread64"), SyscallCategory::FileIo);
    assert_eq!(syscall_category("lstat"), SyscallCategory::Metadata);
    assert_eq!(syscall_category("getdents64"), SyscallCategory::Directory);
    assert_eq!(syscall_category("readlinkat"), SyscallCategory::Symlink);
    assert_eq!(syscall_category("exit_group"), SyscallCategory::Process);
    assert_eq!(syscall_category("brk"), SyscallCategory::Memory);
    assert_eq!(syscall_category("futex"), SyscallCategory::Threading);
    assert_eq!(syscall_category("rseq"), SyscallCategory::Signal);
    assert_eq!(syscall_category("prctl"), SyscallCategory::System);
    assert_eq!(syscall_category("ioctl"), SyscallCategory::Unknown);
    assert!(is_expected_io_uring_op("READ"));
    assert!(is_expected_io_uring_op("LINKAT"));
    assert!(!is_expected_io_uring_op("NOP"));
}

#[test]
fn rows_are_sorted_by_count() {
    let stats = parse_strace_output(1, "/tmp/src", TRACE).unwrap();
    let rows = syscall_rows(&stats);
    assert_eq!(rows[0].count, 3);
    assert!(rows.windows(2).all(|w| w[0].count >= w[1].count));
    assert_eq!(rows.len(), 8);
    let ops = io_uring_op_rows(&stats);
    assert_eq!(ops.len(), 2);
    assert_eq!(ops[0].name, "READ");
    assert_eq!(ops[0].count, 2);
    assert!(ops[0].expected);
}

#[test]
fn legacy_calls_are_listed_in_order() {
    let mut stats = parse_strace_output(1, "/tmp/src", TRACE).unwrap();
    assert!(unexpected_syscalls(&stats).is_empty());
    stats.pwrite_total = 2;
    stats.open_total = 1;
    assert_eq!(
        unexpected_syscalls(&stats),
        vec![(LegacySyscall::Open, 1), (LegacySyscall::Pwrite, 2)]
    );
}

#[test]
fn exit_code_thresholds() {
    let mut stats = parse_strace_output(1, "/tmp/src", TRACE).unwrap();
    stats.io_uring_enter = 150;
    stats.statx_path_based = 0;
    stats.openat_path_based = 0;
    assert_eq!(determine_exit_code(&stats, 1), ExitVerdict::Success);
    stats.statx_path_based = 3;
    assert_eq!(determine_exit_code(&stats, 1), ExitVerdict::Warning);
    stats.statx_path_based = 2;
    stats.openat_path_based = 5;
    assert_eq!(determine_exit_code(&stats, 1), ExitVerdict::Warning);
    stats.fallocate = 1;
    assert_eq!(determine_exit_code(&stats, 1), ExitVerdict::Failure);
}

#[test]
fn assessment_of_a_small_trace() {
    let stats = parse_strace_output(1, "/tmp/src", TRACE).unwrap();
    let a = assess(&stats, 1);
    assert!(!a.heavy_io_uring);
    assert_eq!(a.direct_io, Rating::Good);
    assert_eq!(a.path_statx, Rating::Good);
    assert_eq!(a.timestamps, Rating::Excellent);
    assert_eq!(a.unidentified, (0, 0, 0));
    assert!(a.too_many_statx);
    assert!(a.prefer_dirfd);
    assert!(a.timestamps_on_target);
}

#[test]
fn batch_counts_split_single_and_multi() {
    assert_eq!(batch_counts(&vec![1, 3, 1, 0, 7]), (2, 2, 7));
    assert_eq!(batch_counts(&vec![]), (0, 0, 0));
}
