//! The verdicts of a system-call analysis: which calls belong where, which
//! are unexpected, and what the counts say about the copy.

use vstd::prelude::*;
use vstd::string::StringExecFns;
use crate::syscall_analysis::SyscallStats;
use crate::tally::{distinct_names, entries_map};

verus! {

/// Whether `a` and `b` hold the same text.
fn same_text(a: &str, b: &str) -> (r: bool)
    ensures
        r == (a@ == b@),
{
    let x = String::from_str(a);
    let y = String::from_str(b);
    x == y
}

/// Kinds of system call, as the inventory groups them.
#[derive(Debug, Clone, Copy, PartialEq, Eq)]
pub enum SyscallCategory {
    IoUring,
    FileIo,
    Metadata,
    Directory,
    Symlink,
    Process,
    Memory,
    Threading,
    Signal,
    System,
    Unknown,
}

/// The kind of the system call `name`.
pub open spec fn category_of(name: Seq<char>) -> SyscallCategory {
    if name == "io_uring_setup"@ || name == "io_uring_enter"@ || name == "io_uring_register"@ {
        SyscallCategory::IoUring
    } else if name == "openat"@ || name == "statx"@ || name == "fallocate"@ || name == "read"@
        || name == "write"@ || name == "pread64"@ || name == "pwrite64"@ || name == "close"@
        || name == "lseek"@ {
        SyscallCategory::FileIo
    } else if name == "fchmod"@ || name == "fchown"@ || name == "utimensat"@ || name == "fstat"@
        || name == "lstat"@ {
        SyscallCategory::Metadata
    } else if name == "mkdir"@ || name == "mkdirat"@ || name == "getdents64"@ || name == "getcwd"@
        || name == "chdir"@ {
        SyscallCategory::Directory
    } else if name == "symlink"@ || name == "symlinkat"@ || name == "readlink"@ || name == "readlinkat"@ {
        SyscallCategory::Symlink
    } else if name == "clone3"@ || name == "execve"@ || name == "wait4"@ || name == "exit"@
        || name == "exit_group"@ {
        SyscallCategory::Process
    } else if name == "mmap"@ || name == "munmap"@ || name == "mprotect"@ || name == "brk"@
        || name == "madvise"@ {
        SyscallCategory::Memory
    } else if name == "futex"@ || name == "set_robust_list"@ || name == "set_tid_address"@ {
        SyscallCategory::Threading
    } else if name == "rt_sigaction"@ || name == "rt_sigprocmask"@ || name == "sigaltstack"@
        || name == "rseq"@ {
        SyscallCategory::Signal
    } else if name == "getrandom"@ || name == "sched_getaffinity"@ || name == "prlimit64"@
        || name == "arch_prctl"@ || name == "poll"@ || name == "clock_gettime"@
        || name == "clock_nanosleep"@ || name == "eventfd2"@ || name == "sched_yield"@
        || name == "prctl"@ {
        SyscallCategory::System
    } else {
        SyscallCategory::Unknown
    }
}

/// The kind of the system call `name`.
pub fn syscall_category(name: &str) -> (r: SyscallCategory)
    ensures
        r == category_of(name@),
{
    if same_text(name, "io_uring_setup") || same_text(name, "io_uring_enter") || same_text(name, "io_uring_register") {
        SyscallCategory::IoUring
    } else if same_text(name, "openat") || same_text(name, "statx") || same_text(name, "fallocate")
        || same_text(name, "read") || same_text(name, "write") || same_text(name, "pread64")
        || same_text(name, "pwrite64") || same_text(name, "close") || same_text(name, "lseek") {
        SyscallCategory::FileIo
    } else if same_text(name, "fchmod") || same_text(name, "fchown") || same_text(name, "utimensat")
        || same_text(name, "fstat") || same_text(name, "lstat") {
        SyscallCategory::Metadata
    } else if same_text(name, "mkdir") || same_text(name, "mkdirat") || same_text(name, "getdents64")
        || same_text(name, "getcwd") || same_text(name, "chdir") {
        SyscallCategory::Directory
    } else if same_text(name, "symlink") || same_text(name, "symlinkat") || same_text(name, "readlink")
        || same_text(name, "readlinkat") {
        SyscallCategory::Symlink
    } else if same_text(name, "clone3") || same_text(name, "execve") || same_text(name, "wait4")
        || same_text(name, "exit") || same_text(name, "exit_group") {
        SyscallCategory::Process
    } else if same_text(name, "mmap") || same_text(name, "munmap") || same_text(name, "mprotect")
        || same_text(name, "brk") || same_text(name, "madvise") {
        SyscallCategory::Memory
    } else if same_text(name, "futex") || same_text(name, "set_robust_list") || same_text(name, "set_tid_address") {
        SyscallCategory::Threading
    } else if same_text(name, "rt_sigaction") || same_text(name, "rt_sigprocmask")
        || same_text(name, "sigaltstack") || same_text(name, "rseq") {
        SyscallCategory::Signal
    } else if same_text(name, "getrandom") || same_text(name, "sched_getaffinity")
        || same_text(name, "prlimit64") || same_text(name, "arch_prctl") || same_text(name, "poll")
        || same_text(name, "clock_gettime") || same_text(name, "clock_nanosleep")
        || same_text(name, "eventfd2") || same_text(name, "sched_yield") || same_text(name, "prctl") {
        SyscallCategory::System
    } else {
        SyscallCategory::Unknown
    }
}

/// io_uring operations that a file copier is expected to submit.
pub open spec fn expected_io_uring_op(name: Seq<char>) -> bool {
    name == "READ"@ || name == "WRITE"@ || name == "READV"@ || name == "WRITEV"@ || name == "STATX"@
        || name == "FSTAT"@ || name == "FALLOCATE"@ || name == "OPENAT"@ || name == "OPENAT2"@
        || name == "CLOSE"@ || name == "FSYNC"@ || name == "FDATASYNC"@ || name == "MKDIRAT"@
        || name == "UNLINKAT"@ || name == "RENAMEAT"@ || name == "SYMLINKAT"@ || name == "LINKAT"@
}

/// Whether a file copier is expected to submit the io_uring operation `name`.
pub fn is_expected_io_uring_op(name: &str) -> (r: bool)
    ensures
        r == expected_io_uring_op(name@),
{
    same_text(name, "READ") || same_text(name, "WRITE") || same_text(name, "READV")
        || same_text(name, "WRITEV") || same_text(name, "STATX") || same_text(name, "FSTAT")
        || same_text(name, "FALLOCATE") || same_text(name, "OPENAT") || same_text(name, "OPENAT2")
        || same_text(name, "CLOSE") || same_text(name, "FSYNC") || same_text(name, "FDATASYNC")
        || same_text(name, "MKDIRAT") || same_text(name, "UNLINKAT") || same_text(name, "RENAMEAT")
        || same_text(name, "SYMLINKAT") || same_text(name, "LINKAT")
}

/// A row of the io_uring operations table.
pub struct OpRow {
    pub name: String,
    pub count: usize,
    /// A file copier is expected to submit this operation.
    pub expected: bool,
}

/// A row of the system call inventory.
pub struct SyscallRow {
    pub name: String,
    pub count: usize,
    pub category: SyscallCategory,
}

/// The io_uring operations of `stats`, most frequent first, each marked
/// expected or not.
pub fn io_uring_op_rows(stats: &SyscallStats) -> (r: Vec<OpRow>)
    ensures
        ({
            let pairs = r@.map_values(|row: OpRow| (row.name, row.count));
            &&& distinct_names(pairs)
            &&& entries_map(pairs) == stats.io_uring_ops@
        }),
        forall|i: int, j: int| 0 <= i < j < r@.len() ==> (#[trigger] r@[i]).count >= (#[trigger] r@[j]).count,
        forall|i: int| 0 <= i < r@.len() ==> (#[trigger] r@[i]).expected == expected_io_uring_op(r@[i].name@),
{
    let sorted = stats.io_uring_ops.by_count_desc();
    let mut rows: Vec<OpRow> = Vec::new();
    let mut i: usize = 0;
    while i < sorted.len()
        invariant
            i <= sorted@.len(),
            rows@.len() == i,
            forall|j: int| 0 <= j < i ==> (#[trigger] rows@[j]).name == sorted@[j].0 && rows@[j].count == sorted@[j].1,
            forall|j: int| 0 <= j < i ==> (#[trigger] rows@[j]).expected == expected_io_uring_op(rows@[j].name@),
        decreases sorted@.len() - i,
    {
        let name = sorted[i].0.clone();
        let expected = is_expected_io_uring_op(name.as_str());
        rows.push(OpRow { name, count: sorted[i].1, expected });
        i = i + 1;
    }
    assert(rows@.map_values(|row: OpRow| (row.name, row.count)) =~= sorted@);
    rows
}

/// Every system call of `stats`, most frequent first, with its kind.
pub fn syscall_rows(stats: &SyscallStats) -> (r: Vec<SyscallRow>)
    ensures
        ({
            let pairs = r@.map_values(|row: SyscallRow| (row.name, row.count));
            &&& distinct_names(pairs)
            &&& entries_map(pairs) == stats.all_syscalls@
        }),
        forall|i: int, j: int| 0 <= i < j < r@.len() ==> (#[trigger] r@[i]).count >= (#[trigger] r@[j]).count,
        forall|i: int| 0 <= i < r@.len() ==> (#[trigger] r@[i]).category == category_of(r@[i].name@),
{
    let sorted = stats.all_syscalls.by_count_desc();
    let mut rows: Vec<SyscallRow> = Vec::new();
    let mut i: usize = 0;
    while i < sorted.len()
        invariant
            i <= sorted@.len(),
            rows@.len() == i,
            forall|j: int| 0 <= j < i ==> (#[trigger] rows@[j]).name == sorted@[j].0 && rows@[j].count == sorted@[j].1,
            forall|j: int| 0 <= j < i ==> (#[trigger] rows@[j]).category == category_of(rows@[j].name@),
        decreases sorted@.len() - i,
    {
        let name = sorted[i].0.clone();
        let category = syscall_category(name.as_str());
        rows.push(SyscallRow { name, count: sorted[i].1, category });
        i = i + 1;
    }
    assert(rows@.map_values(|row: SyscallRow| (row.name, row.count)) =~= sorted@);
    rows
}

/// Legacy or synchronous calls that an io_uring copier should not make.
#[derive(Debug, Clone, Copy, PartialEq, Eq)]
pub enum LegacySyscall {
    Open,
    Stat,
    Chmod,
    Chown,
    Utime,
    Utimes,
    Access,
    Creat,
    Pread,
    Pwrite,
}

/// `found` with `(kind, count)` appended when `count` is not zero.
pub open spec fn note_if_used(found: Seq<(LegacySyscall, usize)>, kind: LegacySyscall, count: usize) -> Seq<(LegacySyscall, usize)> {
    if count > 0 {
        found.push((kind, count))
    } else {
        found
    }
}

/// The legacy calls that `stats` counts, in a fixed order, with their counts.
pub open spec fn legacy_findings(s: SyscallStats) -> Seq<(LegacySyscall, usize)> {
    let f0 = Seq::<(LegacySyscall, usize)>::empty();
    let f1 = note_if_used(f0, LegacySyscall::Open, s.open_total);
    let f2 = note_if_used(f1, LegacySyscall::Stat, s.stat_total);
    let f3 = note_if_used(f2, LegacySyscall::Chmod, s.chmod_total);
    let f4 = note_if_used(f3, LegacySyscall::Chown, s.chown_total);
    let f5 = note_if_used(f4, LegacySyscall::Utime, s.utime_total);
    let f6 = note_if_used(f5, LegacySyscall::Utimes, s.utimes_total);
    let f7 = note_if_used(f6, LegacySyscall::Access, s.access_total);
    let f8 = note_if_used(f7, LegacySyscall::Creat, s.creat_total);
    let f9 = note_if_used(f8, LegacySyscall::Pread, s.pread_total);
    note_if_used(f9, LegacySyscall::Pwrite, s.pwrite_total)
}

fn note(found: &mut Vec<(LegacySyscall, usize)>, kind: LegacySyscall, count: usize)
    ensures
        final(found)@ == note_if_used(old(found)@, kind, count),
{
    if count > 0 {
        found.push((kind, count));
    }
}

/// The legacy calls that `stats` counts, each with its count.
pub fn unexpected_syscalls(stats: &SyscallStats) -> (r: Vec<(LegacySyscall, usize)>)
    ensures
        r@ == legacy_findings(*stats),
{
    let mut found: Vec<(LegacySyscall, usize)> = Vec::new();
    note(&mut found, LegacySyscall::Open, stats.open_total);
    note(&mut found, LegacySyscall::Stat, stats.stat_total);
    note(&mut found, LegacySyscall::Chmod, stats.chmod_total);
    note(&mut found, LegacySyscall::Chown, stats.chown_total);
    note(&mut found, LegacySyscall::Utime, stats.utime_total);
    note(&mut found, LegacySyscall::Utimes, stats.utimes_total);
    note(&mut found, LegacySyscall::Access, stats.access_total);
    note(&mut found, LegacySyscall::Creat, stats.creat_total);
    note(&mut found, LegacySyscall::Pread, stats.pread_total);
    note(&mut found, LegacySyscall::Pwrite, stats.pwrite_total);
    found
}

/// Number of entries of `s` among the first `n` equal to one (`single`) or
/// larger than one.
pub open spec fn batch_kind_count(s: Seq<usize>, n: int, single: bool) -> nat
    decreases n,
{
    if n <= 0 {
        0
    } else {
        batch_kind_count(s, n - 1, single) + (if (single && s[n - 1] == 1) || (!single && s[n - 1] > 1) { 1nat } else { 0nat })
    }
}

/// Largest of the first `n` entries of `s` (zero when there are none).
pub open spec fn max_prefix(s: Seq<usize>, n: int) -> usize
    decreases n,
{
    if n <= 0 {
        0
    } else if s[n - 1] > max_prefix(s, n - 1) {
        s[n - 1]
    } else {
        max_prefix(s, n - 1)
    }
}

/// Submissions of one entry, of more than one, and the largest submission.
pub fn batch_counts(sizes: &Vec<usize>) -> (r: (usize, usize, usize))
    ensures
        r.0 == batch_kind_count(sizes@, sizes@.len() as int, true),
        r.1 == batch_kind_count(sizes@, sizes@.len() as int, false),
        r.2 == max_prefix(sizes@, sizes@.len() as int),
{
    let mut single: usize = 0;
    let mut multi: usize = 0;
    let mut max: usize = 0;
    let mut i: usize = 0;
    while i < sizes.len()
        invariant
            i <= sizes@.len(),
            single <= i && multi <= i,
            single == batch_kind_count(sizes@, i as int, true),
            multi == batch_kind_count(sizes@, i as int, false),
            max == max_prefix(sizes@, i as int),
        decreases sizes@.len() - i,
    {
        let x = sizes[i];
        if x == 1 {
            single = single + 1;
        } else if x > 1 {
            multi = multi + 1;
        }
        if x > max {
            max = x;
        }
        i = i + 1;
    }
    (single, multi, max)
}

/// How the analysis ends.
#[derive(Debug, Clone, Copy, PartialEq, Eq)]
pub enum ExitVerdict {
    /// Nothing to report.
    Success,
    /// Worth a look, not a failure.
    Warning,
    /// A critical problem.
    Failure,
}

/// The verdict on `stats` for `num_files` test files: failure on few
/// io_uring submissions, direct `fallocate` calls or path-based timestamp
/// updates; a warning on many path-based `statx` or `openat` calls.
pub open spec fn exit_verdict(s: SyscallStats, num_files: nat) -> ExitVerdict {
    if s.io_uring_enter < 100 || s.fallocate > 0 || s.utimensat_path_based > 0 {
        ExitVerdict::Failure
    } else if s.statx_path_based > num_files * 2 || s.openat_path_based > num_files * 4 {
        ExitVerdict::Warning
    } else {
        ExitVerdict::Success
    }
}

/// The verdict on `stats` for `num_files` test files.
pub fn determine_exit_code(stats: &SyscallStats, num_files: usize) -> (r: ExitVerdict)
    requires
        num_files * 4 <= usize::MAX,
    ensures
        r == exit_verdict(*stats, num_files as nat),
{
    if stats.io_uring_enter < 100 {
        return ExitVerdict::Failure;
    }
    if stats.fallocate > 0 {
        return ExitVerdict::Failure;
    }
    if stats.utimensat_path_based > 0 {
        return ExitVerdict::Failure;
    }
    if stats.statx_path_based > num_files * 2 {
        return ExitVerdict::Warning;
    }
    if stats.openat_path_based > num_files * 4 {
        return ExitVerdict::Warning;
    }
    ExitVerdict::Success
}

/// Path-based timestamp updates are a critical failure, whatever the other
/// counts are.
pub proof fn lemma_path_utimensat_fails(s: SyscallStats, num_files: nat)
    requires
        s.utimensat_path_based > 0,
    ensures
        exit_verdict(s, num_files) == ExitVerdict::Failure,
{
}

/// Direct `fallocate` calls are a critical failure, whatever the other
/// counts are.
pub proof fn lemma_fallocate_fails(s: SyscallStats, num_files: nat)
    requires
        s.fallocate > 0,
    ensures
        exit_verdict(s, num_files) == ExitVerdict::Failure,
{
}

/// Fewer than a hundred io_uring submissions are a critical failure,
/// whatever the other counts are.
pub proof fn lemma_few_submissions_fail(s: SyscallStats, num_files: nat)
    requires
        s.io_uring_enter < 100,
    ensures
        exit_verdict(s, num_files) == ExitVerdict::Failure,
{
}

/// The analysis fails exactly on one of the three critical problems; more
/// than two path-based `statx` or four path-based `openat` calls per file
/// without one of them is a warning, and anything else passes.
pub proof fn lemma_verdict_cases(s: SyscallStats, num_files: nat)
    ensures
        (exit_verdict(s, num_files) == ExitVerdict::Failure) <==> (s.io_uring_enter < 100 || s.fallocate > 0
            || s.utimensat_path_based > 0),
        (exit_verdict(s, num_files) == ExitVerdict::Warning) <==> (s.io_uring_enter >= 100 && s.fallocate == 0
            && s.utimensat_path_based == 0 && (s.statx_path_based > 2 * num_files || s.openat_path_based > 4
            * num_files)),
        (exit_verdict(s, num_files) == ExitVerdict::Success) <==> (s.io_uring_enter >= 100 && s.fallocate == 0
            && s.utimensat_path_based == 0 && s.statx_path_based <= 2 * num_files && s.openat_path_based <= 4
            * num_files),
{
}

/// The report rates timestamps as a warning exactly when some timestamp
/// update went by path, and as excellent only when every file got a
/// descriptor-based one and none went by path.
pub proof fn lemma_timestamp_rating(r: Assessment, s: SyscallStats, num_files: nat)
    requires
        assessment_agrees(r, s, num_files),
    ensures
        (r.timestamps == Rating::Warning) <==> s.utimensat_path_based > 0,
        (r.timestamps == Rating::Excellent) <==> (s.utimensat_path_based == 0 && s.utimensat_fd_based >= num_files),
{
}

/// Ratings of one aspect of the copy.
#[derive(Debug, Clone, Copy, PartialEq, Eq)]
pub enum Rating {
    Excellent,
    Good,
    Warning,
    Info,
}

/// The threshold decisions of the report on `stats` for `num_files` files.
pub struct Assessment {
    /// More than a hundred `io_uring_enter` calls.
    pub heavy_io_uring: bool,
    /// Direct file I/O: none at all, little, or much.
    pub direct_io: Rating,
    /// Path-based `statx`: none, few, or more than two per file.
    pub path_statx: Rating,
    /// More than four user-file `openat` calls per file.
    pub excessive_openat: bool,
    /// Direct `fallocate` calls.
    pub direct_fallocate: bool,
    /// Timestamps: path-based updates, one descriptor update per file, or fewer.
    pub timestamps: Rating,
    /// `fchmod`, `fchown` and `utimensat` calls whose target kind is unknown.
    pub unidentified: (usize, usize, usize),
    /// More than two `statx` calls per file.
    pub too_many_statx: bool,
    /// Path-based `statx`, or more user-file `openat` calls than files.
    pub prefer_dirfd: bool,
    /// Fewer `statx` calls than two per file.
    pub statx_within_target: bool,
    /// Fewer user-file `openat` calls than four per file.
    pub openat_within_target: bool,
    /// Exactly one descriptor-based `utimensat` per file.
    pub timestamps_on_target: bool,
}

/// `a - b`, or zero where `b` is larger.
pub open spec fn monus(a: int, b: int) -> int {
    if a > b { a - b } else { 0 }
}

/// The threshold decisions of the report on `s` for `num_files` files.
pub open spec fn assessment_agrees(r: Assessment, s: SyscallStats, num_files: nat) -> bool {
    &&& r.heavy_io_uring == (s.io_uring_enter > 100)
    &&& r.direct_io == (if s.read_total == 0 && s.write_total == 0 && s.pread_total + s.pwrite_total == 0 {
        Rating::Excellent
    } else if s.read_total < 10 && s.write_total < 10 {
        Rating::Good
    } else {
        Rating::Warning
    })
    &&& r.path_statx == (if s.statx_path_based > num_files * 2 {
        Rating::Warning
    } else if s.statx_path_based == 0 {
        Rating::Excellent
    } else {
        Rating::Good
    })
    &&& r.excessive_openat == (s.openat_path_based > num_files * 4)
    &&& r.direct_fallocate == (s.fallocate > 0)
    &&& r.timestamps == (if s.utimensat_path_based > 0 {
        Rating::Warning
    } else if s.utimensat_fd_based >= num_files {
        Rating::Excellent
    } else {
        Rating::Info
    })
    &&& r.unidentified.0 == monus(s.fchmod as int, s.fchmod_files + s.fchmod_dirs)
    &&& r.unidentified.1 == monus(s.fchown as int, s.fchown_files + s.fchown_dirs)
    &&& r.unidentified.2 == monus(s.utimensat_total as int, s.utimensat_files + s.utimensat_dirs + s.utimensat_symlinks)
    &&& r.too_many_statx == (s.statx_total > num_files * 2)
    &&& r.prefer_dirfd == (s.statx_path_based > 0 || s.openat_path_based > num_files)
    &&& r.statx_within_target == (s.statx_total < num_files * 2)
    &&& r.openat_within_target == (s.openat_path_based < num_files * 4)
    &&& r.timestamps_on_target == (s.utimensat_fd_based == num_files)
}

/// Where `a + b` fits: `total - (a + b)`, or zero where that is negative.
fn sub_or_zero(total: usize, a: usize, b: usize) -> (r: usize)
    ensures
        r == monus(total as int, a + b),
{
    if a > total || b > total - a {
        0
    } else {
        total - a - b
    }
}

/// The threshold decisions of the report on `stats` for `num_files` files.
pub fn assess(stats: &SyscallStats, num_files: usize) -> (r: Assessment)
    requires
        num_files * 4 <= usize::MAX,
    ensures
        assessment_agrees(r, *stats, num_files as nat),
{
    let pread_pwrite_none = stats.pread_total == 0 && stats.pwrite_total == 0;
    let direct_io = if stats.read_total == 0 && stats.write_total == 0 && pread_pwrite_none {
        Rating::Excellent
    } else if stats.read_total < 10 && stats.write_total < 10 {
        Rating::Good
    } else {
        Rating::Warning
    };
    let path_statx = if stats.statx_path_based > num_files * 2 {
        Rating::Warning
    } else if stats.statx_path_based == 0 {
        Rating::Excellent
    } else {
        Rating::Good
    };
    let timestamps = if stats.utimensat_path_based > 0 {
        Rating::Warning
    } else if stats.utimensat_fd_based >= num_files {
        Rating::Excellent
    } else {
        Rating::Info
    };
    let identified_utimens_partial = sub_or_zero(stats.utimensat_total, stats.utimensat_files, stats.utimensat_dirs);
    let unidentified_utimens = if stats.utimensat_symlinks > identified_utimens_partial {
        0
    } else {
        identified_utimens_partial - stats.utimensat_symlinks
    };
    Assessment {
        heavy_io_uring: stats.io_uring_enter > 100,
        direct_io,
        path_statx,
        excessive_openat: stats.openat_path_based > num_files * 4,
        direct_fallocate: stats.fallocate > 0,
        timestamps,
        unidentified: (
            sub_or_zero(stats.fchmod, stats.fchmod_files, stats.fchmod_dirs),
            sub_or_zero(stats.fchown, stats.fchown_files, stats.fchown_dirs),
            unidentified_utimens,
        ),
        too_many_statx: stats.statx_total > num_files * 2,
        prefer_dirfd: stats.statx_path_based > 0 || stats.openat_path_based > num_files,
        statx_within_target: stats.statx_total < num_files * 2,
        openat_within_target: stats.openat_path_based < num_files * 4,
        timestamps_on_target: stats.utimensat_fd_based == num_files,
    }
}

} // verus!
