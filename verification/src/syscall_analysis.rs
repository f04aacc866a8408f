//! Analysis of an `strace -f` log of a copy run: how often the system
//! calls that matter to an io_uring copier occur, and what they show.
//!
//! The log is first cut to the part that does the copying: the lines from
//! the first one that mentions `getdents` on. Most counts are plain
//! substring counts over that part; the rest come from regular expressions
//! (see `pattern`), whose results `summarize_trace` takes as input.

use vstd::prelude::*;
use vstd::string::StringExecFns;
use crate::pattern::{
    Pattern, compile_pattern, escape_pattern, pattern_first_group, pattern_groups,
    pattern_is_match, pattern_match_count, regex_compiles, regex_escaped, regex_first_group,
    regex_groups, regex_is_match, regex_match_count,
};
use crate::tally::{Tally, bump, lemma_tally_bounded, tally_of};
use crate::text::{
    chars_of, count_occ, count_occurrences, first_non_whitespace, first_non_ws, has_infix,
    join_lines, join_lines_from, lemma_count_occ_longer_pattern, lines_of, split_lines,
    str_contains,
};

verus! {

// ---------------------------------------------------------------------
// Unsigned numbers in a radix up to ten (`from_str_radix`, `str::parse`).
// ---------------------------------------------------------------------

/// Value of the digit `c` in `radix`, if it is one.
pub open spec fn digit_value(c: char, radix: nat) -> Option<nat> {
    if '0' <= c && c <= '9' && (c as nat) < ('0' as nat) + radix {
        Some((c as nat - '0' as nat) as nat)
    } else {
        None
    }
}

/// Value of the digit string `s` in `radix`, if every character is a digit.
pub open spec fn digits_value(s: Seq<char>, radix: nat) -> Option<nat>
    decreases s.len(),
{
    if s.len() == 0 {
        Some(0)
    } else {
        match digits_value(s.drop_last(), radix) {
            Some(v) => match digit_value(s.last(), radix) {
                Some(d) => Some(v * radix + d),
                None => None,
            },
            None => None,
        }
    }
}

/// What an unsigned integer type's `from_str_radix` gives for `s`: an
/// optional `+`, then at least one digit, and a value no larger than `max`.
pub open spec fn parse_unsigned(s: Seq<char>, radix: nat, max: nat) -> Option<nat> {
    let d = if s.len() > 0 && s[0] == '+' { s.drop_first() } else { s };
    if d.len() == 0 {
        None
    } else {
        match digits_value(d, radix) {
            Some(v) => if v <= max { Some(v) } else { None },
            None => None,
        }
    }
}

proof fn lemma_digits_grow(s: Seq<char>, radix: nat, j: int)
    requires
        radix >= 1,
        0 <= j <= s.len(),
        digits_value(s, radix) is Some,
    ensures
        digits_value(s.take(j), radix) is Some,
        digits_value(s.take(j), radix)->0 <= digits_value(s, radix)->0,
    decreases s.len(),
{
    if j == s.len() {
        assert(s.take(j) =~= s);
    } else {
        let t = s.drop_last();
        lemma_digits_grow(t, radix, j);
        assert(t.take(j) =~= s.take(j));
        let v = digits_value(t, radix)->0;
        let d = digit_value(s.last(), radix)->0;
        assert(v * radix + d >= v) by (nonlinear_arith)
            requires radix >= 1, d >= 0, v >= 0;
    }
}

/// `s` read as an unsigned number in `radix` no larger than `max`.
pub fn parse_unsigned_str(s: &str, radix: u32, max: u64) -> (r: Option<u64>)
    requires
        2 <= radix <= 10,
    ensures
        match r {
            Some(v) => parse_unsigned(s@, radix as nat, max as nat) == Some(v as nat),
            None => parse_unsigned(s@, radix as nat, max as nat) is None,
        },
{
    let c = chars_of(s);
    let mut start: usize = 0;
    if c.len() > 0 && c[0] == '+' {
        start = 1;
    }
    let ghost d = if s@.len() > 0 && s@[0] == '+' { s@.drop_first() } else { s@ };
    assert(d =~= c@.skip(start as int));
    if start >= c.len() {
        return None;
    }
    let mut acc: u64 = 0;
    let mut i: usize = start;
    assert(d.take(0) =~= Seq::<char>::empty());
    while i < c.len()
        invariant
            c@ == s@,
            start <= i <= c@.len(),
            d == c@.skip(start as int),
            d == (if s@.len() > 0 && s@[0] == '+' { s@.drop_first() } else { s@ }),
            2 <= radix <= 10,
            acc <= max,
            digits_value(d.take(i - start), radix as nat) == Some(acc as nat),
        decreases c@.len() - i,
    {
        let ch = c[i];
        let digit: u32 = match ch {
            '0' => 0,
            '1' => 1,
            '2' => 2,
            '3' => 3,
            '4' => 4,
            '5' => 5,
            '6' => 6,
            '7' => 7,
            '8' => 8,
            '9' => 9,
            _ => 10,
        };
        assert(d.take(i - start + 1).drop_last() =~= d.take(i - start));
        assert(d.take(i - start + 1).last() == ch);
        if digit >= radix {
            proof {
                let k = i - start + 1;
                assert(digit_value(ch, radix as nat) is None);
                if digits_value(d, radix as nat) is Some {
                    lemma_digits_grow(d, radix as nat, k);
                    assert(false);
                }

            }
            return None;
        }
        assert(digit_value(ch, radix as nat) == Some(digit as nat));
        let wide: u128 = acc as u128;
        assert(wide * (radix as u128) <= 0xffff_ffff_ffff_ffffu128 * 10) by (nonlinear_arith)
            requires wide <= 0xffff_ffff_ffff_ffffu128, radix <= 10;
        let next: u128 = wide * (radix as u128) + (digit as u128);
        if next > max as u128 {
            proof {
                if digits_value(d, radix as nat) is Some {
                    lemma_digits_grow(d, radix as nat, i - start + 1);
                }
            }
            return None;
        }
        acc = next as u64;
        i = i + 1;
    }
    assert(d.take(i - start) =~= d);
    Some(acc)
}

// ---------------------------------------------------------------------
// The part of the log that is analyzed.
// ---------------------------------------------------------------------

/// Index of the first line from `i` on that contains `pat`.
pub open spec fn first_line_containing(ls: Seq<Seq<char>>, pat: Seq<char>, i: int) -> Option<int>
    decreases ls.len() - i,
{
    if i < 0 || i >= ls.len() {
        None
    } else if has_infix(ls[i], pat) {
        Some(i)
    } else {
        first_line_containing(ls, pat, i + 1)
    }
}

/// Index of the first line of `raw` that mentions `getdents`.
pub open spec fn first_work_line(raw: Seq<char>) -> Option<int> {
    first_line_containing(lines_of(raw), "getdents"@, 0)
}

/// Number of lines before the copying starts (program start-up).
pub open spec fn startup_line_count(raw: Seq<char>) -> nat {
    match first_work_line(raw) {
        Some(i) => i as nat,
        None => 0,
    }
}

/// The analyzed part of the log: its lines from the first that mentions
/// `getdents` on (all lines if none does), joined with `\n`; the whole log
/// where that comes out empty.
pub open spec fn analyzed_content(raw: Seq<char>) -> Seq<char> {
    let ls = lines_of(raw);
    let work = match first_work_line(raw) {
        Some(i) => ls.skip(i),
        None => ls,
    };
    let joined = join_lines(work);
    if joined.len() == 0 {
        raw
    } else {
        joined
    }
}

/// The analyzed part of the log, and the number of start-up lines cut off.
pub fn analyzed_part(raw: &str) -> (r: (String, usize))
    ensures
        r.0@ == analyzed_content(raw@),
        r.1 == startup_line_count(raw@),
{
    let lines = split_lines(raw);
    let ghost ls = lines_of(raw@);
    let mut i: usize = 0;
    while i < lines.len() && !str_contains(lines[i].as_str(), "getdents")
        invariant
            i <= lines@.len(),
            lines@.len() == ls.len(),
            forall|j: int| 0 <= j < lines@.len() ==> (#[trigger] lines@[j])@ == ls[j],
            first_line_containing(ls, "getdents"@, 0) == first_line_containing(ls, "getdents"@, i as int),
        decreases lines@.len() - i,
    {
        i = i + 1;
    }
    let found = i < lines.len();
    let from = if found { i } else { 0 };
    let startup = if found { i } else { 0 };
    let joined = join_lines_from(&lines, from);
    proof {
        assert(lines@.skip(from as int).map_values(|l: String| l@) =~= ls.skip(from as int));
        assert(ls.skip(0) =~= ls);
        if !found {
            assert(first_line_containing(ls, "getdents"@, i as int) is None);
        }
    }
    if joined.unicode_len() == 0 {
        (String::from_str(raw), startup)
    } else {
        (joined, startup)
    }
}

/// Occurrences of `pat` in `hay`, left to right, not overlapping.
fn count_str(hay: &Vec<char>, pat: &str) -> (r: usize)
    requires
        pat@.len() > 0,
    ensures
        r == count_occ(hay@, pat@),
{
    let p = chars_of(pat);
    count_occurrences(hay, &p)
}

// ---------------------------------------------------------------------
// What the regular expressions found.
// ---------------------------------------------------------------------

/// `strace` line with an optional `[pid N]` prefix: group 1 is the call's name.
pub open spec fn syscall_regex() -> Seq<char> {
    r"(?:^\[?pid \d+\]?\s+)?(\w+)\("@
}

/// `io_uring_enter(fd, N,`: group 1 is the number of submitted entries.
pub open spec fn batch_regex() -> Seq<char> {
    r"io_uring_enter\([0-9]+, (\d+),"@
}

/// `openat` of an absolute path relative to the working directory.
pub open spec fn user_openat_regex() -> Seq<char> {
    r#"openat\(AT_FDCWD, "/[^"]*""#@
}

/// `fchmod(fd, 0mode`: group 1 is the octal mode.
pub open spec fn fchmod_regex() -> Seq<char> {
    r"fchmod\(\d+, (0[0-7]+)"@
}

/// `utimensat` that does not follow symlinks.
pub open spec fn utimensat_symlink_regex() -> Seq<char> {
    r"utimensat\([^)]+AT_SYMLINK_NOFOLLOW"@
}

/// `utimensat` on a descriptor.
pub open spec fn utimensat_fd_regex() -> Seq<char> {
    r"utimensat\(\d+, NULL"@
}

/// `utimensat` on an absolute path.
pub open spec fn utimensat_path_regex() -> Seq<char> {
    r#"utimensat\(AT_FDCWD, "/"#@
}

/// `IORING_OP_NAME`: group 1 is the operation's name.
pub open spec fn io_uring_op_regex() -> Seq<char> {
    r"IORING_OP_(\w+)"@
}

/// A `read` on a descriptor.
pub open spec fn read_regex() -> Seq<char> {
    r"read\(\d+,"@
}

/// A `write` on a descriptor.
pub open spec fn write_regex() -> Seq<char> {
    r"write\(\d+,"@
}

/// Name of the `n`th test file (`file1.bin` to `file3.bin`).
pub open spec fn test_file_name(n: int) -> Seq<char> {
    if n == 1 {
        "file1.bin"@
    } else if n == 2 {
        "file2.bin"@
    } else {
        "file3.bin"@
    }
}

/// Number of test files that get a breakdown of their own (at most three).
pub open spec fn per_file_count(num_files: nat) -> nat {
    if num_files < 3 {
        num_files
    } else {
        3
    }
}

/// A `statx` that names the `n`th test file.
pub open spec fn statx_file_regex(n: int) -> Seq<char> {
    "statx.*/"@ + regex_escaped(test_file_name(n))
}

/// An `openat` that names the `n`th test file.
pub open spec fn openat_file_regex(n: int) -> Seq<char> {
    "openat.*/"@ + regex_escaped(test_file_name(n))
}

/// Every regular expression the analysis uses compiles.
pub open spec fn trace_patterns_compile(num_files: nat) -> bool {
    &&& regex_compiles(syscall_regex())
    &&& regex_compiles(batch_regex())
    &&& regex_compiles(user_openat_regex())
    &&& regex_compiles(fchmod_regex())
    &&& regex_compiles(utimensat_symlink_regex())
    &&& regex_compiles(utimensat_fd_regex())
    &&& regex_compiles(utimensat_path_regex())
    &&& regex_compiles(io_uring_op_regex())
    &&& regex_compiles(read_regex())
    &&& regex_compiles(write_regex())
    &&& forall|i: int| 1 <= i <= per_file_count(num_files) ==> #[trigger] regex_compiles(statx_file_regex(i))
        && regex_compiles(openat_file_regex(i))
}

/// What the regular expressions found on one line of the analyzed part.
pub struct LineMatch {
    /// Name of the system call the line shows, if any.
    pub syscall: Option<String>,
    /// The line opens an absolute path relative to the working directory.
    pub user_openat: bool,
    /// The line is a `read` on a descriptor.
    pub read_call: bool,
    /// The line is a `write` on a descriptor.
    pub write_call: bool,
}

/// A `LineMatch` as plain values.
pub struct LineMatchView {
    pub syscall: Option<Seq<char>>,
    pub user_openat: bool,
    pub read_call: bool,
    pub write_call: bool,
}

impl View for LineMatch {
    type V = LineMatchView;

    open spec fn view(&self) -> LineMatchView {
        LineMatchView {
            syscall: self.syscall.deep_view(),
            user_openat: self.user_openat,
            read_call: self.read_call,
            write_call: self.write_call,
        }
    }
}

/// What the regular expressions found in a log.
pub struct TraceMatches {
    /// One entry per line of the analyzed part.
    pub lines: Vec<LineMatch>,
    /// Batch size text of each `io_uring_enter` in the whole log.
    pub batch_sizes: Vec<Option<String>>,
    /// Mode text of each `fchmod` in the analyzed part.
    pub fchmod_modes: Vec<Option<String>>,
    /// Name of each `IORING_OP_` operation in the whole log.
    pub io_uring_ops: Vec<Option<String>>,
    /// `utimensat` calls that do not follow symlinks.
    pub utimensat_symlinks: usize,
    /// `utimensat` calls on a descriptor.
    pub utimensat_fd_based: usize,
    /// `utimensat` calls on an absolute path.
    pub utimensat_path_based: usize,
    /// For each test file with a breakdown: its `statx` and `openat` calls.
    pub per_file: Vec<(usize, usize)>,
}

/// A `TraceMatches` as plain values.
pub struct TraceMatchesView {
    pub lines: Seq<LineMatchView>,
    pub batch_sizes: Seq<Option<Seq<char>>>,
    pub fchmod_modes: Seq<Option<Seq<char>>>,
    pub io_uring_ops: Seq<Option<Seq<char>>>,
    pub utimensat_symlinks: nat,
    pub utimensat_fd_based: nat,
    pub utimensat_path_based: nat,
    pub per_file: Seq<(nat, nat)>,
}

impl View for TraceMatches {
    type V = TraceMatchesView;

    open spec fn view(&self) -> TraceMatchesView {
        TraceMatchesView {
            lines: self.lines@.map_values(|l: LineMatch| l@),
            batch_sizes: self.batch_sizes.deep_view(),
            fchmod_modes: self.fchmod_modes.deep_view(),
            io_uring_ops: self.io_uring_ops.deep_view(),
            utimensat_symlinks: self.utimensat_symlinks as nat,
            utimensat_fd_based: self.utimensat_fd_based as nat,
            utimensat_path_based: self.utimensat_path_based as nat,
            per_file: self.per_file@.map_values(|p: (usize, usize)| (p.0 as nat, p.1 as nat)),
        }
    }
}

/// What the regular expressions find on line `l`.
pub open spec fn expected_line_match(l: Seq<char>) -> LineMatchView {
    LineMatchView {
        syscall: match regex_first_group(syscall_regex(), l) {
            Some(Some(g)) => Some(g),
            _ => None,
        },
        user_openat: regex_is_match(user_openat_regex(), l),
        read_call: regex_is_match(read_regex(), l),
        write_call: regex_is_match(write_regex(), l),
    }
}

/// What the regular expressions find in the log `raw`.
pub open spec fn expected_matches(num_files: nat, raw: Seq<char>) -> TraceMatchesView {
    let a = analyzed_content(raw);
    let ls = lines_of(a);
    TraceMatchesView {
        lines: Seq::new(ls.len(), |i: int| expected_line_match(ls[i])),
        batch_sizes: regex_groups(batch_regex(), raw),
        fchmod_modes: regex_groups(fchmod_regex(), a),
        io_uring_ops: regex_groups(io_uring_op_regex(), raw),
        utimensat_symlinks: regex_match_count(utimensat_symlink_regex(), a),
        utimensat_fd_based: regex_match_count(utimensat_fd_regex(), a),
        utimensat_path_based: regex_match_count(utimensat_path_regex(), a),
        per_file: Seq::new(
            per_file_count(num_files),
            |i: int| (regex_match_count(statx_file_regex(i + 1), a), regex_match_count(openat_file_regex(i + 1), a)),
        ),
    }
}

/// Why an analysis could not run.
#[derive(Debug, Clone, Copy, PartialEq, Eq)]
pub enum AnalysisError {
    /// The regular-expression crate refused one of the patterns.
    InvalidPattern,
}

/// The name of the `n`th test file.
fn test_file_name_str(n: usize) -> (r: &'static str)
    requires
        1 <= n <= 3,
    ensures
        r@ == test_file_name(n as int),
{
    if n == 1 {
        "file1.bin"
    } else if n == 2 {
        "file2.bin"
    } else {
        "file3.bin"
    }
}

/// `prefix` followed by `rest`.
fn concat_str(prefix: &str, rest: &str) -> (r: String)
    ensures
        r@ == prefix@ + rest@,
{
    let mut s = String::from_str(prefix);
    s.append(rest);
    s
}

/// Runs the regular expressions of the analysis over the log `raw_content`.
pub fn match_trace(num_files: usize, raw_content: &str) -> (r: Result<TraceMatches, AnalysisError>)
    ensures
        r is Ok <==> trace_patterns_compile(num_files as nat),
        r matches Ok(m) ==> m@ == expected_matches(num_files as nat, raw_content@),
{
    let syscall_re = compile_pattern(r"(?:^\[?pid \d+\]?\s+)?(\w+)\(");
    let batch_re = compile_pattern(r"io_uring_enter\([0-9]+, (\d+),");
    let openat_re = compile_pattern(r#"openat\(AT_FDCWD, "/[^"]*""#);
    let fchmod_re = compile_pattern(r"fchmod\(\d+, (0[0-7]+)");
    let sym_re = compile_pattern(r"utimensat\([^)]+AT_SYMLINK_NOFOLLOW");
    let fd_re = compile_pattern(r"utimensat\(\d+, NULL");
    let path_re = compile_pattern(r#"utimensat\(AT_FDCWD, "/"#);
    let op_re = compile_pattern(r"IORING_OP_(\w+)");
    let read_re = compile_pattern(r"read\(\d+,");
    let write_re = compile_pattern(r"write\(\d+,");
    let (syscall_re, batch_re, openat_re, fchmod_re, sym_re, fd_re, path_re, op_re, read_re, write_re) =
        match (syscall_re, batch_re, openat_re, fchmod_re, sym_re, fd_re, path_re, op_re, read_re, write_re) {
            (Some(a), Some(b), Some(c), Some(d), Some(e), Some(f), Some(g), Some(h), Some(i), Some(j)) =>
                (a, b, c, d, e, f, g, h, i, j),
            _ => return Err(AnalysisError::InvalidPattern),
        };
    let (content, _startup) = analyzed_part(raw_content);
    let lines = split_lines(content.as_str());
    let ghost ls = lines_of(content@);
    let mut line_matches: Vec<LineMatch> = Vec::new();
    let mut i: usize = 0;
    while i < lines.len()
        invariant
            i <= lines@.len(),
            lines@.len() == ls.len(),
            forall|j: int| 0 <= j < lines@.len() ==> (#[trigger] lines@[j])@ == ls[j],
            syscall_re@ == syscall_regex(),
            openat_re@ == user_openat_regex(),
            read_re@ == read_regex(),
            write_re@ == write_regex(),
            line_matches@.len() == i,
            forall|j: int| 0 <= j < i ==> (#[trigger] line_matches@[j])@ == expected_line_match(ls[j]),
        decreases lines@.len() - i,
    {
        let line = lines[i].as_str();
        let syscall = match pattern_first_group(&syscall_re, line) {
            Some(Some(g)) => Some(g),
            _ => None,
        };
        let lm = LineMatch {
            syscall,
            user_openat: pattern_is_match(&openat_re, line),
            read_call: pattern_is_match(&read_re, line),
            write_call: pattern_is_match(&write_re, line),
        };
        line_matches.push(lm);
        i = i + 1;
    }
    let batch_sizes = pattern_groups(&batch_re, raw_content);
    let fchmod_modes = pattern_groups(&fchmod_re, content.as_str());
    let io_uring_ops = pattern_groups(&op_re, raw_content);
    let utimensat_symlinks = pattern_match_count(&sym_re, content.as_str());
    let utimensat_fd_based = pattern_match_count(&fd_re, content.as_str());
    let utimensat_path_based = pattern_match_count(&path_re, content.as_str());
    let k: usize = if num_files < 3 { num_files } else { 3 };
    let mut per_file: Vec<(usize, usize)> = Vec::new();
    let mut n: usize = 1;
    while n <= k
        invariant
            1 <= n <= k + 1,
            k == per_file_count(num_files as nat),
            k <= 3,
            per_file@.len() == n - 1,
            forall|j: int| 0 <= j < n - 1 ==> (#[trigger] per_file@[j]).0 == regex_match_count(statx_file_regex(j + 1), content@)
                && per_file@[j].1 == regex_match_count(openat_file_regex(j + 1), content@),
            forall|j: int| 1 <= j < n ==> #[trigger] regex_compiles(statx_file_regex(j)) && regex_compiles(openat_file_regex(j)),
        decreases k + 1 - n,
    {
        let escaped = escape_pattern(test_file_name_str(n));
        let statx_src = concat_str("statx.*/", escaped.as_str());
        let openat_src = concat_str("openat.*/", escaped.as_str());
        let statx_re = compile_pattern(statx_src.as_str());
        let openat_re_n = compile_pattern(openat_src.as_str());
        match (statx_re, openat_re_n) {
            (Some(sr), Some(or)) => {
                let sc = pattern_match_count(&sr, content.as_str());
                let oc = pattern_match_count(&or, content.as_str());
                per_file.push((sc, oc));
            },
            _ => {
                proof {
                    assert(!(regex_compiles(statx_file_regex(n as int)) && regex_compiles(openat_file_regex(n as int))));
                }
                return Err(AnalysisError::InvalidPattern);
            },
        }
        n = n + 1;
    }
    let m = TraceMatches {
        lines: line_matches,
        batch_sizes,
        fchmod_modes,
        io_uring_ops,
        utimensat_symlinks,
        utimensat_fd_based,
        utimensat_path_based,
        per_file,
    };
    proof {
        let e = expected_matches(num_files as nat, raw_content@);
        assert(m@.lines =~= e.lines);
        assert(m@.per_file =~= e.per_file);
    }
    Ok(m)
}

// ---------------------------------------------------------------------
// The counts.
// ---------------------------------------------------------------------

/// The contents of each string.
pub open spec fn string_views(v: Seq<String>) -> Seq<Seq<char>> {
    v.map_values(|l: String| l@)
}

/// How many of the indices `0..n` satisfy `f`.
pub open spec fn count_upto(n: int, f: spec_fn(int) -> bool) -> nat
    decreases n,
{
    if n <= 0 {
        0
    } else {
        count_upto(n - 1, f) + (if f(n - 1) { 1nat } else { 0nat })
    }
}

/// A line that continues or ends a call shown on an earlier line.
pub open spec fn continuation_line(l: Seq<char>) -> bool {
    first_non_ws(l) == Some('<') || first_non_ws(l) == Some('=')
}

/// Names of the calls on the first `n` lines, skipping continuation lines.
pub open spec fn syscall_names(ls: Seq<Seq<char>>, ms: Seq<LineMatchView>, n: int) -> Seq<Seq<char>>
    decreases n,
{
    if n <= 0 {
        Seq::empty()
    } else {
        let prev = syscall_names(ls, ms, n - 1);
        if !continuation_line(ls[n - 1]) && ms[n - 1].syscall is Some {
            prev.push(ms[n - 1].syscall->0)
        } else {
            prev
        }
    }
}

proof fn lemma_syscall_names_len(ls: Seq<Seq<char>>, ms: Seq<LineMatchView>, n: int)
    requires
        n >= 0,
    ensures
        syscall_names(ls, ms, n).len() <= n,
    decreases n,
{
    if n > 0 {
        lemma_syscall_names_len(ls, ms, n - 1);
    }
}

/// An `openat` of a user file: an absolute path outside `/etc`, `/lib`,
/// `/proc` and `/sys`.
pub open spec fn user_file_open(l: Seq<char>, m: LineMatchView) -> bool {
    m.user_openat && !has_infix(l, "/etc"@) && !has_infix(l, "/lib"@) && !has_infix(l, "/proc"@)
        && !has_infix(l, "/sys"@)
}

/// A call that `strace` split over two lines.
pub open spec fn incomplete_line(l: Seq<char>) -> bool {
    has_infix(l, "<unfinished"@) || has_infix(l, "<... "@)
}

/// An eight-byte transfer: event or pipe signalling, not file I/O.
pub open spec fn eight_byte_line(l: Seq<char>) -> bool {
    has_infix(l, ", 8)"@) || has_infix(l, "\\1\\0\\0\\0\\0\\0\\0\\0"@)
}

/// The groups that took part, in order.
pub open spec fn present_groups(gs: Seq<Option<Seq<char>>>) -> Seq<Seq<char>>
    decreases gs.len(),
{
    if gs.len() == 0 {
        Seq::empty()
    } else {
        let prev = present_groups(gs.drop_last());
        match gs.last() {
            Some(g) => prev.push(g),
            None => prev,
        }
    }
}

proof fn lemma_present_groups_len(gs: Seq<Option<Seq<char>>>)
    ensures
        present_groups(gs).len() <= gs.len(),
    decreases gs.len(),
{
    if gs.len() > 0 {
        lemma_present_groups_len(gs.drop_last());
    }
}

/// The batch sizes that read as `usize` numbers, in order.
pub open spec fn batch_values(gs: Seq<Option<Seq<char>>>) -> Seq<usize>
    decreases gs.len(),
{
    if gs.len() == 0 {
        Seq::empty()
    } else {
        let prev = batch_values(gs.drop_last());
        match gs.last() {
            Some(g) => match parse_unsigned(g, 10, usize::MAX as nat) {
                Some(v) => prev.push(v as usize),
                None => prev,
            },
            None => prev,
        }
    }
}

/// The mode a captured octal text gives, if it reads as a `u32`.
pub open spec fn mode_of(g: Option<Seq<char>>) -> Option<u32> {
    match g {
        Some(t) => match parse_unsigned(t, 8, u32::MAX as nat) {
            Some(v) => Some(v as u32),
            None => None,
        },
        None => None,
    }
}

/// A mode whose type bits say regular file.
pub open spec fn file_mode(mode: u32) -> bool {
    mode & 0o170000u32 == 0o100000u32
}

/// A mode whose type bits say directory, or a mode with no type bits that
/// holds permission bits only.
pub open spec fn dir_mode(mode: u32) -> bool {
    mode & 0o170000u32 == 0o040000u32 || (mode & 0o170000u32 == 0u32 && mode < 0o1000u32)
}

/// Calls on one test file.
pub struct FileStats {
    pub statx: usize,
    pub openat: usize,
    /// Every mention of the file's name.
    pub mentions: usize,
}

/// Calls on the source and destination trees.
pub struct DirectoryStats {
    pub src_statx: usize,
    pub src_openat: usize,
    pub getdents: usize,
    pub dst_fchmod: usize,
    pub dst_fchown: usize,
}

/// Counts of the calls in a log.
pub struct SyscallStats {
    pub io_uring_setup: usize,
    pub io_uring_enter: usize,
    pub io_uring_batch_sizes: Vec<usize>,
    pub statx_total: usize,
    pub statx_path_based: usize,
    pub statx_fd_based: usize,
    pub openat_total: usize,
    pub openat_path_based: usize,
    pub fallocate: usize,
    pub fchmod: usize,
    pub fchown: usize,
    pub utimensat_total: usize,
    pub utimensat_fd_based: usize,
    pub utimensat_path_based: usize,
    pub fchmod_files: usize,
    pub fchmod_dirs: usize,
    pub fchown_files: usize,
    pub fchown_dirs: usize,
    pub utimensat_files: usize,
    pub utimensat_dirs: usize,
    pub utimensat_symlinks: usize,
    pub mkdir_total: usize,
    pub mkdirat_total: usize,
    pub symlink_total: usize,
    pub symlinkat_total: usize,
    pub readlink_total: usize,
    pub readlinkat_total: usize,
    pub lstat_total: usize,
    pub io_uring_ops: Tally,
    pub open_total: usize,
    pub stat_total: usize,
    pub chmod_total: usize,
    pub chown_total: usize,
    pub utime_total: usize,
    pub utimes_total: usize,
    pub access_total: usize,
    pub creat_total: usize,
    pub read_total: usize,
    pub write_total: usize,
    pub pread_total: usize,
    pub pwrite_total: usize,
    pub per_file: Vec<(String, FileStats)>,
    pub dir_stats: DirectoryStats,
    pub all_syscalls: Tally,
    pub filtered_startup_syscalls: usize,
    pub filtered_eventfd_read: usize,
    pub filtered_eventfd_write: usize,
    pub filtered_incomplete_traces: usize,
}

/// The plain substring counts of `stats`, over the whole log `raw` and its
/// analyzed part `a`, with the source tree `src`.
pub open spec fn substring_counts_agree(s: SyscallStats, src: Seq<char>, raw: Seq<char>, a: Seq<char>) -> bool {
    &&& s.io_uring_setup == count_occ(raw, "io_uring_setup"@)
    &&& s.io_uring_enter == count_occ(raw, "io_uring_enter"@)
    &&& s.statx_total == count_occ(a, "statx("@)
    &&& s.statx_path_based == count_occ(a, "statx(AT_FDCWD"@) - count_occ(a, "statx(AT_FDCWD, \"\""@)
    &&& s.statx_fd_based == s.statx_total - s.statx_path_based
    &&& s.openat_total == count_occ(a, "openat("@)
    &&& s.fallocate == count_occ(a, "fallocate("@)
    &&& s.fchmod == count_occ(a, "fchmod"@)
    &&& s.fchown == count_occ(a, "fchown"@)
    &&& s.utimensat_total == count_occ(a, "utimensat"@)
    &&& s.mkdir_total == count_occ(a, "mkdir(\""@)
    &&& s.mkdirat_total == count_occ(a, "mkdirat("@)
    &&& s.symlink_total == count_occ(a, "symlink(\""@)
    &&& s.symlinkat_total == count_occ(a, "symlinkat("@)
    &&& s.readlink_total == count_occ(a, "readlink(\""@)
    &&& s.readlinkat_total == count_occ(a, "readlinkat("@)
    &&& s.lstat_total == count_occ(a, "lstat(\""@)
    &&& s.open_total == count_occ(a, "open(\""@)
    &&& s.stat_total == count_occ(a, "stat(\""@)
    &&& s.chmod_total == count_occ(a, "chmod(\""@)
    &&& s.chown_total == count_occ(a, "chown(\""@)
    &&& s.utime_total == count_occ(a, "utime("@)
    &&& s.utimes_total == count_occ(a, "utimes("@)
    &&& s.access_total == count_occ(a, "access("@)
    &&& s.creat_total == count_occ(a, "creat("@)
    &&& s.pread_total == count_occ(a, "pread"@)
    &&& s.pwrite_total == count_occ(a, "pwrite"@)
    &&& s.dir_stats.src_statx == count_occ(a, "statx.*\""@ + src + "\""@)
    &&& s.dir_stats.src_openat == count_occ(a, "openat.*\""@ + src + "\".*O_DIRECTORY"@)
    &&& s.dir_stats.getdents == count_occ(a, "getdents"@)
    &&& s.dir_stats.dst_fchmod == s.fchmod
    &&& s.dir_stats.dst_fchown == s.fchown
}

/// Lines among the first `n` that open a user file.
pub open spec fn user_open_count(ls: Seq<Seq<char>>, ms: Seq<LineMatchView>, n: int) -> nat {
    count_upto(n, |i: int| user_file_open(ls[i], ms[i]))
}

/// Each line adds one to the user-file `openat` count exactly when the
/// `openat` pattern matched it and it names nothing under `/etc`, `/lib`,
/// `/proc` or `/sys`; a line that names a path under any of them adds
/// nothing.
pub proof fn lemma_user_open_count_step(ls: Seq<Seq<char>>, ms: Seq<LineMatchView>, k: int)
    requires
        0 <= k,
    ensures
        user_open_count(ls, ms, k + 1) == user_open_count(ls, ms, k) + (if ms[k].user_openat && !has_infix(
            ls[k],
            "/etc"@,
        ) && !has_infix(ls[k], "/lib"@) && !has_infix(ls[k], "/proc"@) && !has_infix(ls[k], "/sys"@) {
            1nat
        } else {
            0nat
        }),
        has_infix(ls[k], "/sys"@) ==> user_open_count(ls, ms, k + 1) == user_open_count(ls, ms, k),
        has_infix(ls[k], "/proc"@) ==> user_open_count(ls, ms, k + 1) == user_open_count(ls, ms, k),
        has_infix(ls[k], "/lib"@) ==> user_open_count(ls, ms, k + 1) == user_open_count(ls, ms, k),
        has_infix(ls[k], "/etc"@) ==> user_open_count(ls, ms, k + 1) == user_open_count(ls, ms, k),
        !ms[k].user_openat ==> user_open_count(ls, ms, k + 1) == user_open_count(ls, ms, k),
{
}

/// No user-file `openat` is counted among the first `n` lines when each of
/// them either did not match the `openat` pattern or names a path under
/// `/etc`, `/lib`, `/proc` or `/sys`; and the count never exceeds the
/// number of lines.
pub proof fn lemma_system_opens_not_counted(ls: Seq<Seq<char>>, ms: Seq<LineMatchView>, n: int)
    requires
        0 <= n,
    ensures
        (forall|i: int| 0 <= i < n ==> !(#[trigger] ms[i]).user_openat || has_infix(ls[i], "/etc"@)
            || has_infix(ls[i], "/lib"@) || has_infix(ls[i], "/proc"@) || has_infix(ls[i], "/sys"@))
            ==> user_open_count(ls, ms, n) == 0,
        user_open_count(ls, ms, n) <= n,
    decreases n,
{
    if n > 0 {
        lemma_system_opens_not_counted(ls, ms, n - 1);
        lemma_user_open_count_step(ls, ms, n - 1);
        if forall|i: int| 0 <= i < n ==> !(#[trigger] ms[i]).user_openat || has_infix(ls[i], "/etc"@)
            || has_infix(ls[i], "/lib"@) || has_infix(ls[i], "/proc"@) || has_infix(ls[i], "/sys"@) {
            assert(!ms[n - 1].user_openat || has_infix(ls[n - 1], "/etc"@) || has_infix(ls[n - 1], "/lib"@)
                || has_infix(ls[n - 1], "/proc"@) || has_infix(ls[n - 1], "/sys"@));
        }
    }
}

/// Lines among the first `n` that `strace` split.
pub open spec fn incomplete_count(ls: Seq<Seq<char>>, n: int) -> nat {
    count_upto(n, |i: int| incomplete_line(ls[i]))
}

/// Whole lines among the first `n` that read (`write == false`) or write,
/// eight bytes (`eight == true`) or otherwise.
pub open spec fn transfer_count(ls: Seq<Seq<char>>, ms: Seq<LineMatchView>, n: int, write: bool, eight: bool) -> nat {
    count_upto(
        n,
        |i: int|
            !incomplete_line(ls[i]) && (if write { ms[i].write_call } else { ms[i].read_call })
                && eight_byte_line(ls[i]) == eight,
    )
}

/// Each line adds one to the split-call count exactly when it holds
/// `<unfinished` or `<... `, and one to exactly one transfer count when it
/// is a whole read or write line: the eight-byte count when it shows an
/// eight-byte transfer, the file I/O count otherwise.
pub proof fn lemma_line_count_steps(ls: Seq<Seq<char>>, ms: Seq<LineMatchView>, k: int, write: bool, eight: bool)
    requires
        0 <= k,
    ensures
        incomplete_count(ls, k + 1) == incomplete_count(ls, k) + (if has_infix(ls[k], "<unfinished"@)
            || has_infix(ls[k], "<... "@) {
            1nat
        } else {
            0nat
        }),
        transfer_count(ls, ms, k + 1, write, eight) == transfer_count(ls, ms, k, write, eight) + (if !has_infix(
            ls[k],
            "<unfinished"@,
        ) && !has_infix(ls[k], "<... "@) && (if write {
            ms[k].write_call
        } else {
            ms[k].read_call
        }) && (has_infix(ls[k], ", 8)"@) || has_infix(ls[k], "\\1\\0\\0\\0\\0\\0\\0\\0"@)) == eight {
            1nat
        } else {
            0nat
        }),
{
}

/// The counts of `stats` that come from the lines of the analyzed part.
pub open spec fn line_counts_agree(s: SyscallStats, ls: Seq<Seq<char>>, ms: Seq<LineMatchView>) -> bool {
    let n = ls.len() as int;
    &&& s.all_syscalls@ == tally_of(syscall_names(ls, ms, n))
    &&& s.openat_path_based == user_open_count(ls, ms, n)
    &&& s.filtered_incomplete_traces == incomplete_count(ls, n)
    &&& s.filtered_eventfd_read == transfer_count(ls, ms, n, false, true)
    &&& s.read_total == transfer_count(ls, ms, n, false, false)
    &&& s.filtered_eventfd_write == transfer_count(ls, ms, n, true, true)
    &&& s.write_total == transfer_count(ls, ms, n, true, false)
}

/// Modes among the first `n` captured texts that are of a regular file
/// (`dir == false`) or of a directory.
pub open spec fn mode_count(f: Seq<Option<Seq<char>>>, n: int, dir: bool) -> nat {
    count_upto(
        n,
        |i: int|
            match mode_of(f[i]) {
                Some(md) => if dir { dir_mode(md) } else { file_mode(md) },
                None => false,
            },
    )
}

/// The counts of `stats` that come from what the regular expressions found.
pub open spec fn match_counts_agree(s: SyscallStats, num_files: nat, a: Seq<char>, m: TraceMatchesView) -> bool {
    let f = m.fchmod_modes;
    &&& s.io_uring_batch_sizes@ == batch_values(m.batch_sizes)
    &&& s.io_uring_ops@ == tally_of(present_groups(m.io_uring_ops))
    &&& s.fchmod_files == mode_count(f, f.len() as int, false)
    &&& s.fchmod_dirs == mode_count(f, f.len() as int, true)
    &&& s.fchown_files == s.fchmod_files
    &&& s.fchown_dirs == s.fchmod_dirs
    &&& s.utimensat_files == s.fchmod_files
    &&& s.utimensat_dirs == s.fchmod_dirs
    &&& s.utimensat_symlinks == m.utimensat_symlinks
    &&& s.utimensat_fd_based == m.utimensat_fd_based
    &&& s.utimensat_path_based == m.utimensat_path_based
    &&& s.per_file@.len() == per_file_count(num_files)
    &&& forall|i: int| 0 <= i < per_file_count(num_files) ==> {
        &&& (#[trigger] s.per_file@[i]).0@ == test_file_name(i + 1)
        &&& s.per_file@[i].1.statx == m.per_file[i].0
        &&& s.per_file@[i].1.openat == m.per_file[i].1
        &&& s.per_file@[i].1.mentions == count_occ(a, test_file_name(i + 1))
    }
}

/// `stats` holds the counts of the log `raw`, given what the regular
/// expressions found there (`m`), the number of test files and the source
/// tree `src`.
pub open spec fn stats_agree(s: SyscallStats, num_files: nat, src: Seq<char>, raw: Seq<char>, m: TraceMatchesView) -> bool {
    let a = analyzed_content(raw);
    &&& s.filtered_startup_syscalls == startup_line_count(raw)
    &&& substring_counts_agree(s, src, raw, a)
    &&& line_counts_agree(s, lines_of(a), m.lines)
    &&& match_counts_agree(s, num_files, a, m)
}

/// Tallies the call names of the lines, skipping continuation lines.
fn tally_syscalls(lines: &Vec<String>, ms: &Vec<LineMatch>) -> (r: Tally)
    requires
        lines@.len() == ms@.len(),
    ensures
        r@ == tally_of(syscall_names(string_views(lines@), ms@.map_values(|l: LineMatch| l@), lines@.len() as int)),
{
    let ghost lv = string_views(lines@);
    let ghost mv = ms@.map_values(|l: LineMatch| l@);
    let mut t = Tally::new();
    let mut i: usize = 0;
    assert(tally_of(syscall_names(lv, mv, 0)) =~= Map::<Seq<char>, nat>::empty());
    while i < lines.len()
        invariant
            i <= lines@.len(),
            lines@.len() == ms@.len(),
            lv == string_views(lines@),
            mv == ms@.map_values(|l: LineMatch| l@),
            t@ == tally_of(syscall_names(lv, mv, i as int)),
        decreases lines@.len() - i,
    {
        let first = first_non_whitespace(lines[i].as_str());
        let continuation = match first {
            Some(ch) => ch == '<' || ch == '=',
            None => false,
        };
        assert(lv[i as int] == lines@[i as int]@);
        assert(mv[i as int] == ms@[i as int]@);
        if !continuation {
            match &ms[i].syscall {
                Some(name) => {
                    proof {
                        let prev = syscall_names(lv, mv, i as int);
                        lemma_syscall_names_len(lv, mv, i as int);
                        lemma_tally_bounded(prev, name@);
                        assert(prev.push(name@).drop_last() =~= prev);
                    }
                    t.add(name.as_str());
                },
                None => {},
            }
        }
        i = i + 1;
    }
    t
}

/// Counts the lines that open a user file.
fn count_user_opens(lines: &Vec<String>, ms: &Vec<LineMatch>) -> (r: usize)
    requires
        lines@.len() == ms@.len(),
    ensures
        r == user_open_count(string_views(lines@), ms@.map_values(|l: LineMatch| l@), lines@.len() as int),
{
    let ghost lv = string_views(lines@);
    let ghost mv = ms@.map_values(|l: LineMatch| l@);
    let mut count: usize = 0;
    let mut i: usize = 0;
    while i < lines.len()
        invariant
            i <= lines@.len(),
            lines@.len() == ms@.len(),
            lv == string_views(lines@),
            mv == ms@.map_values(|l: LineMatch| l@),
            count <= i,
            count == user_open_count(lv, mv, i as int),
        decreases lines@.len() - i,
    {
        let line = lines[i].as_str();
        assert(lv[i as int] == lines@[i as int]@);
        assert(mv[i as int] == ms@[i as int]@);
        if ms[i].user_openat && !str_contains(line, "/etc") && !str_contains(line, "/lib")
            && !str_contains(line, "/proc") && !str_contains(line, "/sys") {
            count = count + 1;
        }
        i = i + 1;
    }
    count
}

/// Counts split lines, and whole reads and writes of eight bytes and of
/// other sizes.
fn count_transfers(lines: &Vec<String>, ms: &Vec<LineMatch>) -> (r: (usize, usize, usize, usize, usize))
    requires
        lines@.len() == ms@.len(),
    ensures
        ({
            let lv = string_views(lines@);
            let mv = ms@.map_values(|l: LineMatch| l@);
            let n = lines@.len() as int;
            &&& r.0 == incomplete_count(lv, n)
            &&& r.1 == transfer_count(lv, mv, n, false, true)
            &&& r.2 == transfer_count(lv, mv, n, false, false)
            &&& r.3 == transfer_count(lv, mv, n, true, true)
            &&& r.4 == transfer_count(lv, mv, n, true, false)
        }),
{
    let ghost lv = string_views(lines@);
    let ghost mv = ms@.map_values(|l: LineMatch| l@);
    let mut incomplete: usize = 0;
    let mut eventfd_read: usize = 0;
    let mut read: usize = 0;
    let mut eventfd_write: usize = 0;
    let mut write: usize = 0;
    let mut i: usize = 0;
    while i < lines.len()
        invariant
            i <= lines@.len(),
            lines@.len() == ms@.len(),
            lv == string_views(lines@),
            mv == ms@.map_values(|l: LineMatch| l@),
            incomplete <= i && eventfd_read <= i && read <= i && eventfd_write <= i && write <= i,
            incomplete == incomplete_count(lv, i as int),
            eventfd_read == transfer_count(lv, mv, i as int, false, true),
            read == transfer_count(lv, mv, i as int, false, false),
            eventfd_write == transfer_count(lv, mv, i as int, true, true),
            write == transfer_count(lv, mv, i as int, true, false),
        decreases lines@.len() - i,
    {
        let line = lines[i].as_str();
        assert(lv[i as int] == lines@[i as int]@);
        assert(mv[i as int] == ms@[i as int]@);
        if str_contains(line, "<unfinished") || str_contains(line, "<... ") {
            incomplete = incomplete + 1;
        } else {
            let eight = str_contains(line, ", 8)") || str_contains(line, "\\1\\0\\0\\0\\0\\0\\0\\0");
            if ms[i].read_call {
                if eight {
                    eventfd_read = eventfd_read + 1;
                } else {
                    read = read + 1;
                }
            }
            if ms[i].write_call {
                if eight {
                    eventfd_write = eventfd_write + 1;
                } else {
                    write = write + 1;
                }
            }
        }
        i = i + 1;
    }
    (incomplete, eventfd_read, read, eventfd_write, write)
}

/// The batch sizes that read as numbers.
fn batch_sizes_of(gs: &Vec<Option<String>>) -> (r: Vec<usize>)
    ensures
        r@ == batch_values(gs.deep_view()),
{
    let ghost gv = gs.deep_view();
    let mut out: Vec<usize> = Vec::new();
    let mut i: usize = 0;
    assert(gv.take(0) =~= Seq::<Option<Seq<char>>>::empty());
    while i < gs.len()
        invariant
            i <= gs@.len(),
            gv == gs.deep_view(),
            out@ == batch_values(gv.take(i as int)),
        decreases gs@.len() - i,
    {
        assert(gv.take(i + 1).drop_last() =~= gv.take(i as int));
        assert(gv[i as int] == gs@[i as int].deep_view());
        match &gs[i] {
            Some(g) => {
                match parse_unsigned_str(g.as_str(), 10, usize::MAX as u64) {
                    Some(v) => {
                        out.push(v as usize);
                    },
                    None => {},
                }
            },
            None => {},
        }
        i = i + 1;
    }
    assert(gv.take(i as int) =~= gv);
    out
}

/// Counts the captured modes of regular files and of directories.
fn mode_counts(gs: &Vec<Option<String>>) -> (r: (usize, usize))
    ensures
        r.0 == mode_count(gs.deep_view(), gs@.len() as int, false),
        r.1 == mode_count(gs.deep_view(), gs@.len() as int, true),
{
    let ghost gv = gs.deep_view();
    let mut files: usize = 0;
    let mut dirs: usize = 0;
    let mut i: usize = 0;
    while i < gs.len()
        invariant
            i <= gs@.len(),
            gv == gs.deep_view(),
            files <= i && dirs <= i,
            files == mode_count(gv, i as int, false),
            dirs == mode_count(gv, i as int, true),
        decreases gs@.len() - i,
    {
        assert(gv[i as int] == gs@[i as int].deep_view());
        match &gs[i] {
            Some(g) => {
                match parse_unsigned_str(g.as_str(), 8, u32::MAX as u64) {
                    Some(v) => {
                        let mode = v as u32;
                        let kind = mode & 0o170000u32;
                        if kind == 0o100000u32 {
                            files = files + 1;
                        } else if kind == 0o040000u32 || (kind == 0u32 && mode < 0o1000u32) {
                            dirs = dirs + 1;
                        }
                    },
                    None => {},
                }
            },
            None => {},
        }
        i = i + 1;
    }
    (files, dirs)
}

/// Tallies the groups that took part.
fn tally_groups(gs: &Vec<Option<String>>) -> (r: Tally)
    ensures
        r@ == tally_of(present_groups(gs.deep_view())),
{
    let ghost gv = gs.deep_view();
    let mut t = Tally::new();
    let mut i: usize = 0;
    assert(gv.take(0) =~= Seq::<Option<Seq<char>>>::empty());
    assert(tally_of(present_groups(gv.take(0))) =~= Map::<Seq<char>, nat>::empty());
    while i < gs.len()
        invariant
            i <= gs@.len(),
            gv == gs.deep_view(),
            t@ == tally_of(present_groups(gv.take(i as int))),
        decreases gs@.len() - i,
    {
        assert(gv.take(i + 1).drop_last() =~= gv.take(i as int));
        assert(gv[i as int] == gs@[i as int].deep_view());
        match &gs[i] {
            Some(g) => {
                proof {
                    let prev = present_groups(gv.take(i as int));
                    lemma_present_groups_len(gv.take(i as int));
                    lemma_tally_bounded(prev, g@);
                    assert(prev.push(g@).drop_last() =~= prev);
                }
                t.add(g.as_str());
            },
            None => {},
        }
        i = i + 1;
    }
    assert(gv.take(i as int) =~= gv);
    t
}

/// The counts of the log `raw_content`, given what the regular expressions
/// found in it (`m`), the number of test files and the source tree.
pub fn summarize_trace(num_files: usize, test_dir_src: &str, raw_content: &str, m: &TraceMatches) -> (r: SyscallStats)
    requires
        m@.lines.len() == lines_of(analyzed_content(raw_content@)).len(),
        m@.per_file.len() == per_file_count(num_files as nat),
    ensures
        stats_agree(r, num_files as nat, test_dir_src@, raw_content@, m@),
{
    let (content, startup) = analyzed_part(raw_content);
    let a = chars_of(content.as_str());
    let rc = chars_of(raw_content);
    let lines = split_lines(content.as_str());
    let ghost ls = lines_of(content@);
    proof {
        assert(string_views(lines@) =~= ls);
        assert(m.lines@.map_values(|l: LineMatch| l@) == m@.lines);
        reveal_strlit("io_uring_setup");
        reveal_strlit("io_uring_enter");
        reveal_strlit("statx(");
        reveal_strlit("statx(AT_FDCWD");
        reveal_strlit("statx(AT_FDCWD, \"\"");
        reveal_strlit("openat(");
        reveal_strlit("fallocate(");
        reveal_strlit("fchmod");
        reveal_strlit("fchown");
        reveal_strlit("utimensat");
        reveal_strlit("mkdir(\"");
        reveal_strlit("mkdirat(");
        reveal_strlit("symlink(\"");
        reveal_strlit("symlinkat(");
        reveal_strlit("readlink(\"");
        reveal_strlit("readlinkat(");
        reveal_strlit("lstat(\"");
        reveal_strlit("open(\"");
        reveal_strlit("stat(\"");
        reveal_strlit("chmod(\"");
        reveal_strlit("chown(\"");
        reveal_strlit("utime(");
        reveal_strlit("utimes(");
        reveal_strlit("access(");
        reveal_strlit("creat(");
        reveal_strlit("pread");
        reveal_strlit("pwrite");
        reveal_strlit("getdents");
        reveal_strlit("statx.*\"");
        reveal_strlit("openat.*\"");
        reveal_strlit("file1.bin");
        reveal_strlit("file2.bin");
        reveal_strlit("file3.bin");
    }
    let all_syscalls = tally_syscalls(&lines, &m.lines);
    let openat_path_based = count_user_opens(&lines, &m.lines);
    let (incomplete, eventfd_read, read_total, eventfd_write, write_total) = count_transfers(&lines, &m.lines);
    let statx_total = count_str(&a, "statx(");
    let statx_at_cwd = count_str(&a, "statx(AT_FDCWD");
    let statx_empty_path = count_str(&a, "statx(AT_FDCWD, \"\"");
    proof {
        assert("statx(AT_FDCWD, \"\""@.take(14) =~= "statx(AT_FDCWD"@);
        lemma_count_occ_longer_pattern(a@, "statx(AT_FDCWD"@, "statx(AT_FDCWD, \"\""@);
        assert("statx(AT_FDCWD"@.take(6) =~= "statx("@);
        lemma_count_occ_longer_pattern(a@, "statx("@, "statx(AT_FDCWD"@);
    }
    let statx_path_based = statx_at_cwd - statx_empty_path;
    let statx_fd_based = statx_total - statx_path_based;
    let fchmod = count_str(&a, "fchmod");
    let fchown = count_str(&a, "fchown");
    let (fchmod_files, fchmod_dirs) = mode_counts(&m.fchmod_modes);
    let src_statx_pattern = concat_str("statx.*\"", test_dir_src);
    let src_statx_pattern = concat_str(src_statx_pattern.as_str(), "\"");
    let src_openat_pattern = concat_str("openat.*\"", test_dir_src);
    let src_openat_pattern = concat_str(src_openat_pattern.as_str(), "\".*O_DIRECTORY");
    let src_statx_chars = chars_of(src_statx_pattern.as_str());
    let src_openat_chars = chars_of(src_openat_pattern.as_str());
    let dir_stats = DirectoryStats {
        src_statx: count_occurrences(&a, &src_statx_chars),
        src_openat: count_occurrences(&a, &src_openat_chars),
        getdents: count_str(&a, "getdents"),
        dst_fchmod: fchmod,
        dst_fchown: fchown,
    };
    let k: usize = if num_files < 3 { num_files } else { 3 };
    let mut per_file: Vec<(String, FileStats)> = Vec::new();
    let mut n: usize = 1;
    while n <= k
        invariant
            1 <= n <= k + 1,
            k == per_file_count(num_files as nat),
            k <= 3,
            m@.per_file.len() == k,
            a@ == content@,
            per_file@.len() == n - 1,
            forall|j: int| 0 <= j < n - 1 ==> {
                &&& (#[trigger] per_file@[j]).0@ == test_file_name(j + 1)
                &&& per_file@[j].1.statx == m@.per_file[j].0
                &&& per_file@[j].1.openat == m@.per_file[j].1
                &&& per_file@[j].1.mentions == count_occ(a@, test_file_name(j + 1))
            },
        decreases k + 1 - n,
    {
        let name = test_file_name_str(n);
        proof {
            reveal_strlit("file1.bin");
            reveal_strlit("file2.bin");
            reveal_strlit("file3.bin");
        }
        let (statx, openat) = m.per_file[n - 1];
        let mentions = count_str(&a, name);
        per_file.push((String::from_str(name), FileStats { statx, openat, mentions }));
        n = n + 1;
    }
    SyscallStats {
        io_uring_setup: count_str(&rc, "io_uring_setup"),
        io_uring_enter: count_str(&rc, "io_uring_enter"),
        io_uring_batch_sizes: batch_sizes_of(&m.batch_sizes),
        statx_total,
        statx_path_based,
        statx_fd_based,
        openat_total: count_str(&a, "openat("),
        openat_path_based,
        fallocate: count_str(&a, "fallocate("),
        fchmod,
        fchown,
        utimensat_total: count_str(&a, "utimensat"),
        utimensat_fd_based: m.utimensat_fd_based,
        utimensat_path_based: m.utimensat_path_based,
        fchmod_files,
        fchmod_dirs,
        fchown_files: fchmod_files,
        fchown_dirs: fchmod_dirs,
        utimensat_files: fchmod_files,
        utimensat_dirs: fchmod_dirs,
        utimensat_symlinks: m.utimensat_symlinks,
        mkdir_total: count_str(&a, "mkdir(\""),
        mkdirat_total: count_str(&a, "mkdirat("),
        symlink_total: count_str(&a, "symlink(\""),
        symlinkat_total: count_str(&a, "symlinkat("),
        readlink_total: count_str(&a, "readlink(\""),
        readlinkat_total: count_str(&a, "readlinkat("),
        lstat_total: count_str(&a, "lstat(\""),
        io_uring_ops: tally_groups(&m.io_uring_ops),
        open_total: count_str(&a, "open(\""),
        stat_total: count_str(&a, "stat(\""),
        chmod_total: count_str(&a, "chmod(\""),
        chown_total: count_str(&a, "chown(\""),
        utime_total: count_str(&a, "utime("),
        utimes_total: count_str(&a, "utimes("),
        access_total: count_str(&a, "access("),
        creat_total: count_str(&a, "creat("),
        read_total,
        write_total,
        pread_total: count_str(&a, "pread"),
        pwrite_total: count_str(&a, "pwrite"),
        per_file,
        dir_stats,
        all_syscalls,
        filtered_startup_syscalls: startup,
        filtered_eventfd_read: eventfd_read,
        filtered_eventfd_write: eventfd_write,
        filtered_incomplete_traces: incomplete,
    }
}

/// Counts the calls in the `strace` log `raw_content` of a copy of
/// `num_files` test files from the tree `test_dir_src`. Fails only where
/// the regular-expression crate refuses one of the patterns.
pub fn parse_strace_output(num_files: usize, test_dir_src: &str, raw_content: &str) -> (r: Result<SyscallStats, AnalysisError>)
    ensures
        r is Ok <==> trace_patterns_compile(num_files as nat),
        r matches Ok(s) ==> stats_agree(s, num_files as nat, test_dir_src@, raw_content@, expected_matches(num_files as nat, raw_content@)),
{
    match match_trace(num_files, raw_content) {
        Ok(m) => Ok(summarize_trace(num_files, test_dir_src, raw_content, &m)),
        Err(e) => Err(e),
    }
}

/// Every `statx` of the analyzed part is counted once, as path-based or as
/// descriptor-based: the two counts add up to the total.
pub proof fn lemma_statx_split(s: SyscallStats, num_files: nat, src: Seq<char>, raw: Seq<char>, m: TraceMatchesView)
    requires
        stats_agree(s, num_files, src, raw, m),
    ensures
        s.statx_path_based + s.statx_fd_based == s.statx_total,
        s.statx_path_based <= count_occ(analyzed_content(raw), "statx(AT_FDCWD"@),
{
    let a = analyzed_content(raw);
    reveal_strlit("statx(");
    reveal_strlit("statx(AT_FDCWD");
    reveal_strlit("statx(AT_FDCWD, \"\"");
    assert("statx(AT_FDCWD, \"\""@.take(14) =~= "statx(AT_FDCWD"@);
    lemma_count_occ_longer_pattern(a, "statx(AT_FDCWD"@, "statx(AT_FDCWD, \"\""@);
    assert("statx(AT_FDCWD"@.take(6) =~= "statx("@);
    lemma_count_occ_longer_pattern(a, "statx("@, "statx(AT_FDCWD"@);
}

} // verus!
