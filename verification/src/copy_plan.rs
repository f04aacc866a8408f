//! Planning of file content copies: how a large file is split into regions
//! for parallel tasks, and the chunk-by-chunk progress of each read/write
//! loop.

use vstd::prelude::*;

verus! {

/// Default I/O buffer size for chunked read/write (64 KB).
pub const BUFFER_SIZE: usize = 65536;

/// Huge-page size (2 MB) to which parallel regions are aligned.
pub const HUGE_PAGE_SIZE: u64 = 2097152;

/// `offset` rounded down to a multiple of `page_size`.
pub open spec fn spec_align_down(offset: u64, page_size: u64) -> int {
    (offset / page_size) * page_size
}

/// Align offset to page boundary (round down).
pub fn align_to_page(offset: u64, page_size: u64) -> (r: u64)
    requires
        page_size > 0,
    ensures
        r == spec_align_down(offset, page_size),
        r <= offset,
        offset - r < page_size,
        r % page_size == 0,
{
    let q = offset / page_size;
    proof {
        assert(q * page_size <= offset && offset - q * page_size < page_size) by (nonlinear_arith)
            requires q == offset / page_size, page_size > 0;
        assert((q * page_size) % (page_size as int) == 0) by (nonlinear_arith)
            requires page_size > 0;
    }
    q * page_size
}

/// Number of parallel tasks for a split depth: `2^depth`.
pub open spec fn spec_task_count(max_depth: usize) -> nat {
    vstd::arithmetic::power2::pow2(max_depth as nat)
}

/// Size of each region before the last one absorbs the remainder.
pub open spec fn spec_region_size(file_size: u64, tasks: nat) -> int {
    file_size as int / tasks as int
}

/// Start of region `i`: `i * region_size`, rounded down to a huge page for
/// every region but the first.
pub open spec fn spec_region_start(file_size: u64, tasks: nat, i: int) -> int {
    let raw = i * spec_region_size(file_size, tasks);
    if i > 0 { (raw / HUGE_PAGE_SIZE as int) * HUGE_PAGE_SIZE as int } else { raw }
}

/// End (exclusive) of region `i`: the next region's unaligned start, or the
/// file size for the last region.
pub open spec fn spec_region_end(file_size: u64, tasks: nat, i: int) -> int {
    if i == tasks - 1 { file_size as int } else { (i + 1) * spec_region_size(file_size, tasks) }
}

/// Outcome of one read/write round of a copy loop.
#[derive(Debug, Clone, Copy, PartialEq, Eq)]
pub enum CopyStep {
    /// The read returned no data: the source is exhausted and the loop ends.
    EndOfData,
    /// The bytes read were all written; the loop moved on by this many bytes.
    Advanced(usize),
    /// The write stored a different number of bytes than were read; the copy
    /// fails.
    WriteMismatch { read: usize, written: usize },
}

/// Progress of one chunked read/write copy loop over `[start, limit)`.
///
/// In a clipped loop each read asks for at most what is left of the range;
/// otherwise each read asks for a full chunk, and the loop stops once the
/// offset reaches the limit or a read returns nothing.
#[derive(Debug, Clone, Copy)]
pub struct ChunkedCopy {
    start: u64,
    offset: u64,
    limit: u64,
    chunk: usize,
    clip: bool,
}

impl ChunkedCopy {
    #[verifier::type_invariant]
    spec fn wf(self) -> bool {
        self.start <= self.offset
    }

    /// Where the loop started.
    pub closed spec fn spec_start(self) -> u64 {
        self.start
    }

    /// Offset of the next read and write.
    pub closed spec fn spec_offset(self) -> u64 {
        self.offset
    }

    /// End of the range (exclusive).
    pub closed spec fn spec_limit(self) -> u64 {
        self.limit
    }

    /// Largest read the loop asks for.
    pub closed spec fn spec_chunk(self) -> usize {
        self.chunk
    }

    /// Whether reads are clipped to the end of the range.
    pub closed spec fn spec_clip(self) -> bool {
        self.clip
    }

    /// The size of the next read, or `None` when the range is done.
    pub open spec fn spec_next_request(self) -> Option<usize> {
        if self.spec_offset() >= self.spec_limit() {
            None
        } else if self.spec_clip() && self.spec_limit() - self.spec_offset() < self.spec_chunk() {
            Some((self.spec_limit() - self.spec_offset()) as usize)
        } else {
            Some(self.spec_chunk())
        }
    }

    /// Copy of the region `[start, end)` of a file in chunks of at most
    /// `chunk_size` bytes (one task of a parallel copy).
    pub fn for_region(start: u64, end: u64, chunk_size: usize) -> (c: Self)
        ensures
            c.spec_start() == start,
            c.spec_offset() == start,
            c.spec_limit() == end,
            c.spec_chunk() == chunk_size,
            c.spec_clip(),
    {
        ChunkedCopy { start, offset: start, limit: end, chunk: chunk_size, clip: true }
    }

    /// Copy of a whole file of known size with a reused buffer of
    /// `buffer_size` bytes: every read asks for a full buffer.
    pub fn for_file(file_size: u64, buffer_size: usize) -> (c: Self)
        ensures
            c.spec_start() == 0,
            c.spec_offset() == 0,
            c.spec_limit() == file_size,
            c.spec_chunk() == buffer_size,
            !c.spec_clip(),
    {
        ChunkedCopy { start: 0, offset: 0, limit: file_size, chunk: buffer_size, clip: false }
    }

    /// Copy of a whole file, read until a read returns nothing.
    pub fn until_end_of_data(buffer_size: usize) -> (c: Self)
        ensures
            c.spec_start() == 0,
            c.spec_offset() == 0,
            c.spec_limit() == u64::MAX,
            c.spec_chunk() == buffer_size,
            !c.spec_clip(),
    {
        ChunkedCopy { start: 0, offset: 0, limit: u64::MAX, chunk: buffer_size, clip: false }
    }

    /// Offset of the next read and write.
    pub fn offset(&self) -> (r: u64)
        ensures
            r == self.spec_offset(),
    {
        self.offset
    }

    /// Bytes copied so far.
    pub fn copied(&self) -> (r: u64)
        ensures
            r == self.spec_offset() - self.spec_start(),
    {
        proof { use_type_invariant(self); }
        self.offset - self.start
    }

    /// The size of the next read, or `None` when the range is done.
    pub fn next_request(&self) -> (r: Option<usize>)
        ensures
            r == self.spec_next_request(),
    {
        if self.offset >= self.limit {
            None
        } else if self.clip && self.limit - self.offset < self.chunk as u64 {
            Some((self.limit - self.offset) as usize)
        } else {
            Some(self.chunk)
        }
    }

    /// Record one round: `bytes_read` of the `requested` bytes were read at
    /// the current offset and `bytes_written` of them were written there.
    pub fn record(&mut self, requested: usize, bytes_read: usize, bytes_written: usize) -> (step: CopyStep)
        requires
            bytes_read <= requested,
            old(self).spec_offset() + bytes_read <= u64::MAX,
        ensures
            final(self).spec_start() == old(self).spec_start(),
            final(self).spec_limit() == old(self).spec_limit(),
            final(self).spec_chunk() == old(self).spec_chunk(),
            final(self).spec_clip() == old(self).spec_clip(),
            bytes_read == 0 ==> step == CopyStep::EndOfData && final(self).spec_offset() == old(self).spec_offset(),
            bytes_read != 0 && bytes_written != bytes_read ==> step == (CopyStep::WriteMismatch {
                read: bytes_read,
                written: bytes_written,
            }) && final(self).spec_offset() == old(self).spec_offset(),
            bytes_read != 0 && bytes_written == bytes_read ==> step == CopyStep::Advanced(bytes_read)
                && final(self).spec_offset() == old(self).spec_offset() + bytes_read,
    {
        proof { use_type_invariant(&*self); }
        if bytes_read == 0 {
            CopyStep::EndOfData
        } else if bytes_written != bytes_read {
            CopyStep::WriteMismatch { read: bytes_read, written: bytes_written }
        } else {
            self.offset = self.offset + bytes_read as u64;
            CopyStep::Advanced(bytes_read)
        }
    }
}

/// A clipped loop never reads or writes past the end of its region: the
/// requested range ends at or before the limit, and after any round whose
/// read stayed within the request the offset is still at or before the
/// limit.
pub proof fn lemma_clipped_copy_stays_in_region(c: ChunkedCopy, bytes_read: usize)
    requires
        c.spec_clip(),
        c.spec_next_request() is Some,
        bytes_read <= c.spec_next_request()->0,
    ensures
        c.spec_offset() + c.spec_next_request()->0 <= c.spec_limit(),
        c.spec_offset() + bytes_read <= c.spec_limit(),
        c.spec_next_request()->0 <= c.spec_chunk(),
{
}

/// A loop that is not done with a non-empty chunk asks for a non-empty read,
/// so every round that advances strictly increases the offset.
pub proof fn lemma_copy_makes_progress(c: ChunkedCopy)
    requires
        c.spec_chunk() > 0,
        c.spec_offset() < c.spec_limit(),
    ensures
        c.spec_next_request() is Some,
        c.spec_next_request()->0 > 0,
{
}

/// Every region lies within the file and starts no later than it ends.
pub proof fn lemma_region_bounds(file_size: u64, tasks: nat, i: int)
    requires
        tasks >= 1,
        0 <= i < tasks,
    ensures
        0 <= i * spec_region_size(file_size, tasks) <= file_size,
        0 <= (i + 1) * spec_region_size(file_size, tasks) <= file_size,
        0 <= spec_region_start(file_size, tasks, i) <= i * spec_region_size(file_size, tasks),
        spec_region_start(file_size, tasks, i) <= spec_region_end(file_size, tasks, i) <= file_size,
{
    let rs = spec_region_size(file_size, tasks);
    assert(0 <= rs && rs * tasks <= file_size) by (nonlinear_arith)
        requires rs == file_size as int / tasks as int, tasks >= 1, file_size >= 0;
    assert(0 <= i * rs <= (i + 1) * rs <= tasks * rs) by (nonlinear_arith)
        requires 0 <= i < tasks, rs >= 0;
    let raw = i * rs;
    assert(0 <= (raw / HUGE_PAGE_SIZE as int) * HUGE_PAGE_SIZE as int <= raw) by (nonlinear_arith)
        requires raw >= 0;
}

/// Split `file_size` bytes into `2^max_depth` regions for parallel copying.
/// Region `i` is `[start_i, end_i)`: see `spec_region_start` and
/// `spec_region_end`.
pub fn plan_parallel_regions(file_size: u64, max_depth: usize) -> (regions: Vec<(u64, u64)>)
    requires
        max_depth < 32,
    ensures
        regions@.len() == spec_task_count(max_depth),
        forall|i: int| 0 <= i < regions@.len() ==> {
            &&& regions@[i].0 == spec_region_start(file_size, spec_task_count(max_depth), i)
            &&& regions@[i].1 == spec_region_end(file_size, spec_task_count(max_depth), i)
        },
{
    proof {
        vstd::arithmetic::power2::lemma_pow2_pos(max_depth as nat);
        vstd::arithmetic::power2::lemma2_to64();
        vstd::arithmetic::power2::lemma_pow2_strictly_increases(max_depth as nat, 32);
        vstd::bits::lemma_usize_shl_is_mul(1, max_depth);
    }
    let num_tasks: usize = 1usize << max_depth;
    let ghost tasks = spec_task_count(max_depth);
    let region_size: u64 = file_size / (num_tasks as u64);
    let mut regions: Vec<(u64, u64)> = Vec::with_capacity(num_tasks);
    let mut task_id: usize = 0;
    while task_id < num_tasks
        invariant
            num_tasks == tasks,
            tasks >= 1,
            region_size == spec_region_size(file_size, tasks),
            task_id <= num_tasks,
            regions@.len() == task_id,
            forall|i: int| 0 <= i < task_id ==> {
                &&& regions@[i].0 == spec_region_start(file_size, tasks, i)
                &&& regions@[i].1 == spec_region_end(file_size, tasks, i)
            },
        decreases num_tasks - task_id,
    {
        proof { lemma_region_bounds(file_size, tasks, task_id as int); }
        let start: u64 = (task_id as u64) * region_size;
        let end: u64 = if task_id == num_tasks - 1 {
            file_size
        } else {
            ((task_id as u64) + 1) * region_size
        };
        let start_aligned: u64 = if task_id > 0 { align_to_page(start, HUGE_PAGE_SIZE) } else { start };
        regions.push((start_aligned, end));
        task_id = task_id + 1;
    }
    regions
}

/// The regions of a parallel copy together cover the whole file: every byte
/// offset below the file size lies in some region, so no byte is left
/// uncopied (regions may overlap where a start was rounded down).
pub proof fn lemma_regions_cover_file(file_size: u64, max_depth: usize, o: int)
    requires
        0 <= o < file_size,
    ensures
        exists|i: int| 0 <= i < spec_task_count(max_depth)
            && spec_region_start(file_size, spec_task_count(max_depth), i) <= o
            && o < spec_region_end(file_size, spec_task_count(max_depth), i),
{
    let tasks = spec_task_count(max_depth);
    vstd::arithmetic::power2::lemma_pow2_pos(max_depth as nat);
    let rs = spec_region_size(file_size, tasks);
    assert(0 <= rs) by (nonlinear_arith)
        requires rs == file_size as int / tasks as int, tasks >= 1, file_size >= 0;
    if rs == 0 {
        let i = tasks - 1;
        lemma_region_bounds(file_size, tasks, i);
        assert(i * rs == 0) by (nonlinear_arith) requires rs == 0;
        assert(spec_region_start(file_size, tasks, i) <= o);
    } else {
        let q = o / rs;
        assert(q * rs <= o < (q + 1) * rs && q >= 0) by (nonlinear_arith)
            requires q == o / rs, rs > 0, o >= 0;
        let i = if q < tasks - 1 { q } else { tasks - 1 };
        lemma_region_bounds(file_size, tasks, i);
        assert(i * rs <= q * rs) by (nonlinear_arith) requires 0 <= i <= q, rs > 0;
        assert(spec_region_start(file_size, tasks, i) <= o);
        assert(o < spec_region_end(file_size, tasks, i));
    }
}

/// The first region starts at offset 0 and the last ends at the file size.
pub proof fn lemma_regions_span_file(file_size: u64, max_depth: usize)
    ensures
        spec_region_start(file_size, spec_task_count(max_depth), 0) == 0,
        spec_region_end(file_size, spec_task_count(max_depth), spec_task_count(max_depth) - 1) == file_size,
{
}

} // verus!
