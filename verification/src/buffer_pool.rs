//! Buffer pool for memory reuse across I/O operations.
//!
//! Two sub-pools are kept: I/O buffers of a configured size and metadata
//! buffers of 4 KB. Buffers are pre-allocated, handed out in FIFO order,
//! allocated anew only when the pool is empty, and returned through the
//! guard that holds them (`PooledBuffer::return_to_pool`).

use vstd::prelude::*;
use vstd::rwlock::{RwLock, RwLockPredicate};
use std::collections::VecDeque;
use std::sync::Arc;

verus! {

/// Size of metadata buffers (statx, readlink, xattr).
pub const METADATA_BUFFER_SIZE: usize = 4096;

// ============================================================================
// LEDGER: the pool's state and its bookkeeping
// ============================================================================

/// State of one sub-pool: the buffers waiting to be reused and the counters.
#[derive(Debug)]
pub struct PoolLedger {
    available: VecDeque<Vec<u8>>,
    total_allocated: usize,
    current_in_use: usize,
    peak_usage: usize,
    total_acquisitions: usize,
}

/// The contents of the available buffers, oldest first.
pub open spec fn buffers_view(q: Seq<Vec<u8>>) -> Seq<Seq<u8>> {
    q.map_values(|b: Vec<u8>| b@)
}

/// Abstract state of a sub-pool.
pub struct LedgerView {
    /// Buffers waiting to be reused, oldest first.
    pub available: Seq<Seq<u8>>,
    /// Buffers allocated over the pool's life.
    pub allocated: nat,
    /// Buffers handed out and not returned.
    pub in_use: nat,
    /// Largest number of buffers out at once.
    pub peak: nat,
    /// Acquisitions, counted modulo the word size.
    pub acquisitions: nat,
}

/// `x + 1`, wrapping to 0 past the largest `usize`.
pub open spec fn wrapping_inc(x: nat) -> nat {
    if x >= usize::MAX { 0 } else { x + 1 }
}

/// A zeroed buffer of `n` bytes.
pub open spec fn zeros(n: nat) -> Seq<u8> {
    Seq::new(n, |j: int| 0u8)
}

impl LedgerView {
    /// The ledger's invariant for a pool of `buffer_size`-byte buffers that
    /// started with `initial` buffers: every waiting buffer is full size,
    /// every allocated buffer is either waiting or out, the peak lies between
    /// the buffers out and the buffers allocated, buffers are never freed,
    /// and the counters fit a word.
    pub open spec fn wf(self, buffer_size: nat, initial: nat) -> bool {
        &&& forall|i: int| 0 <= i < self.available.len() ==> (#[trigger] self.available[i]).len() == buffer_size
        &&& self.available.len() + self.in_use == self.allocated
        &&& self.in_use <= self.peak
        &&& self.peak <= self.allocated
        &&& initial <= self.allocated
        &&& self.allocated <= usize::MAX
        &&& self.peak <= usize::MAX
        &&& self.acquisitions <= usize::MAX
    }

    /// The state after handing out a buffer, and the buffer: the oldest
    /// waiting one, or a new zeroed one when none waits. Once the allocation
    /// counter is at its largest value a new buffer is handed out without
    /// being counted.
    pub open spec fn acquire(self, buffer_size: nat) -> (LedgerView, Seq<u8>) {
        let (available, allocated, in_use, data) = if self.available.len() > 0 {
            (self.available.drop_first(), self.allocated, self.in_use + 1, self.available[0])
        } else if self.allocated < usize::MAX {
            (self.available, self.allocated + 1, self.in_use + 1, zeros(buffer_size))
        } else {
            (self.available, self.allocated, self.in_use, zeros(buffer_size))
        };
        (LedgerView {
            available,
            allocated,
            in_use,
            peak: if in_use > self.peak { in_use } else { self.peak },
            acquisitions: wrapping_inc(self.acquisitions),
        }, data)
    }

    /// The state after a buffer is returned: restored to full size and
    /// queued behind the waiting ones. With no buffer out, the returned one
    /// is dropped.
    pub open spec fn release(self, buffer_size: nat, data: Seq<u8>) -> LedgerView {
        if self.in_use == 0 {
            self
        } else {
            LedgerView {
                available: self.available.push(resized(data, buffer_size)),
                in_use: (self.in_use - 1) as nat,
                ..self
            }
        }
    }
}

/// `d` cut or zero-extended to `n` bytes.
pub open spec fn resized(d: Seq<u8>, n: nat) -> Seq<u8> {
    if n <= d.len() {
        d.subrange(0, n as int)
    } else {
        d + zeros((n - d.len()) as nat)
    }
}

impl PoolLedger {
    /// The abstract state of this ledger.
    pub closed spec fn view(self) -> LedgerView {
        LedgerView {
            available: buffers_view(self.available@),
            allocated: self.total_allocated as nat,
            in_use: self.current_in_use as nat,
            peak: self.peak_usage as nat,
            acquisitions: self.total_acquisitions as nat,
        }
    }

    /// A ledger with `initial_count` zeroed buffers of `buffer_size` bytes.
    pub fn new(buffer_size: usize, initial_count: usize) -> (l: Self)
        ensures
            l@.wf(buffer_size as nat, initial_count as nat),
            l@.available == Seq::new(initial_count as nat, |i: int| zeros(buffer_size as nat)),
            l@.allocated == initial_count,
            l@.in_use == 0,
            l@.peak == 0,
            l@.acquisitions == 0,
    {
        let mut buffers: VecDeque<Vec<u8>> = VecDeque::with_capacity(initial_count);
        let mut n: usize = 0;
        while n < initial_count
            invariant
                n <= initial_count,
                buffers@.len() == n,
                forall|i: int| 0 <= i < n ==> #[trigger] buffers@[i]@ == zeros(buffer_size as nat),
            decreases initial_count - n,
        {
            let b = zeroed_buffer(buffer_size);
            buffers.push_back(b);
            n = n + 1;
        }
        proof {
            assert(buffers_view(buffers@) =~= Seq::new(initial_count as nat, |i: int| zeros(buffer_size as nat)));
        }
        PoolLedger {
            available: buffers,
            total_allocated: initial_count,
            current_in_use: 0,
            peak_usage: 0,
            total_acquisitions: 0,
        }
    }

    /// Hand out a buffer: the oldest waiting one, or a new zeroed buffer
    /// when none is waiting.
    pub fn acquire(&mut self, buffer_size: usize, Ghost(initial): Ghost<usize>) -> (data: Vec<u8>)
        requires
            old(self)@.wf(buffer_size as nat, initial as nat),
        ensures
            final(self)@.wf(buffer_size as nat, initial as nat),
            (final(self)@, data@) == old(self)@.acquire(buffer_size as nat),
            data@.len() == buffer_size,
    {
        self.total_acquisitions = self.total_acquisitions.wrapping_add(1);
        let ghost before = self.available@;
        let popped = self.available.pop_front();
        let data = match popped {
            Some(buffer) => {
                proof {
                    assert(buffers_view(before)[0] == buffer@);
                    assert(buffers_view(self.available@) =~= buffers_view(before).drop_first());
                }
                self.current_in_use = self.current_in_use + 1;
                buffer
            },
            None => {
                if self.total_allocated < usize::MAX {
                    self.total_allocated = self.total_allocated + 1;
                    self.current_in_use = self.current_in_use + 1;
                }
                zeroed_buffer(buffer_size)
            },
        };
        if self.current_in_use > self.peak_usage {
            self.peak_usage = self.current_in_use;
        }
        data
    }

    /// Take back a buffer: it is restored to full size and queued behind the
    /// waiting ones. A buffer returned while the ledger shows none out (which
    /// correct use never does) is dropped instead.
    pub fn release(&mut self, buffer_size: usize, data: Vec<u8>, Ghost(initial): Ghost<usize>)
        requires
            old(self)@.wf(buffer_size as nat, initial as nat),
        ensures
            final(self)@.wf(buffer_size as nat, initial as nat),
            final(self)@ == old(self)@.release(buffer_size as nat, data@),
    {
        if self.current_in_use == 0 {
            return;
        }
        let mut data = data;
        let ghost d_orig = data@;
        if data.len() != buffer_size {
            let ghost d0 = data@;
            data.resize(buffer_size, 0u8);
            proof {
                if buffer_size > d0.len() {
                    assert forall|i: int| d0.len() <= i < buffer_size implies data@[i] == 0u8 by {
                        assert(cloned::<u8>(0u8, data@[i]));
                    }
                }
                assert(data@ =~= resized(d0, buffer_size as nat));
            }
        }
        proof {
            assert(data@ =~= resized(d_orig, buffer_size as nat));
        }
        let ghost before = self.available@;
        self.current_in_use = self.current_in_use - 1;
        self.available.push_back(data);
        proof {
            assert(buffers_view(self.available@) =~= buffers_view(before).push(data@));
        }
    }

    /// Counters as a snapshot.
    pub fn snapshot(&self) -> (s: PoolStatsSnapshot)
        ensures
            s.total_allocated == self@.allocated,
            s.current_in_use == self@.in_use,
            s.peak_usage == self@.peak,
            s.total_acquisitions == self@.acquisitions,
    {
        PoolStatsSnapshot {
            total_allocated: self.total_allocated,
            current_in_use: self.current_in_use,
            peak_usage: self.peak_usage,
            total_acquisitions: self.total_acquisitions,
        }
    }
}

/// Statistics for a pool.
#[derive(Debug, Clone, Copy, PartialEq, Eq)]
pub struct PoolStatsSnapshot {
    /// Total buffers ever allocated.
    pub total_allocated: usize,
    /// Currently in use.
    pub current_in_use: usize,
    /// Peak simultaneous usage.
    pub peak_usage: usize,
    /// Total acquisitions.
    pub total_acquisitions: usize,
}

/// A buffer of `n` zero bytes.
fn zeroed_buffer(n: usize) -> (v: Vec<u8>)
    ensures
        v@ == zeros(n as nat),
{
    let mut v: Vec<u8> = Vec::with_capacity(n);
    let mut i: usize = 0;
    while i < n
        invariant
            i <= n,
            v@ == zeros(i as nat),
        decreases n - i,
    {
        v.push(0u8);
        i = i + 1;
        assert(v@ =~= zeros(i as nat));
    }
    v
}

/// Every state the pool passes through keeps its invariant: acquiring and
/// releasing preserve it, and a buffer handed out is always full size.
pub proof fn lemma_ledger_invariant_preserved(v: LedgerView, buffer_size: nat, initial: nat, returned: Seq<u8>)
    requires
        v.wf(buffer_size, initial),
    ensures
        v.acquire(buffer_size).0.wf(buffer_size, initial),
        v.acquire(buffer_size).1.len() == buffer_size,
        v.release(buffer_size, returned).wf(buffer_size, initial),
{
    let w = v.release(buffer_size, returned);
    if v.in_use > 0 {
        assert forall|i: int| 0 <= i < w.available.len() implies (#[trigger] w.available[i]).len() == buffer_size by {
            if i < v.available.len() {
                assert(w.available[i] == v.available[i]);
            }
        }
    }
}

/// A pool never allocates while a buffer is waiting: acquiring from a
/// non-empty pool hands out the oldest waiting buffer and leaves the
/// allocation count unchanged.
pub proof fn lemma_acquire_reuses_before_allocating(v: LedgerView, buffer_size: nat)
    requires
        v.available.len() > 0,
    ensures
        v.acquire(buffer_size).0.allocated == v.allocated,
        v.acquire(buffer_size).1 == v.available[0],
{
}

/// A buffer returned to an empty pool is the very buffer the next
/// acquisition hands out, and no new buffer is allocated for it.
pub proof fn lemma_release_then_acquire_reuses(v: LedgerView, buffer_size: nat, returned: Seq<u8>)
    requires
        v.available.len() == 0,
        v.in_use > 0,
    ensures
        v.release(buffer_size, returned).acquire(buffer_size).1 == resized(returned, buffer_size),
        v.release(buffer_size, returned).acquire(buffer_size).0.allocated == v.allocated,
        v.release(buffer_size, returned).acquire(buffer_size).0.in_use == v.in_use,
{
}

/// Acquiring a buffer and returning it leaves the number of buffers out as
/// it was; the pool keeps the buffer it had to allocate, if any.
pub proof fn lemma_acquire_release_balance(v: LedgerView, buffer_size: nat, initial: nat)
    requires
        v.wf(buffer_size, initial),
        v.available.len() > 0 || v.allocated < usize::MAX,
    ensures
        v.acquire(buffer_size).0.release(buffer_size, v.acquire(buffer_size).1).in_use == v.in_use,
        v.acquire(buffer_size).0.release(buffer_size, v.acquire(buffer_size).1).available.len()
            == v.available.len() + (if v.available.len() > 0 { 0nat } else { 1nat }),
        v.acquire(buffer_size).0.release(buffer_size, v.acquire(buffer_size).1).allocated
            == v.allocated + (if v.available.len() > 0 { 0nat } else { 1nat }),
{
}

/// A returned buffer is queued at full size, whatever length it came back
/// with.
pub proof fn lemma_resized_is_full_size(d: Seq<u8>, n: nat)
    ensures
        resized(d, n).len() == n,
        d.len() == n ==> resized(d, n) == d,
{
    if d.len() == n {
        assert(d.subrange(0, n as int) =~= d);
    }
}

// ============================================================================
// SHARED POOLS
// ============================================================================

/// Lock predicate of a sub-pool: its ledger keeps the invariant for the
/// sub-pool's buffer size and initial count.
pub struct LedgerInvariant {
    pub buffer_size: usize,
    pub initial: usize,
}

impl RwLockPredicate<PoolLedger> for LedgerInvariant {
    open spec fn inv(self, l: PoolLedger) -> bool {
        l@.wf(self.buffer_size as nat, self.initial as nat)
    }
}

/// A sub-pool of equally sized buffers, shared by the guards it hands out.
pub struct BufferSubPool {
    buffer_size: usize,
    initial_count: usize,
    ledger: RwLock<PoolLedger, LedgerInvariant>,
}

impl BufferSubPool {
    #[verifier::type_invariant]
    spec fn wf(self) -> bool {
        self.ledger.pred() == (LedgerInvariant { buffer_size: self.buffer_size, initial: self.initial_count })
    }

    /// Size of the buffers of this sub-pool.
    pub closed spec fn spec_buffer_size(self) -> usize {
        self.buffer_size
    }

    /// Buffers the sub-pool was created with.
    pub closed spec fn spec_initial_count(self) -> usize {
        self.initial_count
    }

    /// A sub-pool with `initial_count` pre-allocated buffers.
    fn new(buffer_size: usize, initial_count: usize) -> (p: Self)
        ensures
            p.spec_buffer_size() == buffer_size,
            p.spec_initial_count() == initial_count,
    {
        let ledger = PoolLedger::new(buffer_size, initial_count);
        let lock = RwLock::new(ledger, Ghost(LedgerInvariant { buffer_size, initial: initial_count }));
        BufferSubPool { buffer_size, initial_count, ledger: lock }
    }

    /// Acquire a buffer from this pool, in a guard that returns it through
    /// `return_to_pool`.
    fn acquire(pool: &Arc<Self>) -> (b: PooledBuffer)
        ensures
            b.spec_data() matches Some(d) && d.len() == pool.spec_buffer_size(),
            b.spec_pool() == **pool,
    {
        proof { use_type_invariant(&**pool); }
        let (mut ledger, handle) = pool.ledger.acquire_write();
        let data = ledger.acquire(pool.buffer_size, Ghost(pool.initial_count));
        handle.release_write(ledger);
        PooledBuffer { data: Some(data), pool: Arc::clone(pool) }
    }

    /// Release a buffer back to the pool.
    fn release(&self, data: Vec<u8>) {
        proof { use_type_invariant(self); }
        let (mut ledger, handle) = self.ledger.acquire_write();
        ledger.release(self.buffer_size, data, Ghost(self.initial_count));
        handle.release_write(ledger);
    }

    /// Read the counters.
    fn snapshot(&self) -> (s: PoolStatsSnapshot)
        ensures
            s.current_in_use <= s.total_allocated,
            s.current_in_use <= s.peak_usage,
            s.peak_usage <= s.total_allocated,
            self.spec_initial_count() <= s.total_allocated,
    {
        proof { use_type_invariant(self); }
        let handle = self.ledger.acquire_read();
        let s = handle.borrow().snapshot();
        handle.release_read();
        s
    }
}

/// Guard for a pooled buffer: the buffer goes back to its pool through
/// `return_to_pool`; a guard dropped without it keeps the buffer out of the
/// pool, which then counts it as in use. The buffer can be taken out for an
/// I/O operation and put back afterwards.
pub struct PooledBuffer {
    data: Option<Vec<u8>>,
    pool: Arc<BufferSubPool>,
}

impl PooledBuffer {
    /// The buffer the guard holds, if it has not been taken.
    pub closed spec fn spec_data(self) -> Option<Seq<u8>> {
        match self.data {
            Some(d) => Some(d@),
            None => None,
        }
    }

    /// The pool the buffer returns to.
    pub closed spec fn spec_pool(self) -> BufferSubPool {
        *self.pool
    }

    /// Take ownership of the buffer for an I/O operation.
    pub fn take(&mut self) -> (data: Vec<u8>)
        requires
            old(self).spec_data() is Some,
        ensures
            old(self).spec_data() == Some(data@),
            final(self).spec_data() is None,
            final(self).spec_pool() == old(self).spec_pool(),
    {
        match self.data.take() {
            Some(d) => d,
            None => Vec::new(),
        }
    }

    /// Put the buffer back after an I/O operation.
    pub fn restore(&mut self, data: Vec<u8>)
        requires
            old(self).spec_data() is None,
        ensures
            final(self).spec_data() == Some(data@),
            final(self).spec_pool() == old(self).spec_pool(),
    {
        self.data = Some(data);
    }

    /// Return the held buffer to its pool, if the guard still holds one.
    pub fn return_to_pool(&mut self)
        ensures
            final(self).spec_data() is None,
            final(self).spec_pool() == old(self).spec_pool(),
    {
        if let Some(d) = self.data.take() {
            self.pool.release(d);
        }
    }
}

/// Thread-safe buffer pool with two buffer types.
pub struct BufferPool {
    io_pool: Arc<BufferSubPool>,
    metadata_pool: Arc<BufferSubPool>,
}

/// Aggregate pool statistics.
#[derive(Debug, Clone, Copy, PartialEq, Eq)]
pub struct BufferPoolStats {
    /// I/O pool statistics.
    pub io_pool: PoolStatsSnapshot,
    /// Metadata pool statistics.
    pub metadata_pool: PoolStatsSnapshot,
}

impl BufferPool {
    /// Size of I/O buffers.
    pub closed spec fn spec_io_buffer_size(self) -> usize {
        self.io_pool.spec_buffer_size()
    }

    /// Size of metadata buffers.
    pub closed spec fn spec_metadata_buffer_size(self) -> usize {
        self.metadata_pool.spec_buffer_size()
    }

    /// Pre-allocated I/O buffers.
    pub closed spec fn spec_io_initial(self) -> usize {
        self.io_pool.spec_initial_count()
    }

    /// Pre-allocated metadata buffers.
    pub closed spec fn spec_metadata_initial(self) -> usize {
        self.metadata_pool.spec_initial_count()
    }

    /// Create a buffer pool: `2 * concurrency` I/O buffers of
    /// `io_buffer_size` bytes (for read/write pipelining) and `concurrency`
    /// metadata buffers of 4 KB are pre-allocated.
    pub fn new(io_buffer_size: usize, concurrency: usize) -> (p: Arc<Self>)
        requires
            2 * concurrency <= usize::MAX,
        ensures
            p.spec_io_buffer_size() == io_buffer_size,
            p.spec_metadata_buffer_size() == METADATA_BUFFER_SIZE,
            p.spec_io_initial() == 2 * concurrency,
            p.spec_metadata_initial() == concurrency,
    {
        let io_pool_size = 2 * concurrency;
        let metadata_pool_size = concurrency;
        let io_pool = Arc::new(BufferSubPool::new(io_buffer_size, io_pool_size));
        let metadata_pool = Arc::new(BufferSubPool::new(METADATA_BUFFER_SIZE, metadata_pool_size));
        Arc::new(BufferPool { io_pool, metadata_pool })
    }

    /// Acquire an I/O buffer (configured size).
    pub fn acquire_io_buffer(&self) -> (b: PooledBuffer)
        ensures
            b.spec_data() matches Some(d) && d.len() == self.spec_io_buffer_size(),
    {
        BufferSubPool::acquire(&self.io_pool)
    }

    /// Acquire a metadata buffer (4 KB).
    pub fn acquire_metadata_buffer(&self) -> (b: PooledBuffer)
        ensures
            b.spec_data() matches Some(d) && d.len() == self.spec_metadata_buffer_size(),
    {
        BufferSubPool::acquire(&self.metadata_pool)
    }

    /// Get pool statistics for both pools. Counts taken under concurrent use
    /// are a snapshot; each satisfies the pool's bookkeeping invariant.
    pub fn stats(&self) -> (s: BufferPoolStats)
        ensures
            s.io_pool.current_in_use <= s.io_pool.total_allocated,
            s.io_pool.current_in_use <= s.io_pool.peak_usage,
            s.io_pool.peak_usage <= s.io_pool.total_allocated,
            self.spec_io_initial() <= s.io_pool.total_allocated,
            s.metadata_pool.current_in_use <= s.metadata_pool.total_allocated,
            s.metadata_pool.current_in_use <= s.metadata_pool.peak_usage,
            s.metadata_pool.peak_usage <= s.metadata_pool.total_allocated,
            self.spec_metadata_initial() <= s.metadata_pool.total_allocated,
    {
        BufferPoolStats { io_pool: self.io_pool.snapshot(), metadata_pool: self.metadata_pool.snapshot() }
    }
}

} // verus!
