//! Adaptive concurrency control with file-descriptor awareness.
//!
//! The controller owns a pool of permits (one per file in flight). When the
//! process runs out of file descriptors (EMFILE) it either fails, or shrinks
//! the pool, never below a configured floor.

use vstd::prelude::*;
use crate::error::SyncError;
use crate::text::{has_infix, str_contains};
use vstd::string::StringExecFns;

verus! {

// ============================================================================
// CONFIGURATION
// ============================================================================

/// The floor for adaptive reduction: 10 permits, or a tenth of the maximum
/// when that is larger.
pub open spec fn spec_min_permits(max_files_in_flight: usize) -> usize {
    if max_files_in_flight / 10 > 10 { max_files_in_flight / 10 } else { 10 }
}

/// Concurrency control configuration options.
///
/// `max_files_in_flight` is always at least 1.
#[derive(Debug, Clone, Copy)]
pub struct ConcurrencyOptions {
    max_files_in_flight: usize,
    min_permits: usize,
    fail_on_exhaustion: bool,
}

impl ConcurrencyOptions {
    #[verifier::type_invariant]
    spec fn wf(self) -> bool {
        &&& self.max_files_in_flight >= 1
        &&& self.min_permits == spec_min_permits(self.max_files_in_flight)
    }

    /// Maximum number of concurrent operations.
    pub closed spec fn spec_max_files_in_flight(self) -> usize {
        self.max_files_in_flight
    }

    /// Floor below which adaptation never reduces the permits.
    pub closed spec fn spec_min_permits(self) -> usize {
        self.min_permits
    }

    /// Whether EMFILE is a hard failure.
    pub closed spec fn spec_fail_on_exhaustion(self) -> bool {
        self.fail_on_exhaustion
    }

    /// Create options; a maximum of 0 is raised to 1, and the floor is
    /// `max(10, max / 10)`.
    pub fn new(max_files_in_flight: usize, fail_on_exhaustion: bool) -> (o: Self)
        ensures
            o.spec_max_files_in_flight() == (if max_files_in_flight == 0 { 1 } else { max_files_in_flight }),
            o.spec_min_permits() == spec_min_permits(o.spec_max_files_in_flight()),
            o.spec_fail_on_exhaustion() == fail_on_exhaustion,
    {
        let max = if max_files_in_flight == 0 { 1 } else { max_files_in_flight };
        let tenth = max / 10;
        let min_value = if tenth > 10 { tenth } else { 10 };
        ConcurrencyOptions { max_files_in_flight: max, min_permits: min_value, fail_on_exhaustion }
    }

    /// Get the maximum files in flight.
    pub fn max_files_in_flight(&self) -> (r: usize)
        ensures
            r == self.spec_max_files_in_flight(),
            r >= 1,
    {
        proof { use_type_invariant(self); }
        self.max_files_in_flight
    }

    /// Get the minimum permits (floor for adaptive reduction).
    pub fn min_permits(&self) -> (r: usize)
        ensures
            r == self.spec_min_permits(),
            r == spec_min_permits(self.spec_max_files_in_flight()),
            r >= 10,
    {
        proof { use_type_invariant(self); }
        self.min_permits
    }

    /// Check if the controller should fail on exhaustion.
    pub fn fail_on_exhaustion(&self) -> (r: bool)
        ensures
            r == self.spec_fail_on_exhaustion(),
    {
        self.fail_on_exhaustion
    }
}

// ============================================================================
// PERMITS
// ============================================================================

/// Counting pool of permits with a shrinkable maximum.
#[derive(Debug, Clone, Copy)]
pub struct PermitPool {
    max_permits: usize,
    available: usize,
}

impl PermitPool {
    #[verifier::type_invariant]
    spec fn wf(self) -> bool {
        self.available <= self.max_permits
    }

    /// Total permits the pool hands out.
    pub closed spec fn spec_max(self) -> usize {
        self.max_permits
    }

    /// Permits not currently handed out.
    pub closed spec fn spec_available(self) -> usize {
        self.available
    }

    /// A pool with `n` permits, all available.
    pub fn new(n: usize) -> (p: Self)
        ensures
            p.spec_max() == n,
            p.spec_available() == n,
    {
        PermitPool { max_permits: n, available: n }
    }

    /// Total permits.
    pub fn max_permits(&self) -> (r: usize)
        ensures
            r == self.spec_max(),
    {
        self.max_permits
    }

    /// Permits not handed out.
    pub fn available_permits(&self) -> (r: usize)
        ensures
            r == self.spec_available(),
            r <= self.spec_max(),
    {
        proof { use_type_invariant(self); }
        self.available
    }

    /// Take a permit if one is available.
    pub fn try_acquire(&mut self) -> (got: bool)
        ensures
            got == (old(self).spec_available() > 0),
            final(self).spec_max() == old(self).spec_max(),
            final(self).spec_available() == (if got { old(self).spec_available() - 1 } else { old(self).spec_available() as int }),
    {
        proof { use_type_invariant(&*self); }
        if self.available > 0 {
            self.available = self.available - 1;
            true
        } else {
            false
        }
    }

    /// Give a permit back. A permit returned after the pool shrank below the
    /// number handed out is retired instead of made available again.
    pub fn release(&mut self)
        ensures
            final(self).spec_max() == old(self).spec_max(),
            final(self).spec_available() == (if old(self).spec_available() < old(self).spec_max() { old(self).spec_available() + 1 } else { old(self).spec_available() as int }),
    {
        proof { use_type_invariant(&*self); }
        if self.available < self.max_permits {
            self.available = self.available + 1;
        }
    }

    /// Retire up to `n` available permits, keeping at least `floor` permits in
    /// the pool. Returns how many were retired.
    pub fn reduce_permits(&mut self, n: usize, floor: usize) -> (actual: usize)
        ensures
            actual == spec_reduction(n, old(self).spec_available(), old(self).spec_max(), floor),
            final(self).spec_max() == old(self).spec_max() - actual,
            final(self).spec_available() == old(self).spec_available() - actual,
    {
        proof { use_type_invariant(&*self); }
        let room = if self.max_permits > floor { self.max_permits - floor } else { 0 };
        let mut actual = n;
        if self.available < actual {
            actual = self.available;
        }
        if room < actual {
            actual = room;
        }
        *self = PermitPool { max_permits: self.max_permits - actual, available: self.available - actual };
        actual
    }
}

/// How many permits a reduction by `n` retires: no more than asked, no more
/// than are free, and never taking the pool below `floor`.
pub open spec fn spec_reduction(n: usize, available: usize, max: usize, floor: usize) -> usize {
    let room: usize = if max > floor { (max - floor) as usize } else { 0 };
    let a: usize = if available < n { available } else { n };
    if room < a { room } else { a }
}

// ============================================================================
// CONTROLLER
// ============================================================================

/// Whether an error reports file-descriptor exhaustion: its message mentions
/// "Too many open files", "EMFILE" or "os error 24".
pub open spec fn spec_is_emfile(error: SyncError) -> bool {
    has_infix(error.spec_message(), "Too many open files"@)
        || has_infix(error.spec_message(), "EMFILE"@)
        || has_infix(error.spec_message(), "os error 24"@)
}

/// Adaptive concurrency controller that responds to resource constraints.
#[derive(Debug, Clone, Copy)]
pub struct AdaptiveConcurrencyController {
    semaphore: PermitPool,
    emfile_errors: usize,
    emfile_warned: bool,
    min_permits: usize,
    fail_on_exhaustion: bool,
}

/// Statistics about concurrency control.
#[derive(Debug, Clone, Copy, PartialEq, Eq)]
pub struct ConcurrencyStats {
    /// Maximum permits configured.
    pub max_permits: usize,
    /// Currently available permits.
    pub available_permits: usize,
    /// Permits currently in use.
    pub in_use: usize,
    /// Number of EMFILE errors encountered.
    pub emfile_errors: usize,
}

impl AdaptiveConcurrencyController {
    /// The permit pool.
    pub closed spec fn spec_permits(self) -> PermitPool {
        self.semaphore
    }

    /// EMFILE errors seen so far (counted modulo the word size).
    pub closed spec fn spec_emfile_errors(self) -> usize {
        self.emfile_errors
    }

    /// Whether a reduction has already been reported.
    pub closed spec fn spec_warned(self) -> bool {
        self.emfile_warned
    }

    /// Floor for reductions.
    pub closed spec fn spec_min_permits(self) -> usize {
        self.min_permits
    }

    /// Whether EMFILE is a hard failure.
    pub closed spec fn spec_fail_on_exhaustion(self) -> bool {
        self.fail_on_exhaustion
    }

    /// Create a new adaptive controller from options.
    pub fn new(options: &ConcurrencyOptions) -> (c: Self)
        ensures
            c.spec_permits().spec_max() == options.spec_max_files_in_flight(),
            c.spec_permits().spec_available() == options.spec_max_files_in_flight(),
            c.spec_emfile_errors() == 0,
            !c.spec_warned(),
            c.spec_min_permits() == options.spec_min_permits(),
            c.spec_fail_on_exhaustion() == options.spec_fail_on_exhaustion(),
    {
        AdaptiveConcurrencyController {
            semaphore: PermitPool::new(options.max_files_in_flight()),
            emfile_errors: 0,
            emfile_warned: false,
            min_permits: options.min_permits(),
            fail_on_exhaustion: options.fail_on_exhaustion(),
        }
    }

    /// Take a permit for one more file in flight, if one is free.
    pub fn try_acquire(&mut self) -> (got: bool)
        ensures
            got == (old(self).spec_permits().spec_available() > 0),
            final(self).spec_permits().spec_max() == old(self).spec_permits().spec_max(),
            final(self).spec_permits().spec_available() == (if got { old(self).spec_permits().spec_available() - 1 } else { old(self).spec_permits().spec_available() as int }),
            final(self).spec_emfile_errors() == old(self).spec_emfile_errors(),
            final(self).spec_warned() == old(self).spec_warned(),
            final(self).spec_min_permits() == old(self).spec_min_permits(),
            final(self).spec_fail_on_exhaustion() == old(self).spec_fail_on_exhaustion(),
    {
        self.semaphore.try_acquire()
    }

    /// Return a permit taken by `try_acquire`.
    pub fn release(&mut self)
        ensures
            final(self).spec_permits().spec_max() == old(self).spec_permits().spec_max(),
            final(self).spec_permits().spec_available() == (if old(self).spec_permits().spec_available() < old(self).spec_permits().spec_max() { old(self).spec_permits().spec_available() + 1 } else { old(self).spec_permits().spec_available() as int }),
            final(self).spec_emfile_errors() == old(self).spec_emfile_errors(),
            final(self).spec_warned() == old(self).spec_warned(),
            final(self).spec_min_permits() == old(self).spec_min_permits(),
            final(self).spec_fail_on_exhaustion() == old(self).spec_fail_on_exhaustion(),
    {
        self.semaphore.release()
    }

    /// Handle an error: an EMFILE error is counted; it fails when the
    /// controller is configured to fail on exhaustion, and otherwise shrinks
    /// the permits on the 1st, 6th, 11th, ... such error. Other errors are
    /// ignored.
    pub fn handle_error(&mut self, error: &SyncError) -> (r: Result<(), SyncError>)
        ensures
            ({
                let o = *old(self);
                let f = *final(self);
                if !spec_is_emfile(*error) {
                    &&& r is Ok
                    &&& f == o
                } else {
                    let count: usize = if o.spec_emfile_errors() == usize::MAX { 0 } else { (o.spec_emfile_errors() + 1) as usize };
                    &&& f.spec_emfile_errors() == count
                    &&& f.spec_min_permits() == o.spec_min_permits()
                    &&& f.spec_fail_on_exhaustion() == o.spec_fail_on_exhaustion()
                    &&& if o.spec_fail_on_exhaustion() {
                        &&& r matches Err(SyncError::FdExhaustion(m)) && m@ == exhaustion_message(error.spec_message())
                        &&& f.spec_permits() == o.spec_permits()
                        &&& f.spec_warned() == o.spec_warned()
                    } else if count % 5 == 1 {
                        let cut = spec_reduction(
                            spec_step(o.spec_permits().spec_max()),
                            o.spec_permits().spec_available(),
                            o.spec_permits().spec_max(),
                            o.spec_min_permits(),
                        );
                        &&& r is Ok
                        &&& f.spec_permits().spec_max() == o.spec_permits().spec_max() - cut
                        &&& f.spec_permits().spec_available() == o.spec_permits().spec_available() - cut
                        &&& f.spec_warned() == (o.spec_warned() || cut > 0)
                    } else {
                        &&& r is Ok
                        &&& f.spec_permits() == o.spec_permits()
                        &&& f.spec_warned() == o.spec_warned()
                    }
                }
            }),
    {
        if Self::is_emfile_error(error) {
            let count = self.emfile_errors.wrapping_add(1);
            self.emfile_errors = count;
            if self.fail_on_exhaustion {
                return Err(SyncError::FdExhaustion(describe_exhaustion(error.message().as_str())));
            }
            if count % 5 == 1 {
                self.adapt_to_fd_exhaustion();
            }
        }
        Ok(())
    }

    /// Check if an error is EMFILE (too many open files).
    fn is_emfile_error(error: &SyncError) -> (r: bool)
        ensures
            r == spec_is_emfile(*error),
    {
        let msg = error.message().as_str();
        str_contains(msg, "Too many open files") || str_contains(msg, "EMFILE") || str_contains(msg, "os error 24")
    }

    /// Reduce concurrency by 25% (at least 10 permits), never below the floor.
    fn adapt_to_fd_exhaustion(&mut self) -> (cut: usize)
        ensures
            cut == spec_reduction(
                spec_step(old(self).spec_permits().spec_max()),
                old(self).spec_permits().spec_available(),
                old(self).spec_permits().spec_max(),
                old(self).spec_min_permits(),
            ),
            final(self).spec_permits().spec_max() == old(self).spec_permits().spec_max() - cut,
            final(self).spec_permits().spec_available() == old(self).spec_permits().spec_available() - cut,
            final(self).spec_warned() == (old(self).spec_warned() || cut > 0),
            final(self).spec_emfile_errors() == old(self).spec_emfile_errors(),
            final(self).spec_min_permits() == old(self).spec_min_permits(),
            final(self).spec_fail_on_exhaustion() == old(self).spec_fail_on_exhaustion(),
    {
        let current_max = self.semaphore.max_permits();
        let quarter = current_max / 4;
        let reduction = if quarter > 10 { quarter } else { 10 };
        let actual_reduced = self.semaphore.reduce_permits(reduction, self.min_permits);
        if actual_reduced > 0 {
            self.emfile_warned = true;
        }
        actual_reduced
    }

    /// Get current statistics.
    pub fn stats(&self) -> (s: ConcurrencyStats)
        ensures
            s.max_permits == self.spec_permits().spec_max(),
            s.available_permits == self.spec_permits().spec_available(),
            s.in_use == self.spec_permits().spec_max() - self.spec_permits().spec_available(),
            s.emfile_errors == self.spec_emfile_errors(),
    {
        let max_permits = self.semaphore.max_permits();
        let available_permits = self.semaphore.available_permits();
        ConcurrencyStats {
            max_permits,
            available_permits,
            in_use: max_permits - available_permits,
            emfile_errors: self.emfile_errors,
        }
    }
}

/// The message of the error returned when descriptors run out and
/// adaptation is disabled, around the message of the error that showed it.
pub open spec fn exhaustion_message(cause: Seq<char>) -> Seq<char> {
    "File descriptor exhaustion detected (--no-adaptive-concurrency is set). Error: "@ + cause
        + ". Either increase ulimit or remove --no-adaptive-concurrency flag."@
}

/// The message of the error returned when descriptors run out and
/// adaptation is disabled.
fn describe_exhaustion(cause: &str) -> (m: String)
    ensures
        m@ == exhaustion_message(cause@),
{
    let mut m = String::from_str("File descriptor exhaustion detected (--no-adaptive-concurrency is set). Error: ");
    m.append(cause);
    m.append(". Either increase ulimit or remove --no-adaptive-concurrency flag.");
    m
}

/// The reduction asked for on adaptation: a quarter of the current maximum,
/// but at least 10.
pub open spec fn spec_step(max: usize) -> usize {
    if max / 4 > 10 { max / 4 } else { 10 }
}

/// Adaptation never takes the permit pool below `min(old maximum, floor)`:
/// whatever error is handled, the maximum stays at or above the floor unless
/// it already was below it, and it never grows.
pub proof fn lemma_handle_error_respects_floor(
    before: AdaptiveConcurrencyController,
    after: AdaptiveConcurrencyController,
    cut: usize,
)
    requires
        after.spec_min_permits() == before.spec_min_permits(),
        after.spec_permits().spec_max() == before.spec_permits().spec_max() - cut,
        cut == spec_reduction(
            spec_step(before.spec_permits().spec_max()),
            before.spec_permits().spec_available(),
            before.spec_permits().spec_max(),
            before.spec_min_permits(),
        ),
    ensures
        after.spec_permits().spec_max() <= before.spec_permits().spec_max(),
        before.spec_permits().spec_max() >= before.spec_min_permits()
            ==> after.spec_permits().spec_max() >= before.spec_min_permits(),
        before.spec_permits().spec_max() < before.spec_min_permits()
            ==> after.spec_permits().spec_max() == before.spec_permits().spec_max(),
{
}

/// Soft limits on open descriptors below this are too low for large copies.
pub const LOW_FD_LIMIT: u64 = 10000;

/// Whether the soft limit on open descriptors is low enough to warn about
/// (the copy still adapts if descriptors run out).
pub fn fd_limit_is_low(soft_limit: u64) -> (r: bool)
    ensures
        r == (soft_limit < LOW_FD_LIMIT),
{
    soft_limit < LOW_FD_LIMIT
}

} // verus!
