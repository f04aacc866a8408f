//! Asynchronous condition variable for task notification.
//!
//! A notification is sticky: once notified, a waiter returns at once until
//! the flag is cleared. The check of the flag and the registration of a
//! waiter happen under one lock, so no wakeup is lost.

use vstd::prelude::*;
use vstd::rwlock::{RwLock, RwLockPredicate};
use std::collections::VecDeque;
use std::task::Waker;

verus! {

/// A handle that wakes a suspended task.
#[verifier::external_type_specification]
#[verifier::external_body]
pub struct ExWaker(Waker);

/// Wake the task behind `waker` (`std::task::Waker::wake`). What the task
/// does when woken is up to the executor, so nothing is claimed.
#[verifier::external_body]
fn wake_task(waker: Waker) {
    waker.wake()
}

/// Abstract state of a condition variable: the notification flag and the
/// suspended waiters, oldest first.
pub struct CondvarView {
    pub notified: bool,
    pub waiters: Seq<Waker>,
}

impl CondvarView {
    /// A waiter polls: it is ready at once if notified, and otherwise is
    /// queued to be woken.
    pub open spec fn poll_wait(self, waker: Waker) -> (CondvarView, bool) {
        if self.notified {
            (self, true)
        } else {
            (CondvarView { notified: false, waiters: self.waiters.push(waker) }, false)
        }
    }

    /// Set the flag and dequeue the oldest waiter, if any.
    pub open spec fn notify_one(self) -> (CondvarView, Option<Waker>) {
        if self.waiters.len() == 0 {
            (CondvarView { notified: true, waiters: self.waiters }, None)
        } else {
            (CondvarView { notified: true, waiters: self.waiters.drop_first() }, Some(self.waiters[0]))
        }
    }

    /// Set the flag and dequeue every waiter.
    pub open spec fn notify_all(self) -> (CondvarView, Seq<Waker>) {
        (CondvarView { notified: true, waiters: Seq::empty() }, self.waiters)
    }

    /// Clear the flag; waiters stay queued.
    pub open spec fn clear(self) -> CondvarView {
        CondvarView { notified: false, waiters: self.waiters }
    }
}

/// State of a condition variable.
#[derive(Debug)]
pub struct CondvarState {
    notified: bool,
    waiters: VecDeque<Waker>,
}

impl CondvarState {
    /// The abstract state.
    pub closed spec fn view(self) -> CondvarView {
        CondvarView { notified: self.notified, waiters: self.waiters@ }
    }

    /// A state that is not notified and has no waiter.
    pub fn new() -> (s: Self)
        ensures
            s@ == (CondvarView { notified: false, waiters: Seq::empty() }),
    {
        let s = CondvarState { notified: false, waiters: VecDeque::new() };
        proof { assert(s@.waiters =~= Seq::<Waker>::empty()); }
        s
    }

    /// A waiter polls: it is ready at once if notified, and otherwise is
    /// queued to be woken.
    pub fn poll_wait(&mut self, waker: Waker) -> (ready: bool)
        ensures
            (final(self)@, ready) == old(self)@.poll_wait(waker),
    {
        if self.notified {
            true
        } else {
            self.waiters.push_back(waker);
            false
        }
    }

    /// Notify one waiter: set the flag and dequeue the oldest waiter, which
    /// the caller wakes.
    pub fn notify_one(&mut self) -> (woken: Option<Waker>)
        ensures
            (final(self)@, woken) == old(self)@.notify_one(),
    {
        self.notified = true;
        self.waiters.pop_front()
    }

    /// Notify all waiters: set the flag and dequeue every waiter, which the
    /// caller wakes.
    pub fn notify_all(&mut self) -> (woken: VecDeque<Waker>)
        ensures
            (final(self)@, woken@) == old(self)@.notify_all(),
    {
        self.notified = true;
        let mut woken: VecDeque<Waker> = VecDeque::new();
        std::mem::swap(&mut woken, &mut self.waiters);
        proof { assert(self.waiters@ =~= Seq::<Waker>::empty()); }
        woken
    }

    /// Clear the notification flag; waiters stay queued.
    pub fn clear(&mut self)
        ensures
            final(self)@ == old(self)@.clear(),
    {
        self.notified = false;
    }

    /// Whether the state is notified.
    pub fn is_notified(&self) -> (r: bool)
        ensures
            r == self@.notified,
    {
        self.notified
    }

    /// Number of suspended waiters.
    pub fn waiter_count(&self) -> (r: usize)
        ensures
            r == self@.waiters.len(),
    {
        self.waiters.len()
    }
}

/// A notification is sticky: after `notify_one` or `notify_all`, every wait
/// returns at once and registers nothing.
pub proof fn lemma_wait_after_notify_is_ready(s: CondvarView, waker: Waker)
    ensures
        s.notify_one().0.poll_wait(waker).1,
        s.notify_one().0.poll_wait(waker).0 == s.notify_one().0,
        s.notify_all().0.poll_wait(waker).1,
        s.notify_all().0.poll_wait(waker).0 == s.notify_all().0,
{
}

/// After a clear, a wait is not ready: the waiter is queued behind the
/// others.
pub proof fn lemma_wait_after_clear_blocks(s: CondvarView, waker: Waker)
    ensures
        !s.clear().poll_wait(waker).1,
        s.clear().poll_wait(waker).0.waiters == s.waiters.push(waker),
{
}

/// No wakeup is lost: a waiter that was queued is among the waiters handed
/// out by the next `notify_all`, and `notify_one` hands out the oldest
/// waiter first.
pub proof fn lemma_no_lost_wakeup(s: CondvarView, waker: Waker)
    requires
        !s.poll_wait(waker).1,
    ensures
        s.poll_wait(waker).0.notify_all().1.contains(waker),
        s.waiters.len() == 0 ==> s.poll_wait(waker).0.notify_one().1 == Some(waker),
{
    let t = s.poll_wait(waker).0;
    assert(t.waiters[t.waiters.len() - 1] == waker);
}

/// Lock predicate of a shared condition variable: any state is allowed.
pub struct AnyCondvarState;

impl RwLockPredicate<CondvarState> for AnyCondvarState {
    open spec fn inv(self, s: CondvarState) -> bool {
        true
    }
}

/// Condition variable shared between tasks (wrap it in `Arc` to share).
///
/// Any task may change the state between two calls, so the methods below
/// promise nothing of what they read; each applies, under the lock, the
/// transition of `CondvarState` that has the same name.
pub struct Condvar {
    inner: RwLock<CondvarState, AnyCondvarState>,
}

impl Condvar {
    /// Create a condition variable that is not notified.
    pub fn new() -> Self {
        Condvar { inner: RwLock::new(CondvarState::new(), Ghost(AnyCondvarState)) }
    }

    /// One poll of a waiting task: returns `true` when already notified;
    /// otherwise registers `waker` to be woken by a notification and returns
    /// `false`. The flag check and the registration are one atomic step.
    pub fn poll_wait(&self, waker: Waker) -> bool {
        let (mut state, handle) = self.inner.acquire_write();
        let ready = state.poll_wait(waker);
        handle.release_write(state);
        ready
    }

    /// Notify one waiting task; if none waits, the next wait returns at once.
    pub fn notify_one(&self) {
        let (mut state, handle) = self.inner.acquire_write();
        let woken = state.notify_one();
        handle.release_write(state);
        if let Some(waker) = woken {
            wake_task(waker);
        }
    }

    /// Notify all waiting tasks; later waits return at once.
    pub fn notify_all(&self) {
        let (mut state, handle) = self.inner.acquire_write();
        let mut woken = state.notify_all();
        handle.release_write(state);
        let n = woken.len();
        let mut i: usize = 0;
        while i < n
            invariant
                woken@.len() == n - i,
                i <= n,
            decreases n - i,
        {
            if let Some(waker) = woken.pop_front() {
                wake_task(waker);
            }
            i = i + 1;
        }
    }

    /// Clear the notification flag.
    pub fn clear(&self) {
        let (mut state, handle) = self.inner.acquire_write();
        state.clear();
        handle.release_write(state);
    }

    /// Whether the condition variable is currently notified.
    pub fn is_notified(&self) -> bool {
        let handle = self.inner.acquire_read();
        let r = handle.borrow().is_notified();
        handle.release_read();
        r
    }

    /// Number of tasks currently waiting.
    pub fn waiter_count(&self) -> usize {
        let handle = self.inner.acquire_read();
        let r = handle.borrow().waiter_count();
        handle.release_read();
        r
    }
}

} // verus!
