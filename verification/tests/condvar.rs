use arsync::condvar::{Condvar, CondvarState};
use std::sync::Arc;
use std::task::{Wake, Waker};

struct CountingWaker(std::sync::atomic::AtomicUsize);

impl Wake for CountingWaker {
    fn wake(self: Arc<Self>) {
        self.0.fetch_add(1, std::sync::atomic::Ordering::SeqCst);
    }
}

fn counting_waker() -> (Arc<CountingWaker>, Waker) {
    let inner = Arc::new(CountingWaker(std::sync::atomic::AtomicUsize::new(0)));
    let waker = Waker::from(Arc::clone(&inner));
    (inner, waker)
}

fn wakes(w: &Arc<CountingWaker>) -> usize {
    w.0.load(std::sync::atomic::Ordering::SeqCst)
}

#[test]
fn test_condvar_creation() {
    let cv = Condvar::new();
    assert_eq!(cv.is_notified(), false);
}

#[test]
fn wait_after_notify_is_ready() {
    let cv = Condvar::new();
    cv.notify_one();
    let (_c, w) = counting_waker();
    assert!(cv.poll_wait(w.clone()));
    assert!(cv.poll_wait(w));
    assert_eq!(cv.waiter_count(), 0);
}

#[test]
fn wait_after_clear_blocks_and_notify_all_wakes_everyone() {
    let cv = Condvar::new();
    cv.notify_all();
    cv.clear();
    assert!(!cv.is_notified());
    let (c1, w1) = counting_waker();
    let (c2, w2) = counting_waker();
    assert!(!cv.poll_wait(w1));
    assert!(!cv.poll_wait(w2));
    assert_eq!(cv.waiter_count(), 2);
    cv.notify_all();
    assert_eq!(wakes(&c1), 1);
    assert_eq!(wakes(&c2), 1);
    assert_eq!(cv.waiter_count(), 0);
    assert!(cv.is_notified());
}

#[test]
fn notify_one_wakes_oldest_waiter_only() {
    let cv = Condvar::new();
    let (c1, w1) = counting_waker();
    let (c2, w2) = counting_waker();
    assert!(!cv.poll_wait(w1));
    assert!(!cv.poll_wait(w2));
    cv.notify_one();
    assert_eq!(wakes(&c1), 1);
    assert_eq!(wakes(&c2), 0);
    assert_eq!(cv.waiter_count(), 1);
}

#[test]
fn state_machine_hands_out_waiters_in_order() {
    let mut s = CondvarState::new();
    let (_c1, w1) = counting_waker();
    assert!(!s.poll_wait(w1));
    assert_eq!(s.waiter_count(), 1);
    let woken = s.notify_one();
    assert!(woken.is_some());
    assert!(s.is_notified());
    assert!(s.notify_one().is_none());
    let all = s.notify_all();
    assert_eq!(all.len(), 0);
    s.clear();
    assert!(!s.is_notified());
}

#[test]
fn test_condvar_already_notified() {
    let cv = Condvar::new();
    cv.notify_one();
    let (_c, w) = counting_waker();
    // Returns at once since already notified.
    assert!(cv.poll_wait(w));
}

#[test]
fn test_condvar_clear() {
    let cv = Condvar::new();
    cv.notify_one();
    cv.clear();
    assert!(!cv.is_notified());
}

#[test]
fn test_condvar_notify_before_wait() {
    let cv = Arc::new(Condvar::new());
    cv.notify_one();
    let (_c, w) = counting_waker();
    assert!(cv.poll_wait(w));
}

#[test]
fn test_condvar_notify_all() {
    let cv = Arc::new(Condvar::new());
    cv.notify_all();
    for _ in 0..3 {
        let (_c, w) = counting_waker();
        assert!(cv.poll_wait(w));
    }
}
