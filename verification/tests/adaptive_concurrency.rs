use arsync::adaptive_concurrency::{fd_limit_is_low, AdaptiveConcurrencyController, ConcurrencyOptions, PermitPool};
use arsync::error::SyncError;

#[test]
fn options_clamp_and_floor() {
    let o = ConcurrencyOptions::new(0, false);
    assert_eq!(o.max_files_in_flight(), 1);
    assert_eq!(o.min_permits(), 10);
    let o = ConcurrencyOptions::new(50, false);
    assert_eq!(o.min_permits(), 10);
    let o = ConcurrencyOptions::new(1000, false);
    assert_eq!(o.min_permits(), 100);
    assert!(!o.fail_on_exhaustion());
}

#[test]
fn non_emfile_errors_change_nothing() {
    let o = ConcurrencyOptions::new(100, true);
    let mut c = AdaptiveConcurrencyController::new(&o);
    let e = SyncError::FileSystem("Permission denied".to_string());
    assert_eq!(c.handle_error(&e), Ok(()));
    let s = c.stats();
    assert_eq!(s.max_permits, 100);
    assert_eq!(s.emfile_errors, 0);
}

#[test]
fn emfile_fails_when_not_adaptive() {
    let o = ConcurrencyOptions::new(100, true);
    let mut c = AdaptiveConcurrencyController::new(&o);
    let e = SyncError::FileSystem("open failed: Too many open files (os error 24)".to_string());
    let r = c.handle_error(&e);
    assert_eq!(
        r,
        Err(SyncError::FdExhaustion(
            "File descriptor exhaustion detected (--no-adaptive-concurrency is set). Error: open failed: Too many open files (os error 24). Either increase ulimit or remove --no-adaptive-concurrency flag.".to_string()
        ))
    );
    let s = c.stats();
    assert_eq!(s.max_permits, 100);
    assert_eq!(s.emfile_errors, 1);
}

#[test]
fn emfile_adapts_every_fifth_error_down_to_floor() {
    let o = ConcurrencyOptions::new(100, false);
    let mut c = AdaptiveConcurrencyController::new(&o);
    let e = SyncError::IoUring("EMFILE".to_string());
    // First error: reduce by max(10, 100/4) = 25.
    assert_eq!(c.handle_error(&e), Ok(()));
    assert_eq!(c.stats().max_permits, 75);
    // Errors 2..=5 do not adapt.
    for _ in 0..4 {
        assert_eq!(c.handle_error(&e), Ok(()));
    }
    assert_eq!(c.stats().max_permits, 75);
    // Sixth error: reduce by max(10, 75/4) = 18.
    assert_eq!(c.handle_error(&e), Ok(()));
    assert_eq!(c.stats().max_permits, 57);
    assert_eq!(c.stats().emfile_errors, 6);
    // Keep going: never below the floor of 10.
    for _ in 0..100 {
        let _ = c.handle_error(&e);
    }
    assert_eq!(c.stats().max_permits, 10);
}

#[test]
fn permits_in_use_are_not_revoked() {
    let o = ConcurrencyOptions::new(40, false);
    let mut c = AdaptiveConcurrencyController::new(&o);
    for _ in 0..35 {
        assert!(c.try_acquire());
    }
    let s = c.stats();
    assert_eq!(s.in_use, 35);
    assert_eq!(s.available_permits, 5);
    let e = SyncError::CopyFailed("os error 24".to_string());
    assert_eq!(c.handle_error(&e), Ok(()));
    let s = c.stats();
    assert_eq!(s.max_permits, 35);
    assert_eq!(s.available_permits, 0);
    assert!(!c.try_acquire());
    c.release();
    assert_eq!(c.stats().available_permits, 1);
}

#[test]
fn permit_pool_reduction_respects_floor() {
    let mut p = PermitPool::new(20);
    assert_eq!(p.reduce_permits(50, 15), 5);
    assert_eq!(p.max_permits(), 15);
    assert_eq!(p.available_permits(), 15);
    assert_eq!(p.reduce_permits(5, 20), 0);
    assert!(p.try_acquire());
    assert_eq!(p.available_permits(), 14);
    p.release();
    p.release();
    assert_eq!(p.available_permits(), 15);
}

#[test]
fn fd_limit_threshold() {
    assert!(fd_limit_is_low(1024));
    assert!(fd_limit_is_low(9999));
    assert!(!fd_limit_is_low(10000));
    assert!(!fd_limit_is_low(1 << 20));
}
