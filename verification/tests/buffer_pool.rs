use arsync::buffer_pool::{BufferPool, PooledBuffer, METADATA_BUFFER_SIZE};

#[test]
fn test_io_buffer_basic() {
    let pool = BufferPool::new(65536, 64);

    let mut pooled = pool.acquire_io_buffer();
    let buffer = pooled.take();

    assert_eq!(buffer.len(), 65536);
    assert_eq!(buffer.capacity(), 65536);
}

#[test]
fn test_metadata_buffer_size() {
    let pool = BufferPool::new(65536, 64);

    let mut pooled = pool.acquire_metadata_buffer();
    let buffer = pooled.take();

    assert_eq!(buffer.len(), 4096, "Metadata buffers are always 4KB");
}

#[test]
fn test_buffer_reuse() {
    // Use concurrency=0 so only 0 buffers pre-allocated (forces allocation then reuse)
    let pool = BufferPool::new(1024, 0);

    // First acquire - will allocate
    let mut buf1 = pool.acquire_io_buffer();
    let data1 = buf1.take();
    let ptr1 = data1.as_ptr();
    buf1.restore(data1);
    buf1.return_to_pool(); // Return to pool

    // Second acquire - should reuse (pool now has 1 buffer)
    let mut buf2 = pool.acquire_io_buffer();
    let data2 = buf2.take();
    let ptr2 = data2.as_ptr();

    assert_eq!(ptr1, ptr2, "Buffer should be reused (same pointer)");

    // Verify stats
    let stats = pool.stats();
    assert_eq!(stats.io_pool.total_allocated, 1, "Should only allocate once");
    assert_eq!(stats.io_pool.total_acquisitions, 2, "Two acquisitions");
}

#[test]
fn test_pool_stats() {
    let pool = BufferPool::new(1024, 2);

    let _buf1 = pool.acquire_io_buffer();
    let _buf2 = pool.acquire_io_buffer();
    let _buf3 = pool.acquire_io_buffer(); // Should allocate (pool only has 2×2=4 pre-allocated)

    let stats = pool.stats();
    assert_eq!(stats.io_pool.total_acquisitions, 3);
    assert_eq!(stats.io_pool.current_in_use, 3);
    // 2×2=4 pre-allocated initially, no additional needed for 3 acquisitions
    assert_eq!(stats.io_pool.total_allocated, 4, "Should have 4 pre-allocated");
}

#[test]
fn test_auto_return_on_drop() {
    let pool = BufferPool::new(1024, 2);

    {
        let mut buf = pool.acquire_io_buffer();
        let stats = pool.stats();
        assert_eq!(stats.io_pool.current_in_use, 1);
        buf.return_to_pool();
    } // buf drops here, already returned

    let stats = pool.stats();
    assert_eq!(stats.io_pool.current_in_use, 0, "Buffer should be returned");
}

#[test]
fn test_pool_growth_and_reuse() {
    let pool = BufferPool::new(1024, 1); // Small pool: 2 pre-allocated

    // Acquire more than available (force growth)
    let mut buf1 = pool.acquire_io_buffer();
    let mut buf2 = pool.acquire_io_buffer();
    let mut buf3 = pool.acquire_io_buffer(); // Should allocate new

    let stats = pool.stats();
    assert!(
        stats.io_pool.total_allocated >= 3,
        "Should have allocated at least 3 buffers"
    );

    buf1.return_to_pool();
    buf2.return_to_pool();
    buf3.return_to_pool();

    // Now acquire again - should reuse
    let _buf4 = pool.acquire_io_buffer();

    let stats_after = pool.stats();
    assert_eq!(
        stats_after.io_pool.total_allocated, stats.io_pool.total_allocated,
        "Should not allocate more (reusing)"
    );
}

#[test]
fn returned_buffer_is_restored_to_full_size() {
    let pool = BufferPool::new(128, 0);
    let mut guard = pool.acquire_io_buffer();
    let mut data = guard.take();
    data.truncate(10);
    data[0] = 7;
    guard.restore(data);
    guard.return_to_pool();

    let mut again = pool.acquire_io_buffer();
    let data = again.take();
    assert_eq!(data.len(), 128);
    assert_eq!(data[0], 7);
    assert_eq!(data[127], 0);
}

#[test]
fn taken_buffer_not_restored_is_not_returned() {
    let pool = BufferPool::new(64, 1);
    {
        let mut guard = pool.acquire_io_buffer();
        let _data = guard.take();
    }
    let stats = pool.stats();
    assert_eq!(stats.io_pool.current_in_use, 1);
    assert_eq!(stats.io_pool.total_allocated, 2);
}

#[test]
fn pools_are_preallocated_by_concurrency() {
    let pool = BufferPool::new(512, 3);
    let stats = pool.stats();
    assert_eq!(stats.io_pool.total_allocated, 6);
    assert_eq!(stats.metadata_pool.total_allocated, 3);
    assert_eq!(stats.io_pool.current_in_use, 0);
    assert_eq!(stats.io_pool.peak_usage, 0);
    assert_eq!(METADATA_BUFFER_SIZE, 4096);
}

#[test]
fn peak_usage_tracks_the_most_buffers_out() {
    let pool = BufferPool::new(16, 1);
    let mut a = pool.acquire_io_buffer();
    let mut b = pool.acquire_io_buffer();
    let mut c = pool.acquire_io_buffer();
    a.return_to_pool();
    b.return_to_pool();
    c.return_to_pool();
    let _d = pool.acquire_metadata_buffer();
    let stats = pool.stats();
    assert_eq!(stats.io_pool.peak_usage, 3);
    assert_eq!(stats.io_pool.current_in_use, 0);
    assert_eq!(stats.io_pool.total_allocated, 3);
    assert_eq!(stats.metadata_pool.current_in_use, 1);
    assert_eq!(stats.metadata_pool.total_acquisitions, 1);
}

#[test]
fn dropped_guard_keeps_buffer_out() {
    let pool = BufferPool::new(64, 0);
    {
        let _guard = pool.acquire_io_buffer();
    }
    let stats = pool.stats();
    assert_eq!(stats.io_pool.current_in_use, 1);
}

#[test]
fn peak_lies_between_buffers_out_and_buffers_allocated() {
    let pool = BufferPool::new(16, 1);
    let mut held: Vec<PooledBuffer> = Vec::new();
    for round in 0..6 {
        if round % 3 == 2 {
            if let Some(mut buf) = held.pop() {
                buf.return_to_pool();
            }
        } else {
            held.push(pool.acquire_io_buffer());
        }
        let s = pool.stats().io_pool;
        assert!(s.current_in_use <= s.peak_usage);
        assert!(s.peak_usage <= s.total_allocated);
    }
}
