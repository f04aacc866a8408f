use arsync::copy_plan::{align_to_page, plan_parallel_regions, ChunkedCopy, CopyStep, HUGE_PAGE_SIZE};

#[test]
fn align_rounds_down_to_page() {
    assert_eq!(align_to_page(0, 4096), 0);
    assert_eq!(align_to_page(4095, 4096), 0);
    assert_eq!(align_to_page(4096, 4096), 4096);
    assert_eq!(align_to_page(10_000, 4096), 8192);
    assert_eq!(align_to_page(3 * HUGE_PAGE_SIZE + 5, HUGE_PAGE_SIZE), 3 * HUGE_PAGE_SIZE);
}

#[test]
fn regions_split_file_and_align_starts() {
    let mib = 1024 * 1024;
    let regions = plan_parallel_regions(100 * mib, 2);
    assert_eq!(regions.len(), 4);
    assert_eq!(regions[0], (0, 25 * mib));
    // 25 MiB is not a multiple of 2 MiB: the start is rounded down to 24 MiB.
    assert_eq!(regions[1], (24 * mib, 50 * mib));
    assert_eq!(regions[2], (50 * mib, 75 * mib));
    assert_eq!(regions[3], (74 * mib, 100 * mib));
}

#[test]
fn regions_cover_every_byte_with_remainder_in_last() {
    let size = 7 * 1024 * 1024 + 3;
    let regions = plan_parallel_regions(size, 3);
    assert_eq!(regions.len(), 8);
    assert_eq!(regions[7].1, size);
    let mut covered_to = 0u64;
    for (start, end) in &regions {
        assert!(*start <= covered_to);
        assert!(start <= end);
        covered_to = covered_to.max(*end);
    }
    assert_eq!(covered_to, size);
}

#[test]
fn tiny_file_goes_to_last_region() {
    let regions = plan_parallel_regions(3, 2);
    assert_eq!(regions, vec![(0, 0), (0, 0), (0, 0), (0, 3)]);
    let regions = plan_parallel_regions(0, 0);
    assert_eq!(regions, vec![(0, 0)]);
}

#[test]
fn region_copy_is_clipped_to_its_end() {
    let mut c = ChunkedCopy::for_region(100, 250, 64);
    assert_eq!(c.next_request(), Some(64));
    assert_eq!(c.record(64, 64, 64), CopyStep::Advanced(64));
    assert_eq!(c.next_request(), Some(64));
    assert_eq!(c.record(64, 64, 64), CopyStep::Advanced(64));
    assert_eq!(c.offset(), 228);
    assert_eq!(c.next_request(), Some(22));
    assert_eq!(c.record(22, 22, 22), CopyStep::Advanced(22));
    assert_eq!(c.next_request(), None);
    assert_eq!(c.copied(), 150);
}

#[test]
fn short_read_and_write_mismatch() {
    let mut c = ChunkedCopy::for_file(1000, 4096);
    assert_eq!(c.next_request(), Some(4096));
    assert_eq!(c.record(4096, 600, 600), CopyStep::Advanced(600));
    assert_eq!(c.record(4096, 300, 200), CopyStep::WriteMismatch { read: 300, written: 200 });
    assert_eq!(c.offset(), 600);
    assert_eq!(c.record(4096, 0, 0), CopyStep::EndOfData);
    assert_eq!(c.copied(), 600);
}

#[test]
fn copy_until_end_of_data_reads_full_buffers() {
    let mut c = ChunkedCopy::until_end_of_data(10);
    assert_eq!(c.next_request(), Some(10));
    assert_eq!(c.record(10, 10, 10), CopyStep::Advanced(10));
    assert_eq!(c.record(10, 3, 3), CopyStep::Advanced(3));
    assert_eq!(c.record(10, 0, 0), CopyStep::EndOfData);
    assert_eq!(c.copied(), 13);
}
