use arsync::cli::{
    Args, ArgsError, ConcurrencyConfig, CopyMethod, IoConfig, OutputConfig, ParallelConfigError,
    ParallelCopyConfig, PathConfig, SourceFacts,
};
use arsync::metadata::MetadataConfig;
use std::path::PathBuf;

/// Helper to create default test Args with custom paths
fn create_test_args(source: PathBuf, destination: PathBuf) -> Args {
    Args {
        paths: PathConfig { source, destination },
        io: IoConfig {
            queue_depth: 4096,
            buffer_size_kb: 1024,
            copy_method: CopyMethod::Auto,
            cpu_count: 2,
            parallel: ParallelCopyConfig {
                enabled: false,
                min_file_size_mb: 128,
                max_depth: 2,
                chunk_size_mb: 2,
            },
        },
        concurrency: ConcurrencyConfig { max_files_in_flight: 100, no_adaptive_concurrency: false },
        metadata: MetadataConfig {
            archive: false,
            recursive: false,
            links: false,
            perms: false,
            times: false,
            group: false,
            owner: false,
            devices: false,
            fsync: false,
            xattrs: true,
            acls: false,
            hard_links: false,
            atimes: false,
            crtimes: false,
            preserve_xattr: false,
            preserve_acl: false,
        },
        output: OutputConfig { dry_run: false, progress: false, verbose: 0, quiet: false, pirate: false },
    }
}

fn dir_facts() -> SourceFacts {
    SourceFacts { exists: true, is_dir: true, is_file: false, detected_cpus: 4 }
}

#[test]
fn test_validate_with_nonexistent_source() {
    let args = create_test_args(PathBuf::from("/nonexistent/path"), PathBuf::from("/tmp/dest"));
    assert!(args.validate().is_err());
}

#[test]
fn test_convenience_accessors() {
    let args = create_test_args(PathBuf::from("/test/src"), PathBuf::from("/test/dst"));

    // Test convenience methods work
    assert_eq!(args.source(), &PathBuf::from("/test/src"));
    assert_eq!(args.destination(), &PathBuf::from("/test/dst"));
    assert_eq!(args.queue_depth(), 4096);
    assert_eq!(args.max_files_in_flight(), 100);
    assert_eq!(args.verbose(), 0);
    assert!(!args.quiet());
}

#[test]
fn nonexistent_source_reports_missing_source() {
    let args = create_test_args(PathBuf::from("/nonexistent/path"), PathBuf::from("/tmp/dest"));
    assert_eq!(args.validate(), Err(ArgsError::SourceMissing));
}

#[test]
fn validate_with_reports_each_error() {
    let args = create_test_args(PathBuf::from("/src"), PathBuf::from("/dst"));
    assert_eq!(args.validate_with(dir_facts()), Ok(()));
    assert_eq!(
        args.validate_with(SourceFacts { exists: false, ..dir_facts() }),
        Err(ArgsError::SourceMissing)
    );
    assert_eq!(
        args.validate_with(SourceFacts { is_dir: false, ..dir_facts() }),
        Err(ArgsError::SourceNotFileOrDirectory)
    );

    let mut a = args.clone();
    a.io.queue_depth = 1023;
    assert_eq!(a.validate_with(dir_facts()), Err(ArgsError::QueueDepthOutOfRange(1023)));
    a.io.queue_depth = 65537;
    assert_eq!(a.validate_with(dir_facts()), Err(ArgsError::QueueDepthOutOfRange(65537)));
    a.io.queue_depth = 65536;
    assert_eq!(a.validate_with(dir_facts()), Ok(()));

    let mut a = args.clone();
    a.concurrency.max_files_in_flight = 0;
    assert_eq!(a.validate_with(dir_facts()), Err(ArgsError::MaxFilesInFlightOutOfRange(0)));
    a.concurrency.max_files_in_flight = 10001;
    assert_eq!(a.validate_with(dir_facts()), Err(ArgsError::MaxFilesInFlightOutOfRange(10001)));

    let mut a = args.clone();
    a.io.buffer_size_kb = 1024 * 1024 + 1;
    assert_eq!(a.validate_with(dir_facts()), Err(ArgsError::BufferSizeTooLarge(1048577)));

    let mut a = args.clone();
    a.io.cpu_count = 0;
    assert_eq!(
        a.validate_with(SourceFacts { detected_cpus: 0, ..dir_facts() }),
        Err(ArgsError::NoCpus)
    );
    assert_eq!(a.validate_with(dir_facts()), Ok(()));

    let mut a = args.clone();
    a.output.quiet = true;
    a.output.verbose = 1;
    assert_eq!(a.validate_with(dir_facts()), Err(ArgsError::QuietAndVerbose));

    let mut a = args.clone();
    a.io.parallel.enabled = true;
    a.io.parallel.max_depth = 7;
    assert_eq!(
        a.validate_with(dir_facts()),
        Err(ArgsError::Parallel(ParallelConfigError::MaxDepthTooLarge(7)))
    );
}

#[test]
fn parallel_config_validation_and_sizes() {
    let mut p = ParallelCopyConfig { enabled: false, min_file_size_mb: 0, max_depth: 99, chunk_size_mb: 0 };
    assert_eq!(p.validate(), Ok(()));
    assert!(!p.should_use_parallel(u64::MAX));
    p.enabled = true;
    assert_eq!(p.validate(), Err(ParallelConfigError::MaxDepthTooLarge(99)));
    p.max_depth = 6;
    assert_eq!(p.validate(), Err(ParallelConfigError::ChunkSizeOutOfRange(0)));
    p.chunk_size_mb = 65;
    assert_eq!(p.validate(), Err(ParallelConfigError::ChunkSizeOutOfRange(65)));
    p.chunk_size_mb = 64;
    assert_eq!(p.validate(), Err(ParallelConfigError::MinFileSizeZero));
    p.min_file_size_mb = 128;
    assert_eq!(p.validate(), Ok(()));
    assert_eq!(p.min_file_size_bytes(), 128 * 1024 * 1024);
    assert_eq!(p.chunk_size_bytes(), 64 * 1024 * 1024);
    assert!(p.should_use_parallel(128 * 1024 * 1024));
    assert!(!p.should_use_parallel(128 * 1024 * 1024 - 1));
}

#[test]
fn buffer_sizes_and_defaults() {
    let mut args = create_test_args(PathBuf::from("/src"), PathBuf::from("/dst"));
    assert_eq!(args.buffer_size_bytes(), 1024 * 1024);
    assert_eq!(args.effective_buffer_size(), 1024 * 1024);
    args.io.buffer_size_kb = 0;
    assert_eq!(args.effective_buffer_size(), 64 * 1024);
    assert_eq!(args.buffer_size_bytes(), 0);
    assert_eq!(args.effective_cpu_count(), 2);
    args.io.cpu_count = 0;
    assert!(args.effective_cpu_count() >= 1);
    assert_eq!(CopyMethod::default(), CopyMethod::Auto);
    assert_eq!(args.copy_method(), &CopyMethod::Auto);
}

#[test]
fn metadata_delegates_and_recursion() {
    let mut args = create_test_args(PathBuf::from("/src"), PathBuf::from("/dst"));
    assert!(args.should_preserve_xattrs());
    assert!(!args.should_preserve_permissions());
    assert!(!args.should_recurse());
    args.metadata.archive = true;
    assert!(args.should_recurse());
    assert!(args.should_preserve_permissions());
    assert!(args.should_preserve_ownership());
    assert!(args.should_preserve_timestamps());
    assert!(args.should_preserve_links());
    assert!(!args.should_preserve_hard_links());
}

#[test]
fn concurrency_config_to_options() {
    let c = ConcurrencyConfig { max_files_in_flight: 1024, no_adaptive_concurrency: true };
    let o = c.to_options();
    assert_eq!(o.max_files_in_flight(), 1024);
    assert_eq!(o.min_permits(), 102);
    assert!(o.fail_on_exhaustion());
}
