//! Command-line configuration, grouped by the component that consumes it,
//! and its validation.

use vstd::prelude::*;
use std::path::PathBuf;
use crate::adaptive_concurrency::{spec_min_permits, ConcurrencyOptions};
pub use crate::metadata::MetadataConfig;
use crate::system::{available_cpus, path_exists, path_is_dir, path_is_file};

verus! {

/// Parsed command line.
#[derive(Debug, Clone)]
pub struct Args {
    /// Source and destination paths.
    pub paths: PathConfig,
    /// I/O configuration.
    pub io: IoConfig,
    /// Concurrency control configuration.
    pub concurrency: ConcurrencyConfig,
    /// Metadata preservation flags.
    pub metadata: MetadataConfig,
    /// Output and logging configuration.
    pub output: OutputConfig,
}

/// Source and destination paths.
#[derive(Debug, Clone)]
pub struct PathConfig {
    /// Source directory or file.
    pub source: PathBuf,
    /// Destination directory or file.
    pub destination: PathBuf,
}

/// I/O configuration.
#[derive(Debug, Clone, Copy)]
pub struct IoConfig {
    /// Queue depth for asynchronous I/O.
    pub queue_depth: usize,
    /// Buffer size in KB (0 = default of 64 KB).
    pub buffer_size_kb: usize,
    /// Copy method to use.
    pub copy_method: CopyMethod,
    /// Number of CPU cores to use (0 = auto-detect).
    pub cpu_count: usize,
    /// Parallel copy configuration.
    pub parallel: ParallelCopyConfig,
}

/// Parallel copy configuration for large files.
#[derive(Debug, Clone, Copy)]
pub struct ParallelCopyConfig {
    /// Enable parallel copying for large files.
    pub enabled: bool,
    /// Minimum file size (in MB) to trigger parallel copying.
    pub min_file_size_mb: u64,
    /// Maximum recursion depth: up to `2^max_depth` tasks.
    pub max_depth: usize,
    /// Chunk size (in MB) for each read/write operation.
    pub chunk_size_mb: usize,
}

/// One mebibyte.
pub const MIB: u64 = 1048576;

/// Why a parallel copy configuration was refused.
#[derive(Debug, Clone, Copy, PartialEq, Eq)]
pub enum ParallelConfigError {
    /// `max_depth` above 6 (more than 64 tasks).
    MaxDepthTooLarge(usize),
    /// `chunk_size_mb` is 0 or above 64.
    ChunkSizeOutOfRange(usize),
    /// `min_file_size_mb` is 0.
    MinFileSizeZero,
}

impl ParallelCopyConfig {
    /// The outcome of validation.
    pub open spec fn spec_validate(&self) -> Result<(), ParallelConfigError> {
        if !self.enabled {
            Ok(())
        } else if self.max_depth > 6 {
            Err(ParallelConfigError::MaxDepthTooLarge(self.max_depth))
        } else if self.chunk_size_mb == 0 || self.chunk_size_mb > 64 {
            Err(ParallelConfigError::ChunkSizeOutOfRange(self.chunk_size_mb))
        } else if self.min_file_size_mb == 0 {
            Err(ParallelConfigError::MinFileSizeZero)
        } else {
            Ok(())
        }
    }

    /// Get minimum file size in bytes.
    pub fn min_file_size_bytes(&self) -> (r: u64)
        requires
            self.min_file_size_mb * MIB <= u64::MAX,
        ensures
            r == self.min_file_size_mb * MIB,
    {
        self.min_file_size_mb * MIB
    }

    /// Get chunk size in bytes.
    pub fn chunk_size_bytes(&self) -> (r: usize)
        requires
            self.chunk_size_mb * MIB <= usize::MAX,
        ensures
            r == self.chunk_size_mb * MIB,
    {
        self.chunk_size_mb * 1048576
    }

    /// Determine if a file should be copied in parallel.
    pub fn should_use_parallel(&self, file_size: u64) -> (r: bool)
        requires
            self.enabled ==> self.min_file_size_mb * MIB <= u64::MAX,
        ensures
            r == (self.enabled && file_size >= self.min_file_size_mb * MIB),
    {
        self.enabled && file_size >= self.min_file_size_bytes()
    }

    /// Validate parallel copy configuration; a disabled configuration is
    /// always accepted.
    pub fn validate(&self) -> (r: Result<(), ParallelConfigError>)
        ensures
            r == self.spec_validate(),
    {
        if !self.enabled {
            return Ok(());
        }
        if self.max_depth > 6 {
            return Err(ParallelConfigError::MaxDepthTooLarge(self.max_depth));
        }
        if self.chunk_size_mb == 0 || self.chunk_size_mb > 64 {
            return Err(ParallelConfigError::ChunkSizeOutOfRange(self.chunk_size_mb));
        }
        if self.min_file_size_mb == 0 {
            return Err(ParallelConfigError::MinFileSizeZero);
        }
        Ok(())
    }
}

/// Concurrency control configuration.
#[derive(Debug, Clone, Copy)]
pub struct ConcurrencyConfig {
    /// Maximum total files in flight.
    pub max_files_in_flight: usize,
    /// Fail fast on resource exhaustion instead of adapting.
    pub no_adaptive_concurrency: bool,
}

impl ConcurrencyConfig {
    /// Convert to the options used by the adaptive controller.
    pub fn to_options(&self) -> (o: ConcurrencyOptions)
        ensures
            o.spec_max_files_in_flight() == (if self.max_files_in_flight == 0 { 1 } else { self.max_files_in_flight }),
            o.spec_min_permits() == spec_min_permits(o.spec_max_files_in_flight()),
            o.spec_fail_on_exhaustion() == self.no_adaptive_concurrency,
    {
        ConcurrencyOptions::new(self.max_files_in_flight, self.no_adaptive_concurrency)
    }
}

/// Output and logging configuration.
#[derive(Debug, Clone, Copy)]
pub struct OutputConfig {
    /// Show what would be copied without copying.
    pub dry_run: bool,
    /// Show progress information.
    pub progress: bool,
    /// Verbosity level.
    pub verbose: u8,
    /// Suppress all output except errors.
    pub quiet: bool,
    /// Pirate speak.
    pub pirate: bool,
}

/// How file contents are copied.
#[derive(Debug, Clone, Copy, PartialEq, Eq)]
pub enum CopyMethod {
    /// Automatically choose the best method.
    Auto,
    /// Use `copy_file_range` for same-filesystem copies.
    CopyFileRange,
    /// Use splice for zero-copy operations.
    Splice,
    /// Use traditional read/write operations.
    ReadWrite,
}

impl Default for CopyMethod {
    fn default() -> (m: Self)
        ensures
            m == CopyMethod::Auto,
    {
        CopyMethod::Auto
    }
}

/// Why the command line was refused.
#[derive(Debug, Clone, Copy, PartialEq, Eq)]
pub enum ArgsError {
    /// The source path does not exist.
    SourceMissing,
    /// The source exists but is neither a file nor a directory.
    SourceNotFileOrDirectory,
    /// Queue depth outside 1024..=65536.
    QueueDepthOutOfRange(usize),
    /// Files in flight outside 1..=10000.
    MaxFilesInFlightOutOfRange(usize),
    /// Buffer size above 1 GB (given in KB).
    BufferSizeTooLarge(usize),
    /// No CPU core is available.
    NoCpus,
    /// Both quiet and verbose output were asked for.
    QuietAndVerbose,
    /// The parallel copy configuration was refused.
    Parallel(ParallelConfigError),
}

/// What the filesystem and machine said about the source, as `validate`
/// observed it.
#[derive(Debug, Clone, Copy, PartialEq, Eq)]
pub struct SourceFacts {
    /// Something exists at the source path.
    pub exists: bool,
    /// The source is a directory.
    pub is_dir: bool,
    /// The source is a regular file.
    pub is_file: bool,
    /// CPUs detected on the machine.
    pub detected_cpus: usize,
}

impl Args {
    /// CPUs to use: the configured count, or the detected one when it is 0.
    pub open spec fn spec_effective_cpu_count(&self, detected_cpus: usize) -> usize {
        if self.io.cpu_count == 0 { detected_cpus } else { self.io.cpu_count }
    }

    /// The outcome of validation, given what was observed of the source.
    pub open spec fn spec_validate(&self, facts: SourceFacts) -> Result<(), ArgsError> {
        if !facts.exists {
            Err(ArgsError::SourceMissing)
        } else if !facts.is_dir && !facts.is_file {
            Err(ArgsError::SourceNotFileOrDirectory)
        } else if self.io.queue_depth < 1024 || self.io.queue_depth > 65536 {
            Err(ArgsError::QueueDepthOutOfRange(self.io.queue_depth))
        } else if self.concurrency.max_files_in_flight < 1 || self.concurrency.max_files_in_flight > 10000 {
            Err(ArgsError::MaxFilesInFlightOutOfRange(self.concurrency.max_files_in_flight))
        } else if self.io.buffer_size_kb > 1048576 {
            Err(ArgsError::BufferSizeTooLarge(self.io.buffer_size_kb))
        } else if self.spec_effective_cpu_count(facts.detected_cpus) == 0 {
            Err(ArgsError::NoCpus)
        } else if self.output.quiet && self.output.verbose > 0 {
            Err(ArgsError::QuietAndVerbose)
        } else {
            match self.io.parallel.spec_validate() {
                Ok(()) => Ok(()),
                Err(e) => Err(ArgsError::Parallel(e)),
            }
        }
    }

    /// Validate the command line against what was observed of the source.
    pub fn validate_with(&self, facts: SourceFacts) -> (r: Result<(), ArgsError>)
        ensures
            r == self.spec_validate(facts),
    {
        if !facts.exists {
            return Err(ArgsError::SourceMissing);
        }
        if !facts.is_dir && !facts.is_file {
            return Err(ArgsError::SourceNotFileOrDirectory);
        }
        if self.io.queue_depth < 1024 || self.io.queue_depth > 65536 {
            return Err(ArgsError::QueueDepthOutOfRange(self.io.queue_depth));
        }
        if self.concurrency.max_files_in_flight < 1 || self.concurrency.max_files_in_flight > 10000 {
            return Err(ArgsError::MaxFilesInFlightOutOfRange(self.concurrency.max_files_in_flight));
        }
        if self.io.buffer_size_kb > 1048576 {
            return Err(ArgsError::BufferSizeTooLarge(self.io.buffer_size_kb));
        }
        let cpus = if self.io.cpu_count == 0 { facts.detected_cpus } else { self.io.cpu_count };
        if cpus == 0 {
            return Err(ArgsError::NoCpus);
        }
        if self.output.quiet && self.output.verbose > 0 {
            return Err(ArgsError::QuietAndVerbose);
        }
        match self.io.parallel.validate() {
            Ok(()) => Ok(()),
            Err(e) => Err(ArgsError::Parallel(e)),
        }
    }

    /// Validate command-line arguments: the source must exist and be a file
    /// or directory, and every option must be within its bounds.
    pub fn validate(&self) -> (r: Result<(), ArgsError>)
        ensures
            exists|facts: SourceFacts| facts.detected_cpus >= 1 && r == self.spec_validate(facts),
    {
        let facts = SourceFacts {
            exists: path_exists(&self.paths.source),
            is_dir: path_is_dir(&self.paths.source),
            is_file: path_is_file(&self.paths.source),
            detected_cpus: available_cpus(),
        };
        self.validate_with(facts)
    }

    /// Get the actual CPU count to use.
    pub fn effective_cpu_count(&self) -> (r: usize)
        ensures
            self.io.cpu_count != 0 ==> r == self.io.cpu_count,
            self.io.cpu_count == 0 ==> r >= 1,
    {
        if self.io.cpu_count == 0 {
            available_cpus()
        } else {
            self.io.cpu_count
        }
    }

    /// Get the actual buffer size in bytes (64 KB when none is configured).
    pub fn effective_buffer_size(&self) -> (r: usize)
        requires
            self.io.buffer_size_kb * 1024 <= usize::MAX,
        ensures
            r == (if self.io.buffer_size_kb == 0 { 65536 } else { self.io.buffer_size_kb * 1024 }),
    {
        if self.io.buffer_size_kb == 0 {
            65536
        } else {
            self.io.buffer_size_kb * 1024
        }
    }

    /// Check if the source is a directory. This asks the filesystem, so the
    /// answer is not determined by the arguments.
    pub fn is_directory_copy(&self) -> bool {
        path_is_dir(&self.paths.source)
    }

    /// Check if the source is a single file. This asks the filesystem, so the
    /// answer is not determined by the arguments.
    pub fn is_file_copy(&self) -> bool {
        path_is_file(&self.paths.source)
    }

    /// Get buffer size in bytes.
    pub fn buffer_size_bytes(&self) -> (r: usize)
        requires
            self.io.buffer_size_kb * 1024 <= usize::MAX,
        ensures
            r == self.io.buffer_size_kb * 1024,
    {
        self.io.buffer_size_kb * 1024
    }

    /// Get source path.
    pub fn source(&self) -> (r: &PathBuf)
        ensures
            *r == self.paths.source,
    {
        &self.paths.source
    }

    /// Get destination path.
    pub fn destination(&self) -> (r: &PathBuf)
        ensures
            *r == self.paths.destination,
    {
        &self.paths.destination
    }

    /// Get queue depth.
    pub fn queue_depth(&self) -> (r: usize)
        ensures
            r == self.io.queue_depth,
    {
        self.io.queue_depth
    }

    /// Get max files in flight.
    pub fn max_files_in_flight(&self) -> (r: usize)
        ensures
            r == self.concurrency.max_files_in_flight,
    {
        self.concurrency.max_files_in_flight
    }

    /// Get copy method.
    pub fn copy_method(&self) -> (r: &CopyMethod)
        ensures
            *r == self.io.copy_method,
    {
        &self.io.copy_method
    }

    /// Verbosity level.
    pub fn verbose(&self) -> (r: u8)
        ensures
            r == self.output.verbose,
    {
        self.output.verbose
    }

    /// Whether quiet mode is enabled.
    pub fn quiet(&self) -> (r: bool)
        ensures
            r == self.output.quiet,
    {
        self.output.quiet
    }

    /// Check if permissions should be preserved.
    pub fn should_preserve_permissions(&self) -> (r: bool)
        ensures
            r == self.metadata.spec_preserve_permissions(),
    {
        self.metadata.should_preserve_permissions()
    }

    /// Check if ownership should be preserved.
    pub fn should_preserve_ownership(&self) -> (r: bool)
        ensures
            r == self.metadata.spec_preserve_ownership(),
    {
        self.metadata.should_preserve_ownership()
    }

    /// Check if timestamps should be preserved.
    pub fn should_preserve_timestamps(&self) -> (r: bool)
        ensures
            r == self.metadata.spec_preserve_timestamps(),
    {
        self.metadata.should_preserve_timestamps()
    }

    /// Check if xattrs should be preserved.
    pub fn should_preserve_xattrs(&self) -> (r: bool)
        ensures
            r == self.metadata.spec_preserve_xattrs(),
    {
        self.metadata.should_preserve_xattrs()
    }

    /// Check if symlinks should be preserved.
    pub fn should_preserve_links(&self) -> (r: bool)
        ensures
            r == self.metadata.spec_preserve_links(),
    {
        self.metadata.should_preserve_links()
    }

    /// Check if hard links should be preserved.
    pub fn should_preserve_hard_links(&self) -> (r: bool)
        ensures
            r == self.metadata.hard_links,
    {
        self.metadata.should_preserve_hard_links()
    }

    /// Check if recursive copying should be performed.
    pub fn should_recurse(&self) -> (r: bool)
        ensures
            r == self.metadata.spec_recurse(),
    {
        self.metadata.recursive || self.metadata.archive
    }
}

/// A command line that validation accepts has its source present, bounded
/// options and a consistent output mode; for these the derived sizes never
/// overflow.
pub proof fn lemma_valid_args_are_bounded(args: Args, facts: SourceFacts)
    requires
        args.spec_validate(facts) is Ok,
    ensures
        facts.exists,
        facts.is_dir || facts.is_file,
        1024 <= args.io.queue_depth <= 65536,
        1 <= args.concurrency.max_files_in_flight <= 10000,
        args.io.buffer_size_kb * 1024 <= usize::MAX,
        !(args.output.quiet && args.output.verbose > 0),
        args.io.parallel.enabled ==> args.io.parallel.chunk_size_mb * MIB <= usize::MAX,
        args.io.parallel.enabled ==> 1 <= args.io.parallel.max_depth + 1 <= 7,
{
}

} // verus!
