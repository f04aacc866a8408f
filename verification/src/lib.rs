//! Verified core of a bulk file copier: configuration, copy planning,
//! buffer pooling, hardlink tracking and concurrency adaptation.

pub mod adaptive_concurrency;
pub mod backends;
pub mod buffer_pool;
pub mod cli;
pub mod condvar;
pub mod copy_plan;
pub mod directory;
pub mod error;
pub mod file_metadata;
pub mod gui;
pub mod hardlink_tracker;
pub mod io_uring;
pub mod metadata;
pub mod pattern;
pub mod syscall_analysis;
pub mod syscall_report;
pub mod system;
pub mod tally;
pub mod text;
pub mod translations;
pub mod xattr_list;
