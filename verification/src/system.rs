//! Declarations of the standard-library and outside types that the library
//! carries through its data, and the queries it makes of the host system.

use vstd::prelude::*;
use std::path::PathBuf;
use std::time::SystemTime;

verus! {

/// A filesystem path, carried through configuration and records unchanged.
#[verifier::external_type_specification]
#[verifier::external_body]
pub struct ExPathBuf(PathBuf);

/// A point in time, carried through metadata records unchanged.
#[verifier::external_type_specification]
#[verifier::external_body]
pub struct ExSystemTime(SystemTime);

/// Whether something exists at `path` (`std::path::Path::exists`).
/// The answer depends on the filesystem at the time of the call, so nothing
/// is claimed about it.
#[verifier::external_body]
pub(crate) fn path_exists(path: &PathBuf) -> bool {
    path.exists()
}

/// Whether `path` names a directory (`std::path::Path::is_dir`).
/// The answer depends on the filesystem at the time of the call, so nothing
/// is claimed about it.
#[verifier::external_body]
pub(crate) fn path_is_dir(path: &PathBuf) -> bool {
    path.is_dir()
}

/// Whether `path` names a regular file (`std::path::Path::is_file`).
/// The answer depends on the filesystem at the time of the call, so nothing
/// is claimed about it.
#[verifier::external_body]
pub(crate) fn path_is_file(path: &PathBuf) -> bool {
    path.is_file()
}

/// The number of CPUs available to this process (`num_cpus::get`).
/// Its documentation promises that the result is at least one; the exact
/// count depends on the machine and is not stated.
#[verifier::external_body]
pub(crate) fn available_cpus() -> (n: usize)
    ensures
        n >= 1,
{
    num_cpus::get()
}

/// `<PathBuf as Clone>::clone`: the copy is equal to the original path.
pub assume_specification[ <PathBuf as Clone>::clone ](path: &PathBuf) -> (r: PathBuf)
    ensures
        r == *path,
;

} // verus!
