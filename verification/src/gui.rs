//! Messages exchanged by the graphical front end.

use vstd::prelude::*;
use std::path::PathBuf;

verus! {

/// Messages handled by the main application component.
#[derive(Debug)]
pub enum Message {
    /// No-op message (default for unhandled events).
    Noop,
    /// User requested to close the window.
    WindowClose,
    /// User clicked "Browse Source".
    BrowseSource,
    /// User selected a source path.
    SourceSelected(PathBuf),
    /// User clicked "Browse Destination".
    BrowseDest,
    /// User selected a destination path.
    DestSelected(PathBuf),
    /// User clicked "Start Copy".
    StartCopy,
    /// User clicked "Cancel".
    CancelCopy,
    /// Copy operation completed.
    CopyComplete(Result<(), String>),
}

} // verus!
