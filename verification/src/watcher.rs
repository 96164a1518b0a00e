//! Change detection for an external transcript file. The driver reads the
//! file's metadata (size and modification time, the latter as nanoseconds
//! since the epoch) and this type decides, from those plain values alone,
//! whether the file has changed since watching began.

use vstd::prelude::*;

verus! {

/// A snapshot of the watched file's metadata at the moment watching
/// began.
#[derive(Debug)]
pub struct TranscriptWatcher {
    /// Path of the watched file, kept for the driver's re-reads.
    pub path: String,
    /// File size when watching began, in bytes.
    pub initial_size: u64,
    /// Modification time when watching began, in nanoseconds since the
    /// epoch.
    pub initial_mtime: u128,
}

impl TranscriptWatcher {
    /// Start watching: record the file's current size and modification
    /// time.
    pub fn new(path: String, initial_size: u64, initial_mtime: u128) -> (w: Self)
        ensures
            w.path@ == path@,
            w.initial_size == initial_size,
            w.initial_mtime == initial_mtime,
    {
        TranscriptWatcher { path, initial_size, initial_mtime }
    }

    /// Whether the file has changed since watching began: any size change
    /// counts (the watched transcript typically shrinks), as does a newer
    /// modification time.
    pub fn file_changed(&self, current_size: u64, current_mtime: u128) -> (r: bool)
        ensures
            r == (current_size != self.initial_size || current_mtime > self.initial_mtime),
    {
        current_size != self.initial_size || current_mtime > self.initial_mtime
    }
}

} // verus!
