//! Change detection for the map definition file.
//!
//! Reading a file's modification time is I/O and is done by the embedding
//! application, which hands the observed timestamp in here as a plain
//! number; this type keeps the last seen timestamp and decides whether the
//! file changed since.

use vstd::prelude::*;

verus! {

/// Remembers the last observed modification time of a watched file.
pub struct FileWatcher {
    pub modified: u64,
}

impl FileWatcher {
    /// Start watching from the given modification time.
    pub fn new(modified: u64) -> (w: FileWatcher)
        ensures
            w.modified == modified,
    {
        FileWatcher { modified }
    }

    /// Report whether the newly observed modification time differs from the
    /// last one seen, and remember it.
    pub fn changed(&mut self, modified_now: u64) -> (r: bool)
        ensures
            r == (modified_now != old(self).modified),
            final(self).modified == modified_now,
    {
        if self.modified != modified_now {
            self.modified = modified_now;
            true
        } else {
            false
        }
    }
}

} // verus!
