//! The frame counter: a process-wide count of the frames that were delivered
//! and produced no detection, read only for diagnostics.
//!
//! The delivery queue guarantees that frames are processed one at a time, so
//! the counter has a single writer; it is owned by the pipeline and exposed
//! read-only. It cannot be reset: the only way to change it is to count one
//! more frame.

use vstd::prelude::*;

verus! {

pub struct FrameCounter {
    count: u64,
}

impl FrameCounter {
    /// The number of frames counted so far.
    pub closed spec fn count(self) -> u64 {
        self.count
    }

    /// A fresh counter, as constructed with its owning backend: zero frames seen.
    pub fn new() -> (c: FrameCounter)
        ensures
            c.count() == 0,
    {
        FrameCounter { count: 0 }
    }

    /// Count one more delivered frame.
    pub fn increment(&mut self)
        requires
            old(self).count() < u64::MAX,
        ensures
            final(self).count() == old(self).count() + 1,
    {
        self.count = self.count + 1;
    }

    /// Read the counter for a diagnostic line.
    pub fn get(&self) -> (n: u64)
        ensures
            n == self.count(),
    {
        self.count
    }
}

} // verus!
