//! Sample count of the progressive accumulation buffer.
//!
//! The buffer keeps one running-mean color per pixel and a single shared
//! sample count. The means are floating-point and belong to the renderer;
//! the count is the integer state here. It grows by exactly one per
//! completed frame, and drops back to zero whenever the camera is seen to
//! have moved, so that stale samples never dilute a fresh view.

use vstd::prelude::*;

verus! {

pub struct SampleCounter {
    samples: u32,
}

impl SampleCounter {
    /// How many frames have been merged since the last reset.
    pub closed spec fn count(&self) -> u32 {
        self.samples
    }

    /// A fresh counter: nothing accumulated yet.
    pub fn new() -> (c: SampleCounter)
        ensures
            c.count() == 0,
    {
        SampleCounter { samples: 0 }
    }

    /// Discards the accumulated history.
    pub fn reset(&mut self)
        ensures
            final(self).count() == 0,
    {
        self.samples = 0;
    }

    /// Starts a frame: a camera that moved invalidates the history, so the
    /// count is reset before any merge of the new frame; otherwise it is
    /// left as it stands.
    pub fn begin_frame(&mut self, camera_moved: bool)
        ensures
            final(self).count() == if camera_moved {
                0u32
            } else {
                old(self).count()
            },
    {
        if camera_moved {
            self.reset();
        }
    }

    /// Ends a frame: exactly one more sample per pixel has been merged.
    pub fn complete_frame(&mut self)
        requires
            old(self).count() < u32::MAX,
        ensures
            final(self).count() == old(self).count() + 1,
    {
        self.samples = self.samples + 1;
    }

    /// The current count, for the merge weight and for display.
    pub fn current(&self) -> (n: u32)
        ensures
            n == self.count(),
    {
        self.samples
    }
}

} // verus!
