//! Counting the frames drawn in each second.

use vstd::prelude::*;

verus! {

/// Counts frames between one report and the next.
pub struct FrameCounter {
    frames: u32,
}

impl View for FrameCounter {
    type V = u32;

    /// The frames counted since the last report.
    closed spec fn view(&self) -> u32 {
        self.frames
    }
}

impl FrameCounter {
    /// A counter that has counted nothing.
    pub fn new() -> (counter: Self)
        ensures
            counter@ == 0,
    {
        FrameCounter { frames: 0 }
    }

    /// Take note of a frame that is drawn `elapsed_secs` whole seconds after
    /// the last report.
    ///
    /// Once a second has passed, the frames counted are reported and the
    /// count starts again at zero; the frame of the report is not counted.
    /// Before that the frame is counted, as far as 32 bits count, and
    /// nothing is reported.
    pub fn update_frame_counter(&mut self, elapsed_secs: u64) -> (report: Option<u32>)
        ensures
            elapsed_secs >= 1 ==> report == Some(old(self)@) && final(self)@ == 0,
            elapsed_secs < 1 ==> report is None && final(self)@ == if old(self)@ < u32::MAX {
                (old(self)@ + 1) as u32
            } else {
                u32::MAX
            },
    {
        if elapsed_secs >= 1 {
            let val = self.frames;
            self.frames = 0;
            Some(val)
        } else {
            if self.frames < u32::MAX {
                self.frames = self.frames + 1;
            }
            None
        }
    }
}

} // verus!
