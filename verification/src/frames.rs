use vstd::prelude::*;

verus! {

/// Nanoseconds in the one-second window over which frames are counted.
pub const NANOS_PER_SECOND: u128 = 1_000_000_000;

/// Counts painted frames since the frame rate was last measured.
pub struct FrameCounter {
    frames: usize,
}

impl View for FrameCounter {
    type V = nat;

    /// The number of frames painted since the last measurement.
    closed spec fn view(&self) -> nat {
        self.frames as nat
    }
}

impl FrameCounter {
    /// A counter with no frame counted yet.
    pub fn new() -> (c: FrameCounter)
        ensures
            c@ == 0,
    {
        FrameCounter { frames: 0 }
    }

    /// The number of frames painted since the last measurement.
    pub fn frames(&self) -> (n: usize)
        ensures
            n == self@,
    {
        self.frames
    }

    /// Counts one painted frame, `elapsed_nanos` after the last measurement.
    /// Once a full second has passed, the window closes: the number of frames
    /// in it (this one included) comes back, to be divided by the elapsed
    /// time, and counting starts again from zero.
    pub fn record_frame(&mut self, elapsed_nanos: u128) -> (window: Option<usize>)
        requires
            old(self)@ < usize::MAX,
        ensures
            elapsed_nanos >= NANOS_PER_SECOND ==> window == Some((old(self)@ + 1) as usize)
                && final(self)@ == 0,
            elapsed_nanos < NANOS_PER_SECOND ==> window is None && final(self)@ == old(self)@ + 1,
    {
        self.frames = self.frames + 1;
        if elapsed_nanos >= NANOS_PER_SECOND {
            let counted = self.frames;
            self.frames = 0;
            Some(counted)
        } else {
            None
        }
    }
}

} // verus!
