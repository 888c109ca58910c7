//! Animation clips and the wrapping frame counter that drives them.
//!
//! A tag is a named clip: an ordered, non-empty sequence of sprite-frame
//! descriptors. A frame counter increments once per rendered frame and
//! wraps modulo its period; the displayed frame of a tag is selected from
//! the counter, one clip step every `FRAMES_PER_STEP` ticks.

use vstd::prelude::*;

verus! {

/// Period of the walking animation's frame counter, in rendered frames.
pub const WALK_PERIOD: u32 = 64;

/// Number of rendered frames each clip frame stays on screen.
pub const FRAMES_PER_STEP: u32 = 8;

/// Index into a clip of `count` frames selected at counter value
/// `counter`: `counter / step`, clamped to the last frame of the clip.
pub open spec fn spec_frame_index(counter: int, step: int, count: int) -> int {
    if counter / step < count - 1 {
        counter / step
    } else {
        count - 1
    }
}

/// A named animation clip: an ordered sequence of sprite-frame
/// descriptors, loaded once at startup and immutable afterwards.
pub struct AnimationTag {
    /// Sprite-frame descriptors in display order; never empty.
    pub frames: Vec<u32>,
}

impl AnimationTag {
    /// Whether the clip is well formed: it has at least one frame.
    pub open spec fn wf(self) -> bool {
        self.frames.len() > 0
    }

    /// A clip over the given non-empty frame sequence.
    pub fn new(frames: Vec<u32>) -> (tag: AnimationTag)
        requires
            frames.len() > 0,
        ensures
            tag.frames == frames,
            tag.wf(),
    {
        AnimationTag { frames }
    }

    /// The sprite-frame descriptor displayed at counter value `counter`,
    /// advancing one clip frame every `step` counter ticks and holding
    /// the last clip frame once the counter runs past the clip.
    pub fn frame_at(&self, counter: u32, step: u32) -> (frame: u32)
        requires
            self.wf(),
            step > 0,
        ensures
            frame == self.frames[spec_frame_index(counter as int, step as int, self.frames.len() as int)],
    {
        let raw_index = (counter / step) as usize;
        let index = if raw_index < self.frames.len() - 1 {
            raw_index
        } else {
            self.frames.len() - 1
        };
        self.frames[index]
    }
}

/// A bounded counter driving animation phase: its value stays below its
/// period and wraps to zero when the period is reached.
#[derive(Clone, Copy, PartialEq, Eq, Structural, Debug)]
pub struct FrameCounter {
    /// Current value, always below `period`.
    pub value: u32,
    /// Wrap period; positive.
    pub period: u32,
}

impl FrameCounter {
    /// Whether the counter is well formed: the period is positive and
    /// the value lies within it.
    pub open spec fn wf(self) -> bool {
        0 < self.period && self.value < self.period
    }

    /// A counter at zero with the given period.
    pub fn new(period: u32) -> (c: FrameCounter)
        requires
            period > 0,
        ensures
            c.value == 0,
            c.period == period,
            c.wf(),
    {
        FrameCounter { value: 0, period }
    }

    /// Advances the counter by one tick, wrapping modulo the period: in
    /// particular, a counter that has reached the last value before the
    /// period wraps to zero on this increment.
    pub fn advance(&mut self)
        requires
            old(self).wf(),
        ensures
            final(self).period == old(self).period,
            final(self).value == (old(self).value + 1) % (old(self).period as int),
            old(self).value + 1 == old(self).period ==> final(self).value == 0,
            final(self).wf(),
    {
        proof {
            vstd::arithmetic::div_mod::lemma_mod_self_0(self.period as int);
        }
        self.value = (self.value + 1) % self.period;
    }
}

} // verus!
