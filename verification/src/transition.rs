//! A transition: the declarative rule expanding two keyframes into a run of
//! in-between frames.

use vstd::prelude::*;

use crate::interpolation::{InterpolationType, MAX_STEPS};

verus! {

/// One transition of a video: interpolate from the keyframe at index
/// `from_frame` to the keyframe at index `to_frame`, emitting `steps`
/// frames remapped in time by `interpolation_type`. The indices refer to an
/// ordered keyframe list; an index outside that list is a fatal
/// configuration error found by validation, never at render time.
#[derive(Clone, Copy, Debug, PartialEq, Eq, Structural)]
pub struct Transition {
    pub from_frame: usize,
    pub to_frame: usize,
    pub interpolation_type: InterpolationType,
    pub steps: usize,
}

impl Transition {
    /// Valid against a keyframe list of `frame_count` entries: both indices
    /// in range, and a step count of at least one within the sequencer's
    /// limit.
    pub open spec fn wf(&self, frame_count: int) -> bool {
        &&& self.from_frame < frame_count
        &&& self.to_frame < frame_count
        &&& 1 <= self.steps <= MAX_STEPS
    }
}

} // verus!
