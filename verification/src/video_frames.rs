//! The transition sequencer: expands a sparse, validated set of keyframes
//! and transitions into the dense, time-ordered frame list a video consumes.
//!
//! The frame list is the concatenation, in declaration order, of each
//! transition's expansion; its total length is exactly the sum of the
//! transitions' step counts. Construction validates every keyframe and
//! every transition index up front — out-of-range indices are a fatal
//! configuration error, never an out-of-bounds access at render time.

use vstd::prelude::*;

use crate::errors::ConfigError;
use crate::frame_meta::FrameMeta;
use crate::interpolation::{interpolate_frames, transition_frame_spec};
use crate::transition::Transition;

verus! {

/// Every keyframe within the renderer's numeric domain.
pub open spec fn all_frames_wf(frames: Seq<FrameMeta>) -> bool {
    forall|i: int| 0 <= i < frames.len() ==> (#[trigger] frames[i]).wf()
}

/// Every transition indexing into the keyframe list.
pub open spec fn all_indices_valid(transitions: Seq<Transition>, frame_count: int) -> bool {
    forall|i: int|
        0 <= i < transitions.len() ==> (#[trigger] transitions[i]).from_frame < frame_count
            && transitions[i].to_frame < frame_count
}

/// Every transition declaring an accepted step count.
pub open spec fn all_steps_valid(transitions: Seq<Transition>) -> bool {
    forall|i: int|
        0 <= i < transitions.len() ==> 1 <= (#[trigger] transitions[i]).steps
            <= crate::interpolation::MAX_STEPS
}

/// The sum of the step counts of all transitions: the total frame count of
/// the video.
pub open spec fn total_steps_spec(transitions: Seq<Transition>) -> int
    decreases transitions.len(),
{
    if transitions.len() == 0 {
        0
    } else {
        total_steps_spec(transitions.drop_last()) + transitions.last().steps
    }
}

/// The frames one transition contributes: its `steps` interpolated
/// keyframes, in step order.
pub open spec fn expand_spec(frames: Seq<FrameMeta>, t: Transition) -> Seq<FrameMeta> {
    Seq::new(
        t.steps as nat,
        |i: int|
            transition_frame_spec(
                frames[t.from_frame as int],
                frames[t.to_frame as int],
                t.interpolation_type,
                i,
                t.steps as int,
            ),
    )
}

/// The whole video's frame list: the concatenation of every transition's
/// expansion, in declaration order.
pub open spec fn all_frames_spec(frames: Seq<FrameMeta>, transitions: Seq<Transition>) -> Seq<
    FrameMeta,
>
    decreases transitions.len(),
{
    if transitions.len() == 0 {
        Seq::empty()
    } else {
        all_frames_spec(frames, transitions.drop_last()) + expand_spec(frames, transitions.last())
    }
}

/// The sequencer's output length is exactly the sum of the step counts of
/// the transitions, in declaration order.
pub proof fn lemma_frame_count_is_total_steps(frames: Seq<FrameMeta>, transitions: Seq<Transition>)
    ensures
        all_frames_spec(frames, transitions).len() == total_steps_spec(transitions),
        total_steps_spec(transitions) >= 0,
    decreases transitions.len(),
{
    if transitions.len() > 0 {
        lemma_frame_count_is_total_steps(frames, transitions.drop_last());
    }
}

/// A validated video description: an ordered keyframe list and the ordered
/// transitions between entries of it.
pub struct VideoFrames {
    frames: Vec<FrameMeta>,
    transitions: Vec<Transition>,
}

impl VideoFrames {
    /// The keyframe list.
    pub closed spec fn spec_frames(&self) -> Seq<FrameMeta> {
        self.frames@
    }

    /// The transition list.
    pub closed spec fn spec_transitions(&self) -> Seq<Transition> {
        self.transitions@
    }

    /// A validated description: every keyframe well-formed and every
    /// transition valid against the keyframe list. [`VideoFrames::new`]
    /// establishes this; it is never re-checked at render time.
    pub open spec fn wf(&self) -> bool {
        &&& all_frames_wf(self.spec_frames())
        &&& all_indices_valid(self.spec_transitions(), self.spec_frames().len() as int)
        &&& all_steps_valid(self.spec_transitions())
    }

    /// Validate a parsed video description. Returns the description exactly
    /// when every keyframe is well-formed, every transition index is in
    /// range and every step count is accepted; otherwise reports the first
    /// failing validation phase as a fatal configuration error.
    pub fn new(frames: Vec<FrameMeta>, transitions: Vec<Transition>) -> (r: Result<
        VideoFrames,
        ConfigError,
    >)
        ensures
            r matches Ok(v) ==> v.wf() && v.spec_frames() == frames@ && v.spec_transitions()
                == transitions@,
            r is Ok <==> (all_frames_wf(frames@) && all_indices_valid(
                transitions@,
                frames@.len() as int,
            ) && all_steps_valid(transitions@)),
            !all_frames_wf(frames@) ==> r == Err::<VideoFrames, ConfigError>(
                ConfigError::InvalidKeyframe,
            ),
            all_frames_wf(frames@) && !all_indices_valid(transitions@, frames@.len() as int)
                ==> r == Err::<VideoFrames, ConfigError>(ConfigError::TransitionIndexOutOfRange),
            all_frames_wf(frames@) && all_indices_valid(transitions@, frames@.len() as int)
                && !all_steps_valid(transitions@) ==> r == Err::<VideoFrames, ConfigError>(
                ConfigError::InvalidStepCount,
            ),
    {
        let mut i: usize = 0;
        while i < frames.len()
            invariant
                0 <= i <= frames@.len(),
                forall|j: int| 0 <= j < i ==> (#[trigger] frames@[j]).wf(),
            decreases frames@.len() - i,
        {
            if !frames[i].is_well_formed() {
                return Err(ConfigError::InvalidKeyframe);
            }
            i = i + 1;
        }
        let mut k: usize = 0;
        while k < transitions.len()
            invariant
                0 <= k <= transitions@.len(),
                all_frames_wf(frames@),
                forall|j: int|
                    0 <= j < k ==> (#[trigger] transitions@[j]).from_frame < frames@.len()
                        && transitions@[j].to_frame < frames@.len(),
            decreases transitions@.len() - k,
        {
            if transitions[k].from_frame >= frames.len() || transitions[k].to_frame
                >= frames.len() {
                return Err(ConfigError::TransitionIndexOutOfRange);
            }
            k = k + 1;
        }
        let mut k: usize = 0;
        while k < transitions.len()
            invariant
                0 <= k <= transitions@.len(),
                all_frames_wf(frames@),
                all_indices_valid(transitions@, frames@.len() as int),
                forall|j: int|
                    0 <= j < k ==> 1 <= (#[trigger] transitions@[j]).steps
                        <= crate::interpolation::MAX_STEPS,
            decreases transitions@.len() - k,
        {
            if transitions[k].steps < 1 || transitions[k].steps > crate::interpolation::MAX_STEPS {
                return Err(ConfigError::InvalidStepCount);
            }
            k = k + 1;
        }
        Ok(VideoFrames { frames, transitions })
    }

    /// Expand every transition, in declaration order, into the dense frame
    /// list the video plays: exactly `total_steps_spec` frames, each one
    /// pinned by [`transition_frame_spec`].
    pub fn construct_all_frames(&self) -> (all_frames: Vec<FrameMeta>)
        requires
            self.wf(),
        ensures
            all_frames@ == all_frames_spec(self.spec_frames(), self.spec_transitions()),
            all_frames@.len() == total_steps_spec(self.spec_transitions()),
            forall|i: int| 0 <= i < all_frames@.len() ==> (#[trigger] all_frames@[i]).wf(),
    {
        let mut all_frames: Vec<FrameMeta> = Vec::new();
        let mut k: usize = 0;
        while k < self.transitions.len()
            invariant
                0 <= k <= self.spec_transitions().len(),
                self.wf(),
                all_frames@ == all_frames_spec(
                    self.spec_frames(),
                    self.spec_transitions().subrange(0, k as int),
                ),
                forall|i: int| 0 <= i < all_frames@.len() ==> (#[trigger] all_frames@[i]).wf(),
            decreases self.spec_transitions().len() - k,
        {
            let t: Transition = self.transitions[k];
            let mut chunk: Vec<FrameMeta> = interpolate_frames(
                &self.frames[t.from_frame],
                &self.frames[t.to_frame],
                t.steps,
                &t.interpolation_type,
            );
            proof {
                assert(chunk@ =~= expand_spec(self.spec_frames(), t));
                assert(self.spec_transitions().subrange(0, k + 1).drop_last()
                    =~= self.spec_transitions().subrange(0, k as int));
                assert(all_frames@ + chunk@ =~= all_frames_spec(
                    self.spec_frames(),
                    self.spec_transitions().subrange(0, k + 1),
                ));
            }
            all_frames.append(&mut chunk);
            k = k + 1;
        }
        proof {
            assert(self.spec_transitions().subrange(0, self.spec_transitions().len() as int)
                =~= self.spec_transitions());
            lemma_frame_count_is_total_steps(self.spec_frames(), self.spec_transitions());
        }
        all_frames
    }
}

} // verus!
