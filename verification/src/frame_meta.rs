//! The keyframe model: one fully specified render request.
//!
//! A keyframe names a viewport (center, radius), an iteration budget and a
//! palette phase. Keyframe equality deliberately ignores the palette phase:
//! two keyframes are "the same viewport" whenever the four other fields
//! agree, which lets a renderer reuse an iteration buffer across frames that
//! differ only in coloring.

use vstd::prelude::*;
use vstd::std_specs::cmp::PartialEqSpec;

use crate::fixed::COORD_BOUND;

verus! {

/// Largest iteration budget a keyframe may carry: `2^18`, comfortably above
/// any practical budget while leaving the interpolator headroom to scale a
/// budget into fixed point without overflow.
pub const MAX_ITERATIONS_BOUND: usize = 0x4_0000;

/// One fully specified render request: viewport, iteration budget and
/// palette phase. Coordinates, radius and shift are fixed-point values
/// (see [`crate::fixed::FIX_ONE`]).
#[derive(Clone, Copy, Debug)]
pub struct FrameMeta {
    pub max_iterations: usize,
    pub x_pos: i64,
    pub y_pos: i64,
    pub radius: i64,
    pub color_gradient_shift: i64,
}

impl FrameMeta {
    /// A keyframe the renderer and sequencer accept: an iteration budget of
    /// at least one, a positive radius, and every fixed-point field inside
    /// the supported plane region.
    pub open spec fn wf(&self) -> bool {
        &&& 1 <= self.max_iterations <= MAX_ITERATIONS_BOUND
        &&& -COORD_BOUND <= self.x_pos <= COORD_BOUND
        &&& -COORD_BOUND <= self.y_pos <= COORD_BOUND
        &&& 1 <= self.radius <= COORD_BOUND
        &&& -COORD_BOUND <= self.color_gradient_shift <= COORD_BOUND
    }

    /// Viewport identity: agreement on every field except the palette
    /// phase. This is what keyframe equality compares.
    pub open spec fn same_viewport(&self, other: &FrameMeta) -> bool {
        &&& self.max_iterations == other.max_iterations
        &&& self.x_pos == other.x_pos
        &&& self.y_pos == other.y_pos
        &&& self.radius == other.radius
    }

    /// Executable well-formedness test, for validating parsed
    /// configuration.
    pub fn is_well_formed(&self) -> (r: bool)
        ensures
            r == self.wf(),
    {
        1 <= self.max_iterations && self.max_iterations <= MAX_ITERATIONS_BOUND
            && -COORD_BOUND <= self.x_pos && self.x_pos <= COORD_BOUND && -COORD_BOUND <= self.y_pos
            && self.y_pos <= COORD_BOUND && 1 <= self.radius && self.radius <= COORD_BOUND
            && -COORD_BOUND <= self.color_gradient_shift && self.color_gradient_shift <= COORD_BOUND
    }
}

impl PartialEq for FrameMeta {
    fn eq(&self, other: &FrameMeta) -> (r: bool) {
        // The palette phase is deliberately not compared: frames that agree
        // on the viewport can share an iteration buffer whatever their
        // coloring.
        self.max_iterations == other.max_iterations && self.x_pos == other.x_pos && self.y_pos
            == other.y_pos && self.radius == other.radius
    }
}

impl vstd::std_specs::cmp::PartialEqSpecImpl for FrameMeta {
    open spec fn obeys_eq_spec() -> bool {
        true
    }

    open spec fn eq_spec(&self, other: &FrameMeta) -> bool {
        self.same_viewport(other)
    }
}

/// Keyframe equality compares exactly the four viewport fields and ignores
/// `color_gradient_shift`: keyframes differing only in the palette phase are
/// equal, and a difference in any other field makes them unequal.
pub proof fn lemma_keyframe_identity(a: FrameMeta, b: FrameMeta)
    ensures
        a.eq_spec(&b) <==> (a.max_iterations == b.max_iterations && a.x_pos == b.x_pos && a.y_pos
            == b.y_pos && a.radius == b.radius),
{
}

} // verus!
