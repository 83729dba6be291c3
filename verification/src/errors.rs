//! Configuration errors.
//!
//! Every fault a configuration can carry — an unknown gradient or fractal
//! name, a transition pointing outside the keyframe list, a malformed
//! keyframe or step count — is reported through [`ConfigError`] and
//! propagated to the outermost caller instead of aborting mid-computation.
//! The rendering functions themselves are total over their documented
//! domains and never fail.

use vstd::prelude::*;
use vstd::string::StrSliceExecFns;

verus! {

/// A fatal configuration fault, found before any rendering begins.
#[derive(Clone, Copy, Debug, PartialEq, Eq, Structural)]
pub enum ConfigError {
    /// The gradient name in the properties document is not one of the known
    /// palette names.
    UnknownGradient,
    /// The fractal name in the properties document is not a known
    /// escape-time family.
    UnknownFractal,
    /// A transition's `from_frame` or `to_frame` does not index the keyframe
    /// list.
    TransitionIndexOutOfRange,
    /// A transition declares zero steps, or more steps than the sequencer
    /// accepts.
    InvalidStepCount,
    /// A keyframe's fields lie outside the renderer's numeric domain
    /// (iteration budget of zero, non-positive radius, or a coordinate
    /// beyond the supported plane region).
    InvalidKeyframe,
    /// A gradient was built from fewer than two color stops.
    InvalidGradient,
}

impl ConfigError {
    /// A human-readable description, for the outermost error reporter.
    pub fn describe(&self) -> &'static str {
        match self {
            ConfigError::UnknownGradient => "color gradient name is unknown",
            ConfigError::UnknownFractal => "fractal function name is unknown",
            ConfigError::TransitionIndexOutOfRange => "transition references a frame index outside the keyframe list",
            ConfigError::InvalidStepCount => "transition step count must be between 1 and the sequencer limit",
            ConfigError::InvalidKeyframe => "keyframe field is outside the supported numeric range",
            ConfigError::InvalidGradient => "a gradient needs at least two color stops",
        }
    }
}

/// Character-for-character string equality, used to validate configuration
/// names against the closed sets of known gradients and fractals.
pub fn str_eq(a: &str, b: &str) -> (r: bool)
    ensures
        r == (a@ == b@),
{
    let a_len: usize = a.unicode_len();
    let b_len: usize = b.unicode_len();
    if a_len != b_len {
        return false;
    }
    let mut i: usize = 0;
    while i < a_len
        invariant
            0 <= i <= a_len,
            a_len == a@.len(),
            b_len == b@.len(),
            a_len == b_len,
            forall|j: int| 0 <= j < i ==> a@[j] == b@[j],
        decreases a_len - i,
    {
        if a.get_char(i) != b.get_char(i) {
            return false;
        }
        i = i + 1;
    }
    proof {
        assert(a@ =~= b@);
    }
    true
}

} // verus!
