//! The color mapper: from iteration count to an RGB color.
//!
//! An iteration count is normalized to `count / max_iterations`, offset by
//! the keyframe's palette phase and wrapped into `[0, 1)` by a true modulo
//! (so phases below `0` and above `1` wrap identically), then used to sample
//! a gradient. A gradient here is a piecewise-linear palette: an ordered
//! list of at least two color stops spread evenly over `[0, 1]`, sampled by
//! interpolating the two neighboring stops channel by channel. The external
//! palette provider is reduced to such a stop list by the caller.

use vstd::prelude::*;

use crate::errors::{str_eq, ConfigError};
use crate::fixed::{lemma_wrap_whole_shift, wrap_spec, wrap_unit, FIX_ONE};
use crate::frame_meta::MAX_ITERATIONS_BOUND;
use crate::interpolation::{lemma_lerp_range, lerp, lerp_spec};

verus! {

/// Largest number of color stops a gradient may hold.
pub const MAX_GRADIENT_STOPS: usize = 0x1_0000;

/// Largest palette-phase magnitude [`color_map`] accepts.
pub const SHIFT_BOUND: i64 = 0x1000_0000_0000;

/// One color: red, green, blue.
#[derive(Clone, Copy, Debug, PartialEq, Eq, Structural)]
pub struct Rgb {
    pub r: u8,
    pub g: u8,
    pub b: u8,
}

/// A continuous `[0, 1) -> RGB` function, represented as evenly spaced
/// color stops interpolated linearly.
pub struct Gradient {
    stops: Vec<Rgb>,
}

/// One channel of a sample: linear interpolation between the two
/// neighboring stops' channels at the position's fractional part.
pub open spec fn channel_sample_spec(a: u8, b: u8, frac: int) -> u8 {
    lerp_spec(a as int, b as int, frac) as u8
}

/// The color of gradient position `v` in `[0, 1)`: stop `idx` and its
/// successor blended at the fractional position between them, where
/// `idx = floor(v * (stop count - 1))`.
pub open spec fn sample_spec(stops: Seq<Rgb>, v: int) -> Rgb {
    let segments = stops.len() - 1;
    let scaled = v * segments;
    let idx = scaled / (FIX_ONE as int);
    let frac = scaled % (FIX_ONE as int);
    let a = stops[idx];
    let b = stops[idx + 1];
    Rgb {
        r: channel_sample_spec(a.r, b.r, frac),
        g: channel_sample_spec(a.g, b.g, frac),
        b: channel_sample_spec(a.b, b.b, frac),
    }
}

/// The wrapped gradient position of an iteration count: normalize to
/// `[0, 1]`, add the palette phase, wrap into `[0, 1)`.
pub open spec fn color_pos_spec(iterations: int, max_iterations: int, shift: int) -> int {
    wrap_spec((iterations * (FIX_ONE as int)) / max_iterations + shift)
}

/// What [`color_map`] returns: the gradient sampled at the wrapped
/// position.
pub open spec fn color_map_spec(
    stops: Seq<Rgb>,
    iterations: int,
    max_iterations: int,
    shift: int,
) -> Rgb {
    sample_spec(stops, color_pos_spec(iterations, max_iterations, shift))
}

impl Gradient {
    /// The stop list.
    pub closed spec fn spec_stops(&self) -> Seq<Rgb> {
        self.stops@
    }

    /// A usable palette: at least two stops (a single color is two equal
    /// stops), at most the supported maximum.
    pub open spec fn wf(&self) -> bool {
        2 <= self.spec_stops().len() <= MAX_GRADIENT_STOPS
    }

    /// Build a gradient from evenly spaced color stops; fewer than two
    /// stops, or more than the supported maximum, is a fatal configuration
    /// error.
    pub fn new(stops: Vec<Rgb>) -> (r: Result<Gradient, ConfigError>)
        ensures
            r is Ok <==> 2 <= stops@.len() <= MAX_GRADIENT_STOPS,
            r matches Ok(g) ==> g.wf() && g.spec_stops() == stops@,
            r is Err ==> r == Err::<Gradient, ConfigError>(ConfigError::InvalidGradient),
    {
        if stops.len() < 2 || stops.len() > MAX_GRADIENT_STOPS {
            Err(ConfigError::InvalidGradient)
        } else {
            Ok(Gradient { stops })
        }
    }

    /// Sample the gradient at position `v` in `[0, 1)`.
    pub fn sample(&self, v: i64) -> (c: Rgb)
        requires
            self.wf(),
            0 <= v < FIX_ONE,
        ensures
            c == sample_spec(self.spec_stops(), v as int),
    {
        let segments: u64 = (self.stops.len() - 1) as u64;
        proof {
            let f = FIX_ONE as int;
            let s = segments as int;
            assert((v as int) * s <= (f - 1) * s) by (nonlinear_arith)
                requires
                    0 <= (v as int) <= f - 1,
                    0 <= s,
            ;
            assert((f - 1) * s == f * (s - 1) + (f - s)) by (nonlinear_arith);
            vstd::arithmetic::div_mod::lemma_fundamental_div_mod_converse(
                (f - 1) * s,
                f,
                s - 1,
                f - s,
            );
            vstd::arithmetic::div_mod::lemma_div_is_ordered((v as int) * s, (f - 1) * s, f);
            vstd::arithmetic::div_mod::lemma_div_pos_is_pos((v as int) * s, f);
            vstd::arithmetic::div_mod::lemma_mod_division_less_than_divisor((v as int) * s, f);
        }
        let scaled: u64 = (v as u64) * segments;
        let idx: usize = (scaled / (FIX_ONE as u64)) as usize;
        let frac: i64 = (scaled % (FIX_ONE as u64)) as i64;
        let a: Rgb = self.stops[idx];
        let b: Rgb = self.stops[idx + 1];
        proof {
            lemma_lerp_range(a.r as int, b.r as int, frac as int);
            lemma_lerp_range(a.g as int, b.g as int, frac as int);
            lemma_lerp_range(a.b as int, b.b as int, frac as int);
        }
        Rgb {
            r: lerp(a.r as i64, b.r as i64, frac) as u8,
            g: lerp(a.g as i64, b.g as i64, frac) as u8,
            b: lerp(a.b as i64, b.b as i64, frac) as u8,
        }
    }
}

/// Map an iteration count to a color: normalize, shift, wrap, sample.
pub fn color_map(
    iterations: usize,
    max_iterations: usize,
    color_gradient_shift: i64,
    gradient: &Gradient,
) -> (c: Rgb)
    requires
        1 <= max_iterations <= MAX_ITERATIONS_BOUND,
        iterations <= max_iterations,
        -SHIFT_BOUND <= color_gradient_shift <= SHIFT_BOUND,
        gradient.wf(),
    ensures
        c == color_map_spec(
            gradient.spec_stops(),
            iterations as int,
            max_iterations as int,
            color_gradient_shift as int,
        ),
{
    let scaled: u64 = (iterations as u64) * (FIX_ONE as u64);
    let v_norm: u64 = scaled / (max_iterations as u64);
    proof {
        let f = FIX_ONE as int;
        let m = max_iterations as int;
        vstd::arithmetic::mul::lemma_mul_inequality(iterations as int, m, f);
        vstd::arithmetic::div_mod::lemma_div_is_ordered((iterations as int) * f, m * f, m);
        vstd::arithmetic::div_mod::lemma_div_multiples_vanish(f, m);
        assert(m * f == f * m) by (nonlinear_arith);
        vstd::arithmetic::div_mod::lemma_div_pos_is_pos((iterations as int) * f, m);
    }
    let pos: i64 = wrap_unit((v_norm as i64) + color_gradient_shift);
    gradient.sample(pos)
}

/// Adding any whole number of gradient turns to the palette phase leaves
/// the mapped color unchanged: the wrapped position is a true modulo, so
/// `color_map(i, m, s)` equals `color_map(i, m, s + k)` for every integer
/// `k` (in fixed point, every multiple of `FIX_ONE`).
pub proof fn lemma_color_map_shift_invariant(
    stops: Seq<Rgb>,
    iterations: int,
    max_iterations: int,
    shift: int,
    k: int,
)
    ensures
        color_map_spec(stops, iterations, max_iterations, shift + k * (FIX_ONE as int))
            == color_map_spec(stops, iterations, max_iterations, shift),
{
    let x = (iterations * (FIX_ONE as int)) / max_iterations;
    lemma_wrap_whole_shift(x + shift, k);
}

/// The closed set of palette names a configuration can select.
#[derive(Clone, Copy, Debug, PartialEq, Eq, Structural)]
pub enum GradientName {
    Sinebow,
    CubehelixDefault,
    Turbo,
    Spectral,
    Viridis,
    Magma,
    Rainbow,
}

/// Which palette a configuration's gradient name denotes, or the fatal
/// configuration error for a name outside the closed set.
pub open spec fn parse_gradient_name_spec(s: Seq<char>) -> Result<GradientName, ConfigError> {
    if s == "sinebow"@ {
        Ok(GradientName::Sinebow)
    } else if s == "cubehelix_default"@ {
        Ok(GradientName::CubehelixDefault)
    } else if s == "turbo"@ {
        Ok(GradientName::Turbo)
    } else if s == "spectral"@ {
        Ok(GradientName::Spectral)
    } else if s == "viridis"@ {
        Ok(GradientName::Viridis)
    } else if s == "magma"@ {
        Ok(GradientName::Magma)
    } else if s == "rainbow"@ {
        Ok(GradientName::Rainbow)
    } else {
        Err(ConfigError::UnknownGradient)
    }
}

/// Resolves a configuration's gradient name against the closed set of known
/// palettes; an unknown name is a fatal configuration error. The caller
/// turns the returned name into an actual stop list.
pub fn str_to_gradient_name(in_str: &str) -> (r: Result<GradientName, ConfigError>)
    ensures
        r == parse_gradient_name_spec(in_str@),
{
    if str_eq(in_str, "sinebow") {
        Ok(GradientName::Sinebow)
    } else if str_eq(in_str, "cubehelix_default") {
        Ok(GradientName::CubehelixDefault)
    } else if str_eq(in_str, "turbo") {
        Ok(GradientName::Turbo)
    } else if str_eq(in_str, "spectral") {
        Ok(GradientName::Spectral)
    } else if str_eq(in_str, "viridis") {
        Ok(GradientName::Viridis)
    } else if str_eq(in_str, "magma") {
        Ok(GradientName::Magma)
    } else if str_eq(in_str, "rainbow") {
        Ok(GradientName::Rainbow)
    } else {
        Err(ConfigError::UnknownGradient)
    }
}

} // verus!
