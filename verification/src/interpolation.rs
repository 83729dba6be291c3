//! Easing functions and keyframe interpolation.
//!
//! An easing remaps normalized time: it is a pure function on `[0, 1]`,
//! selected by name at configuration time from a closed set. The
//! trigonometric variants use a fixed-point rational approximation of the
//! sine (Bhaskara's `16x(pi - x) / (5 pi^2 - 4x(pi - x))` on `[0, pi]`),
//! whose constants are chosen so that `sin(0) == 0`, `sin(pi/2) == 1` and
//! `sin(pi) == 0` hold exactly; every variant therefore starts at exactly
//! `0` for time `0`, and all stay within `[0, 1]`.
//!
//! Interpolation of two keyframes samples eased time `t_i = ease(i / steps)`
//! for `i = 0 .. steps - 1` and linearly interpolates each keyframe field;
//! `t = 1` is never sampled, so continuity across consecutive transitions
//! comes from adjacent transitions sharing their endpoint keyframes.

use vstd::prelude::*;

use crate::fixed::{fix_mul, fmul, lemma_fmul_le, FIX_ONE};
use crate::frame_meta::FrameMeta;

verus! {

/// `pi / 2` in fixed point, rounded to a multiple of `2^12` so that its
/// square is an exact multiple of `FIX_ONE`; this makes the sine
/// approximation hit `1` at `pi / 2` exactly.
pub const HALF_PI_FIX: i64 = 26_353_664;

/// `pi` in fixed point: exactly `2 * HALF_PI_FIX`.
pub const PI_FIX: i64 = 52_707_328;

/// `pi^2` in fixed point: exactly `fmul(PI_FIX, PI_FIX)`.
pub const PI_SQ_FIX: i64 = 165_585_424;

/// Largest magnitude [`lerp`] accepts for its endpoints.
pub const LERP_BOUND: i64 = 0x400_0000_0000;

/// Largest step count a single transition may declare.
pub const MAX_STEPS: usize = 0xFFFF_FFFF;

/// The closed set of easing functions a transition can select.
#[derive(Clone, Copy, Debug, PartialEq, Eq, Structural)]
pub enum InterpolationType {
    Linear,
    InOutQuart,
    InOutCubic,
    InSine,
    InOutSine,
    OutSine,
}

/// Fixed-point sine on `[0, pi]` by Bhaskara's rational approximation.
pub open spec fn sin_q_spec(x: int) -> int {
    let p = fmul(x, (PI_FIX as int) - x);
    (16 * p * (FIX_ONE as int)) / (5 * (PI_SQ_FIX as int) - 4 * p)
}

/// `x * (pi - x)` stays within `[0, (pi/2)^2]` on `[0, pi]`, keeping the
/// approximation's denominator positive and its value within `[0, 1]`.
proof fn lemma_sin_q_core(x: int)
    requires
        0 <= x <= PI_FIX as int,
    ensures
        0 <= fmul(x, (PI_FIX as int) - x) <= 41_396_356,
{
    let f = FIX_ONE as int;
    let h = HALF_PI_FIX as int;
    let y = (PI_FIX as int) - x;
    assert(0 <= x * y <= h * h) by (nonlinear_arith)
        requires
            0 <= x,
            0 <= y,
            x + y == 2 * h,
    ;
    vstd::arithmetic::div_mod::lemma_div_pos_is_pos(x * y, f);
    vstd::arithmetic::div_mod::lemma_div_is_ordered(x * y, h * h, f);
}

/// Fixed-point sine on `[0, PI_FIX]`: exact per [`sin_q_spec`], and within
/// `[0, 1]`.
fn sin_q(x: i64) -> (r: i64)
    requires
        0 <= x <= PI_FIX,
    ensures
        r == sin_q_spec(x as int),
        0 <= r <= FIX_ONE,
{
    proof {
        lemma_sin_q_core(x as int);
    }
    let p: i64 = fix_mul(x, PI_FIX - x);
    let num: i64 = 16 * p;
    let den: i64 = 5 * PI_SQ_FIX - 4 * p;
    proof {
        let ni = num as int;
        let di = den as int;
        let f = FIX_ONE as int;
        assert(0 <= ni <= 662_341_696);
        assert(662_341_696 <= di <= 827_927_120);
        assert(ni * f <= di * f) by (nonlinear_arith)
            requires
                0 <= ni <= di,
                f > 0,
        ;
        vstd::arithmetic::div_mod::lemma_div_pos_is_pos(ni * f, di);
        vstd::arithmetic::div_mod::lemma_div_is_ordered(ni * f, di * f, di);
        vstd::arithmetic::div_mod::lemma_div_multiples_vanish(f, di);
    }
    (((num as u64) * (FIX_ONE as u64)) / (den as u64)) as i64
}

/// The sine approximation is exactly `0` at `0` and `pi`, and exactly `1`
/// at `pi / 2`.
pub proof fn lemma_sin_q_endpoints()
    ensures
        sin_q_spec(0) == 0,
        sin_q_spec(HALF_PI_FIX as int) == FIX_ONE as int,
        sin_q_spec(PI_FIX as int) == 0,
{
    let f = FIX_ONE as int;
    let h = HALF_PI_FIX as int;
    assert(fmul(0, (PI_FIX as int) - 0) == 0) by {
        vstd::arithmetic::div_mod::lemma_div_of0(f);
    }
    assert(fmul(PI_FIX as int, 0) == 0) by {
        vstd::arithmetic::div_mod::lemma_div_of0(f);
    }
    assert(fmul(h, h) == 41_396_356) by {
        vstd::arithmetic::div_mod::lemma_fundamental_div_mod_converse(h * h, f, 41_396_356, 0);
    }
    assert((16 * 41_396_356 * f) / (5 * (PI_SQ_FIX as int) - 4 * 41_396_356) == f) by {
        vstd::arithmetic::div_mod::lemma_div_multiples_vanish(f, 662_341_696);
    }
    assert((16 * 0 * f) / (5 * (PI_SQ_FIX as int) - 4 * 0) == 0) by {
        vstd::arithmetic::div_mod::lemma_div_of0(5 * (PI_SQ_FIX as int));
    }
}

/// Fixed-point fourth power of a value in `[0, 1]`.
pub open spec fn pow4_unit(v: int) -> int {
    fmul(fmul(v, v), fmul(v, v))
}

/// Fixed-point third power of a value in `[0, 1]`.
pub open spec fn pow3_unit(v: int) -> int {
    fmul(fmul(v, v), v)
}

/// `in_out_quart`: `8 t^4` below the midpoint, `1 - (-2t + 2)^4 / 2` above.
pub open spec fn in_out_quart_spec(t: int) -> int {
    if t < 0x80_0000 {
        8 * pow4_unit(t)
    } else {
        (FIX_ONE as int) - pow4_unit(2 * (FIX_ONE as int) - 2 * t) / 2
    }
}

/// `in_out_cubic`: `4 t^3` below the midpoint, `1 - (-2t + 2)^3 / 2` above.
pub open spec fn in_out_cubic_spec(t: int) -> int {
    if t < 0x80_0000 {
        4 * pow3_unit(t)
    } else {
        (FIX_ONE as int) - pow3_unit(2 * (FIX_ONE as int) - 2 * t) / 2
    }
}

/// `in_sine`: `1 - cos(t pi / 2)`, with the cosine taken as
/// `sin(pi / 2 - t pi / 2)`.
pub open spec fn in_sine_spec(t: int) -> int {
    (FIX_ONE as int) - sin_q_spec((HALF_PI_FIX as int) - fmul(t, HALF_PI_FIX as int))
}

/// `out_sine`: `sin(t pi / 2)`.
pub open spec fn out_sine_spec(t: int) -> int {
    sin_q_spec(fmul(t, HALF_PI_FIX as int))
}

/// `in_out_sine`: `-(cos(pi t) - 1) / 2`, computed as the algebraically
/// equal `sin(t pi / 2)^2`.
pub open spec fn in_out_sine_spec(t: int) -> int {
    fmul(sin_q_spec(fmul(t, HALF_PI_FIX as int)), sin_q_spec(fmul(t, HALF_PI_FIX as int)))
}

/// The time remapping of each easing variant.
pub open spec fn ease_spec(mode: InterpolationType, t: int) -> int {
    match mode {
        InterpolationType::Linear => t,
        InterpolationType::InOutQuart => in_out_quart_spec(t),
        InterpolationType::InOutCubic => in_out_cubic_spec(t),
        InterpolationType::InSine => in_sine_spec(t),
        InterpolationType::InOutSine => in_out_sine_spec(t),
        InterpolationType::OutSine => out_sine_spec(t),
    }
}

/// `-(cos(pi t) - 1) / 2` as a fixed-point approximation.
pub fn ease_in_out_sine(time: i64) -> (r: i64)
    requires
        0 <= time <= FIX_ONE,
    ensures
        r == in_out_sine_spec(time as int),
        0 <= r <= FIX_ONE,
{
    proof {
        lemma_fmul_le(time as int, HALF_PI_FIX as int, FIX_ONE as int, HALF_PI_FIX as int);
    }
    let x: i64 = fix_mul(time, HALF_PI_FIX);
    let s: i64 = sin_q(x);
    proof {
        lemma_fmul_le(s as int, s as int, FIX_ONE as int, FIX_ONE as int);
    }
    fix_mul(s, s)
}

/// `8 t^4` below the midpoint, `1 - (-2t + 2)^4 / 2` above.
pub fn ease_in_out_quart(time: i64) -> (r: i64)
    requires
        0 <= time <= FIX_ONE,
    ensures
        r == in_out_quart_spec(time as int),
        0 <= r <= FIX_ONE,
{
    if time < 0x80_0000 {
        proof {
            lemma_fmul_le(time as int, time as int, 0x80_0000, 0x80_0000);
            lemma_fmul_le(
                fmul(time as int, time as int),
                fmul(time as int, time as int),
                0x40_0000,
                0x40_0000,
            );
        }
        let sq: i64 = fix_mul(time, time);
        8 * fix_mul(sq, sq)
    } else {
        let u: i64 = 2 * FIX_ONE - 2 * time;
        proof {
            lemma_fmul_le(u as int, u as int, FIX_ONE as int, FIX_ONE as int);
            lemma_fmul_le(
                fmul(u as int, u as int),
                fmul(u as int, u as int),
                FIX_ONE as int,
                FIX_ONE as int,
            );
        }
        let usq: i64 = fix_mul(u, u);
        let u4: i64 = fix_mul(usq, usq);
        FIX_ONE - (((u4 as u64) / 2) as i64)
    }
}

/// `4 t^3` below the midpoint, `1 - (-2t + 2)^3 / 2` above.
pub fn ease_in_out_cubic(time: i64) -> (r: i64)
    requires
        0 <= time <= FIX_ONE,
    ensures
        r == in_out_cubic_spec(time as int),
        0 <= r <= FIX_ONE,
{
    if time < 0x80_0000 {
        proof {
            lemma_fmul_le(time as int, time as int, 0x80_0000, 0x80_0000);
            lemma_fmul_le(fmul(time as int, time as int), time as int, 0x40_0000, 0x80_0000);
        }
        let sq: i64 = fix_mul(time, time);
        4 * fix_mul(sq, time)
    } else {
        let u: i64 = 2 * FIX_ONE - 2 * time;
        proof {
            lemma_fmul_le(u as int, u as int, FIX_ONE as int, FIX_ONE as int);
            lemma_fmul_le(fmul(u as int, u as int), u as int, FIX_ONE as int, FIX_ONE as int);
        }
        let usq: i64 = fix_mul(u, u);
        let u3: i64 = fix_mul(usq, u);
        FIX_ONE - (((u3 as u64) / 2) as i64)
    }
}

/// `1 - cos(t pi / 2)` as a fixed-point approximation.
pub fn ease_in_sine(time: i64) -> (r: i64)
    requires
        0 <= time <= FIX_ONE,
    ensures
        r == in_sine_spec(time as int),
        0 <= r <= FIX_ONE,
{
    proof {
        lemma_fmul_le(time as int, HALF_PI_FIX as int, FIX_ONE as int, HALF_PI_FIX as int);
    }
    let x: i64 = fix_mul(time, HALF_PI_FIX);
    FIX_ONE - sin_q(HALF_PI_FIX - x)
}

/// `sin(t pi / 2)` as a fixed-point approximation.
pub fn ease_out_sine(time: i64) -> (r: i64)
    requires
        0 <= time <= FIX_ONE,
    ensures
        r == out_sine_spec(time as int),
        0 <= r <= FIX_ONE,
{
    proof {
        lemma_fmul_le(time as int, HALF_PI_FIX as int, FIX_ONE as int, HALF_PI_FIX as int);
    }
    let x: i64 = fix_mul(time, HALF_PI_FIX);
    sin_q(x)
}

impl InterpolationType {
    /// Remap normalized time through this easing.
    pub fn interpolate(&self, time: i64) -> (r: i64)
        requires
            0 <= time <= FIX_ONE,
        ensures
            r == ease_spec(*self, time as int),
            0 <= r <= FIX_ONE,
    {
        match self {
            InterpolationType::Linear => time,
            InterpolationType::InOutQuart => ease_in_out_quart(time),
            InterpolationType::InOutCubic => ease_in_out_cubic(time),
            InterpolationType::InSine => ease_in_sine(time),
            InterpolationType::InOutSine => ease_in_out_sine(time),
            InterpolationType::OutSine => ease_out_sine(time),
        }
    }
}

/// Every easing variant maps time `0` to exactly `0`, so the first frame of
/// any transition reproduces its starting keyframe exactly.
pub proof fn lemma_ease_starts_at_zero(mode: InterpolationType)
    ensures
        ease_spec(mode, 0) == 0,
{
    let f = FIX_ONE as int;
    let h = HALF_PI_FIX as int;
    lemma_sin_q_endpoints();
    vstd::arithmetic::div_mod::lemma_div_of0(f);
    assert(fmul(0, 0) == 0);
    assert(fmul(0, h) == 0);
    assert(fmul(fmul(0, 0), fmul(0, 0)) == 0);
    assert(fmul(fmul(0, 0), 0) == 0);
}

/// Linear interpolation `a * (1 - t) + b * t`, computed in the
/// algebraically equal form `a + (b - a) * t`, which reproduces `a` exactly
/// at `t = 0` and keeps equal endpoints exactly fixed.
pub open spec fn lerp_spec(a: int, b: int, t: int) -> int {
    a + fmul(b - a, t)
}

/// For `t` in `[0, 1]` the interpolant stays between its endpoints.
pub proof fn lemma_lerp_range(a: int, b: int, t: int)
    requires
        0 <= t <= FIX_ONE as int,
    ensures
        a <= b ==> a <= lerp_spec(a, b, t) <= b,
        a > b ==> b <= lerp_spec(a, b, t) <= a,
{
    let f = FIX_ONE as int;
    let d = b - a;
    if d >= 0 {
        lemma_fmul_le(d, t, d, f);
        vstd::arithmetic::div_mod::lemma_div_multiples_vanish(d, f);
        assert(d * f == f * d) by (nonlinear_arith);
    } else {
        assert(d * f <= d * t <= 0) by (nonlinear_arith)
            requires
                d < 0,
                0 <= t <= f,
        ;
        vstd::arithmetic::div_mod::lemma_div_is_ordered(d * f, d * t, f);
        vstd::arithmetic::div_mod::lemma_div_is_ordered(d * t, 0, f);
        vstd::arithmetic::div_mod::lemma_div_multiples_vanish(d, f);
        vstd::arithmetic::div_mod::lemma_div_of0(f);
        assert(d * f == f * d) by (nonlinear_arith);
    }
}

/// Linear interpolation of fixed-point values.
pub fn lerp(a: i64, b: i64, t: i64) -> (r: i64)
    requires
        -LERP_BOUND <= a <= LERP_BOUND,
        -LERP_BOUND <= b <= LERP_BOUND,
        0 <= t <= FIX_ONE,
    ensures
        r == lerp_spec(a as int, b as int, t as int),
        a <= b ==> a <= r <= b,
        a > b ==> b <= r <= a,
{
    proof {
        lemma_lerp_range(a as int, b as int, t as int);
    }
    a + fix_mul(b - a, t)
}

/// The keyframe `time` of the way from `from` to `to`: every fixed-point
/// field is interpolated linearly, and the iteration budget is interpolated
/// in fixed point and rounded to the nearest integer.
pub open spec fn frame_lerp_spec(from: FrameMeta, to: FrameMeta, t: int) -> FrameMeta {
    FrameMeta {
        max_iterations: ((lerp_spec(
            (from.max_iterations as int) * (FIX_ONE as int),
            (to.max_iterations as int) * (FIX_ONE as int),
            t,
        ) + 0x80_0000) / (FIX_ONE as int)) as usize,
        x_pos: lerp_spec(from.x_pos as int, to.x_pos as int, t) as i64,
        y_pos: lerp_spec(from.y_pos as int, to.y_pos as int, t) as i64,
        radius: lerp_spec(from.radius as int, to.radius as int, t) as i64,
        color_gradient_shift: lerp_spec(
            from.color_gradient_shift as int,
            to.color_gradient_shift as int,
            t,
        ) as i64,
    }
}

/// Interpolate every keyframe field at eased time `time`.
pub fn create_frame_from_lerp(from: &FrameMeta, to: &FrameMeta, time: i64) -> (fm: FrameMeta)
    requires
        from.wf(),
        to.wf(),
        0 <= time <= FIX_ONE,
    ensures
        fm == frame_lerp_spec(*from, *to, time as int),
        fm.wf(),
{
    let from_mi: i64 = (from.max_iterations as i64) * FIX_ONE;
    let to_mi: i64 = (to.max_iterations as i64) * FIX_ONE;
    let mi_fixed: i64 = lerp(from_mi, to_mi, time);
    proof {
        let f = FIX_ONE as int;
        let fm = from.max_iterations as int;
        let tm = to.max_iterations as int;
        vstd::arithmetic::div_mod::lemma_fundamental_div_mod_converse(
            fm * f + 0x80_0000,
            f,
            fm,
            0x80_0000,
        );
        vstd::arithmetic::div_mod::lemma_fundamental_div_mod_converse(
            tm * f + 0x80_0000,
            f,
            tm,
            0x80_0000,
        );
        if from_mi <= to_mi {
            vstd::arithmetic::div_mod::lemma_div_is_ordered(
                from_mi + 0x80_0000,
                mi_fixed + 0x80_0000,
                f,
            );
            vstd::arithmetic::div_mod::lemma_div_is_ordered(
                mi_fixed + 0x80_0000,
                to_mi + 0x80_0000,
                f,
            );
        } else {
            vstd::arithmetic::div_mod::lemma_div_is_ordered(
                to_mi + 0x80_0000,
                mi_fixed + 0x80_0000,
                f,
            );
            vstd::arithmetic::div_mod::lemma_div_is_ordered(
                mi_fixed + 0x80_0000,
                from_mi + 0x80_0000,
                f,
            );
        }
    }
    let mi: usize = ((mi_fixed + 0x80_0000) as u64 / (FIX_ONE as u64)) as usize;
    let x_pos: i64 = lerp(from.x_pos, to.x_pos, time);
    let y_pos: i64 = lerp(from.y_pos, to.y_pos, time);
    let radius: i64 = lerp(from.radius, to.radius, time);
    let color_gradient_shift: i64 = lerp(from.color_gradient_shift, to.color_gradient_shift, time);
    FrameMeta { max_iterations: mi, x_pos, y_pos, radius, color_gradient_shift }
}

/// The raw (un-eased) time of step `i` of `steps`: `i / steps` in fixed
/// point.
pub open spec fn step_time_spec(i: int, steps: int) -> int {
    (i * (FIX_ONE as int)) / steps
}

/// The frame the sequencer emits at step `i` of a `steps`-step transition.
pub open spec fn transition_frame_spec(
    from: FrameMeta,
    to: FrameMeta,
    mode: InterpolationType,
    i: int,
    steps: int,
) -> FrameMeta {
    frame_lerp_spec(from, to, ease_spec(mode, step_time_spec(i, steps)))
}

/// Expand one transition into exactly `steps` keyframes, sampled at eased
/// times `ease(i / steps)` for `i = 0 .. steps - 1`. The final time `1` is
/// never sampled. The first emitted frame reproduces `frame_1` exactly.
pub fn interpolate_frames(
    frame_1: &FrameMeta,
    frame_2: &FrameMeta,
    steps: usize,
    mode: &InterpolationType,
) -> (frames: Vec<FrameMeta>)
    requires
        frame_1.wf(),
        frame_2.wf(),
        steps >= 1,
        steps <= MAX_STEPS,
    ensures
        frames@.len() == steps,
        forall|i: int|
            0 <= i < steps ==> frames@[i] == transition_frame_spec(
                *frame_1,
                *frame_2,
                *mode,
                i,
                steps as int,
            ),
        forall|i: int| 0 <= i < steps ==> frames@[i].wf(),
        frames@[0] == *frame_1,
{
    let mut all_frames: Vec<FrameMeta> = Vec::new();
    let mut step: usize = 0;
    while step < steps
        invariant
            0 <= step <= steps,
            1 <= steps <= MAX_STEPS,
            frame_1.wf(),
            frame_2.wf(),
            all_frames@.len() == step,
            forall|i: int|
                0 <= i < step ==> all_frames@[i] == transition_frame_spec(
                    *frame_1,
                    *frame_2,
                    *mode,
                    i,
                    steps as int,
                ),
            forall|i: int| 0 <= i < step ==> all_frames@[i].wf(),
        decreases steps - step,
    {
        proof {
            let f = FIX_ONE as int;
            let s = steps as int;
            vstd::arithmetic::mul::lemma_mul_inequality(step as int, s - 1, f);
            vstd::arithmetic::div_mod::lemma_div_pos_is_pos((step as int) * f, s);
            vstd::arithmetic::div_mod::lemma_div_is_ordered((step as int) * f, (s - 1) * f, s);
            assert((s - 1) * f == s * f - f) by (nonlinear_arith);
            assert((s * f - f) / s <= f) by {
                vstd::arithmetic::div_mod::lemma_div_multiples_vanish(f, s);
                vstd::arithmetic::div_mod::lemma_div_is_ordered(s * f - f, s * f, s);
                assert(s * f == f * s) by (nonlinear_arith);
            }
        }
        let t_raw: i64 = (((step as u64) * (FIX_ONE as u64)) / (steps as u64)) as i64;
        let t: i64 = mode.interpolate(t_raw);
        let fm: FrameMeta = create_frame_from_lerp(frame_1, frame_2, t);
        all_frames.push(fm);
        step = step + 1;
    }
    proof {
        lemma_first_frame_is_from(*frame_1, *frame_2, *mode, steps as int);
    }
    all_frames
}

/// The first frame of any transition reproduces the starting keyframe
/// exactly: the raw time of step `0` is `0`, every easing maps `0` to `0`,
/// and interpolating at time `0` returns every field of `from` unchanged.
pub proof fn lemma_first_frame_is_from(
    from: FrameMeta,
    to: FrameMeta,
    mode: InterpolationType,
    steps: int,
)
    requires
        from.wf(),
        steps >= 1,
    ensures
        transition_frame_spec(from, to, mode, 0, steps) == from,
{
    let f = FIX_ONE as int;
    vstd::arithmetic::div_mod::lemma_div_of0(steps);
    assert(step_time_spec(0, steps) == 0);
    lemma_ease_starts_at_zero(mode);
    lemma_lerp_at_zero(from.x_pos as int, to.x_pos as int);
    lemma_lerp_at_zero(from.y_pos as int, to.y_pos as int);
    lemma_lerp_at_zero(from.radius as int, to.radius as int);
    lemma_lerp_at_zero(from.color_gradient_shift as int, to.color_gradient_shift as int);
    lemma_lerp_at_zero((from.max_iterations as int) * f, (to.max_iterations as int) * f);
    vstd::arithmetic::div_mod::lemma_fundamental_div_mod_converse(
        (from.max_iterations as int) * f + 0x80_0000,
        f,
        from.max_iterations as int,
        0x80_0000,
    );
}

/// `lerp(a, b, 0) == a`, exactly.
pub proof fn lemma_lerp_at_zero(a: int, b: int)
    ensures
        lerp_spec(a, b, 0) == a,
{
    assert((b - a) * 0 == 0) by (nonlinear_arith);
    vstd::arithmetic::div_mod::lemma_div_of0(FIX_ONE as int);
}

} // verus!
