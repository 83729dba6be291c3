//! The escape-time evaluator and the viewport mapper.
//!
//! A plane point `c` is classified by iterating `z_{n+1} = z_n^2 + c` from
//! `z_0 = 0` and counting how many iterations stay inside the bail-out
//! radius: the count is the first index whose iterate has squared magnitude
//! above `4`, or the full budget when the bound is never exceeded (the point
//! is then treated as inside the set). All arithmetic is fixed-point, so the
//! count is an exact function of the inputs.

use vstd::prelude::*;

use crate::errors::{str_eq, ConfigError};
use crate::fixed::{fix_mul, fmul, lemma_fmul_bounds, lemma_fmul_square_nonneg, COORD_BOUND, FIX_ONE};

verus! {

/// Largest plane-coordinate magnitude [`evaluate`] accepts, `2^18` in real
/// units: far beyond any viewport of interest, small enough that the
/// iteration can never overflow an `i64`.
pub const EVAL_BOUND: i64 = 0x400_0000_0000;

/// Largest raster width or height the viewport mapper accepts.
pub const MAX_RASTER_DIM: usize = 4096;

/// The closed set of escape-time families a configuration can select.
/// Resolved once from the configuration's fractal name, never re-dispatched
/// per pixel by name.
#[derive(Clone, Copy, Debug, PartialEq, Eq, Structural)]
pub enum FractalFunction {
    Mandelbrot,
}

/// Real part of `z^2 + c` in fixed point.
pub open spec fn step_x(zx: int, zy: int, cx: int) -> int {
    fmul(zx, zx) - fmul(zy, zy) + cx
}

/// Imaginary part of `z^2 + c` in fixed point.
pub open spec fn step_y(zx: int, zy: int, cy: int) -> int {
    2 * fmul(zx, zy) + cy
}

/// The bail-out test: the squared magnitude of `z` exceeds `4`.
pub open spec fn escaped(zx: int, zy: int) -> bool {
    fmul(zx, zx) + fmul(zy, zy) > 4 * (FIX_ONE as int)
}

/// Iterations spent inside the bail-out radius when continuing from iterate
/// `(zx, zy)` with `fuel` iterations left: `0` when the next iterate already
/// escapes, `fuel` when none of the remaining iterates does.
pub open spec fn escape_count_from(zx: int, zy: int, cx: int, cy: int, fuel: nat) -> nat
    decreases fuel,
{
    if fuel == 0 {
        0
    } else {
        let nx = step_x(zx, zy, cx);
        let ny = step_y(zx, zy, cy);
        if escaped(nx, ny) {
            0
        } else {
            1 + escape_count_from(nx, ny, cx, cy, (fuel - 1) as nat)
        }
    }
}

/// The escape count of plane point `(cx, cy)` under iteration budget
/// `max_iterations`: the index of the first iterate past the bail-out
/// radius, or `max_iterations` if no iterate escapes.
pub open spec fn escape_count(cx: int, cy: int, max_iterations: nat) -> nat {
    escape_count_from(0, 0, cx, cy, max_iterations)
}

/// An iterate that has not escaped has both components within `2` in real
/// units.
proof fn lemma_not_escaped_bounds(zx: int, zy: int)
    requires
        !escaped(zx, zy),
    ensures
        -0x200_0000 <= zx <= 0x200_0000,
        -0x200_0000 <= zy <= 0x200_0000,
{
    let f = FIX_ONE as int;
    assert(zx * zx >= 0) by (nonlinear_arith);
    assert(zy * zy >= 0) by (nonlinear_arith);
    vstd::arithmetic::div_mod::lemma_div_pos_is_pos(zx * zx, f);
    vstd::arithmetic::div_mod::lemma_div_pos_is_pos(zy * zy, f);
    vstd::arithmetic::div_mod::lemma_fundamental_div_mod(zx * zx, f);
    vstd::arithmetic::div_mod::lemma_fundamental_div_mod(zy * zy, f);
    vstd::arithmetic::div_mod::lemma_mod_division_less_than_divisor(zx * zx, f);
    vstd::arithmetic::div_mod::lemma_mod_division_less_than_divisor(zy * zy, f);
    assert(zx * zx <= 0x4_0000_0100_0000);
    assert(zy * zy <= 0x4_0000_0100_0000);
    assert(-0x200_0000 <= zx <= 0x200_0000) by (nonlinear_arith)
        requires
            zx * zx <= 0x4_0000_0100_0000,
    ;
    assert(-0x200_0000 <= zy <= 0x200_0000) by (nonlinear_arith)
        requires
            zy * zy <= 0x4_0000_0100_0000,
    ;
}

/// The escape evaluator: iterate `z^2 + c` from the origin and return the
/// index of the first iterate past the bail-out radius, or the full budget
/// when none escapes. Pure, allocation-free, and an exact function of its
/// arguments.
pub fn evaluate(cx: i64, cy: i64, max_iterations: usize) -> (count: usize)
    requires
        -EVAL_BOUND <= cx <= EVAL_BOUND,
        -EVAL_BOUND <= cy <= EVAL_BOUND,
    ensures
        count == escape_count(cx as int, cy as int, max_iterations as nat),
        count <= max_iterations,
{
    let mut zx: i64 = 0;
    let mut zy: i64 = 0;
    let mut i: usize = 0;
    proof {
        vstd::arithmetic::div_mod::lemma_div_of0(FIX_ONE as int);
    }
    while i < max_iterations
        invariant
            i <= max_iterations,
            -EVAL_BOUND <= cx <= EVAL_BOUND,
            -EVAL_BOUND <= cy <= EVAL_BOUND,
            !escaped(zx as int, zy as int),
            escape_count(cx as int, cy as int, max_iterations as nat) == i + escape_count_from(
                zx as int,
                zy as int,
                cx as int,
                cy as int,
                (max_iterations - i) as nat,
            ),
        decreases max_iterations - i,
    {
        proof {
            lemma_not_escaped_bounds(zx as int, zy as int);
            lemma_fmul_bounds(zx as int, zx as int, 0x200_0000);
            lemma_fmul_bounds(zy as int, zy as int, 0x200_0000);
            lemma_fmul_bounds(zx as int, zy as int, 0x200_0000);
            lemma_fmul_square_nonneg(zx as int);
            lemma_fmul_square_nonneg(zy as int);
        }
        let nx: i64 = fix_mul(zx, zx) - fix_mul(zy, zy) + cx;
        let ny: i64 = 2 * fix_mul(zx, zy) + cy;
        proof {
            lemma_fmul_bounds(nx as int, nx as int, 0x404_0000_0000);
            lemma_fmul_bounds(ny as int, ny as int, 0x404_0000_0000);
            lemma_fmul_square_nonneg(nx as int);
            lemma_fmul_square_nonneg(ny as int);
        }
        if fix_mul(nx, nx) + fix_mul(ny, ny) > 4 * FIX_ONE {
            return i;
        }
        zx = nx;
        zy = ny;
        i = i + 1;
    }
    i
}

/// Maps one raster axis to the plane: pixel `p` of `size` lands at
/// `pos - radius + p * 2 * radius / size`, so the visible region depends
/// only on the viewport, never on the raster resolution.
pub open spec fn plane_coord(p: int, size: int, pos: int, radius: int) -> int {
    pos - radius + (p * (2 * radius)) / size
}

/// One-dimensional affine viewport map from pixel index to plane coordinate.
pub fn pixel_to_plane(p: usize, size: usize, pos: i64, radius: i64) -> (c: i64)
    requires
        p < size,
        size <= MAX_RASTER_DIM,
        -COORD_BOUND <= pos <= COORD_BOUND,
        0 <= radius <= COORD_BOUND,
    ensures
        c == plane_coord(p as int, size as int, pos as int, radius as int),
        pos - radius <= c <= pos + radius,
{
    let span: u64 = (2 * radius) as u64;
    proof {
        assert((p as int) * (span as int) <= 0x2000_0000_0000_0000) by (nonlinear_arith)
            requires
                0 <= (p as int) < 0x1000,
                0 <= (span as int) <= 0x200_0000_0000,
        ;
    }
    let num: u64 = (p as u64) * span;
    let q: u64 = num / (size as u64);
    proof {
        let s = size as int;
        vstd::arithmetic::mul::lemma_mul_inequality(p as int, s, span as int);
        vstd::arithmetic::div_mod::lemma_div_is_ordered(num as int, s * (span as int), s);
        vstd::arithmetic::div_mod::lemma_div_multiples_vanish(span as int, s);
        vstd::arithmetic::div_mod::lemma_div_pos_is_pos(num as int, s);
    }
    pos - radius + (q as i64)
}

/// Composition of the viewport mapper and the escape evaluator: classifies
/// raster pixel `(x, y)` of an `x_size` by `y_size` frame showing the
/// viewport centered at `(x_pos, y_pos)` with half-extents `x_radius` and
/// `y_radius`.
pub fn mandelbrot(
    max_iterations: usize,
    x: usize,
    y: usize,
    x_size: usize,
    y_size: usize,
    x_pos: i64,
    y_pos: i64,
    x_radius: i64,
    y_radius: i64,
) -> (count: usize)
    requires
        x < x_size,
        y < y_size,
        x_size <= MAX_RASTER_DIM,
        y_size <= MAX_RASTER_DIM,
        -COORD_BOUND <= x_pos <= COORD_BOUND,
        -COORD_BOUND <= y_pos <= COORD_BOUND,
        0 <= x_radius <= COORD_BOUND,
        0 <= y_radius <= COORD_BOUND,
    ensures
        count == escape_count(
            plane_coord(x as int, x_size as int, x_pos as int, x_radius as int),
            plane_coord(y as int, y_size as int, y_pos as int, y_radius as int),
            max_iterations as nat,
        ),
        count <= max_iterations,
{
    let cx: i64 = pixel_to_plane(x, x_size, x_pos, x_radius);
    let cy: i64 = pixel_to_plane(y, y_size, y_pos, y_radius);
    evaluate(cx, cy, max_iterations)
}

/// Resolves a configuration's fractal name to its escape-time family; the
/// set of names is closed, and an unknown name is a fatal configuration
/// error.
pub fn str_to_fractal_fn(in_str: &str) -> (r: Result<FractalFunction, ConfigError>)
    ensures
        in_str@ == "mandelbrot"@ ==> r == Ok::<FractalFunction, ConfigError>(
            FractalFunction::Mandelbrot,
        ),
        in_str@ != "mandelbrot"@ ==> r == Err::<FractalFunction, ConfigError>(
            ConfigError::UnknownFractal,
        ),
{
    if str_eq(in_str, "mandelbrot") {
        Ok(FractalFunction::Mandelbrot)
    } else {
        Err(ConfigError::UnknownFractal)
    }
}

/// The origin never escapes: every iterate stays at the origin, so the
/// evaluator spends its whole budget and reports the point inside the set.
pub proof fn lemma_origin_in_set(max_iterations: nat)
    ensures
        escape_count(0, 0, max_iterations) == max_iterations,
{
    lemma_origin_count_from(max_iterations);
}

proof fn lemma_origin_count_from(fuel: nat)
    ensures
        escape_count_from(0, 0, 0, 0, fuel) == fuel,
    decreases fuel,
{
    vstd::arithmetic::div_mod::lemma_div_of0(FIX_ONE as int);
    if fuel > 0 {
        assert(step_x(0, 0, 0) == 0);
        assert(step_y(0, 0, 0) == 0);
        lemma_origin_count_from((fuel - 1) as nat);
    }
}

/// A point already past the bail-out radius escapes at the very first
/// iteration, whatever the budget: the evaluator returns `0`.
pub proof fn lemma_immediate_escape(cx: int, cy: int, max_iterations: nat)
    requires
        escaped(cx, cy),
    ensures
        escape_count(cx, cy, max_iterations) == 0,
{
    vstd::arithmetic::div_mod::lemma_div_of0(FIX_ONE as int);
    if max_iterations > 0 {
        assert(step_x(0, 0, cx) == cx);
        assert(step_y(0, 0, cy) == cy);
    }
}

} // verus!
