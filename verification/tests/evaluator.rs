//! Escape evaluator and viewport mapper behavior.

use fractal_renderer::fixed::FIX_ONE;
use fractal_renderer::fractals::{
    evaluate, mandelbrot, pixel_to_plane, str_to_fractal_fn, FractalFunction,
};
use fractal_renderer::errors::ConfigError;

const F: i64 = FIX_ONE; // 1.0 in fixed point

#[test]
fn origin_never_escapes() {
    // The origin is in the set: the full budget is spent, whatever it is.
    assert_eq!(evaluate(0, 0, 1), 1);
    assert_eq!(evaluate(0, 0, 100), 100);
    assert_eq!(evaluate(0, 0, 8192), 8192);
}

#[test]
fn points_past_bailout_return_zero() {
    // |c|^2 > 4: the first iterate already escapes.
    assert_eq!(evaluate(3 * F, 0, 100), 0);
    assert_eq!(evaluate(0, -3 * F, 100), 0);
    assert_eq!(evaluate(2 * F, 2 * F, 100), 0);
    assert_eq!(evaluate(-2 * F, -2 * F, 7), 0);
}

#[test]
fn unit_point_escapes_at_two() {
    // c = 1: orbit 0, 1, 2, 5; |2|^2 == 4 is not past the bail-out, |5|^2 is.
    assert_eq!(evaluate(F, 0, 100), 2);
}

#[test]
fn minus_two_stays_bounded() {
    // c = -2: orbit 0, -2, 2, 2, ... never exceeds the bail-out radius.
    assert_eq!(evaluate(-2 * F, 0, 50), 50);
}

#[test]
fn half_half_escapes_at_four() {
    assert_eq!(evaluate(F / 2, F / 2, 100), 4);
}

#[test]
fn count_never_exceeds_budget() {
    for mx in [0usize, 1, 2, 17] {
        assert!(evaluate(F / 2, F / 2, mx) <= mx);
    }
}

#[test]
fn pixel_mapping_is_affine_and_exact() {
    // Two-pixel axis over center 0, radius 1: pixels at -1 and 0.
    assert_eq!(pixel_to_plane(0, 2, 0, F), -F);
    assert_eq!(pixel_to_plane(1, 2, 0, F), 0);
    // Four-pixel axis over center -0.5, radius 1.
    assert_eq!(pixel_to_plane(0, 4, -F / 2, F), -3 * F / 2);
    assert_eq!(pixel_to_plane(1, 4, -F / 2, F), -F);
    assert_eq!(pixel_to_plane(3, 4, -F / 2, F), 0);
}

#[test]
fn resizing_keeps_the_viewport() {
    // The left edge is pos - radius at every resolution.
    for size in [1usize, 2, 7, 640, 4096] {
        assert_eq!(pixel_to_plane(0, size, F / 4, F / 2), F / 4 - F / 2);
    }
}

#[test]
fn mandelbrot_composes_mapper_and_evaluator() {
    // Pixel (1, 0) of a 2x2 raster centered at (0.75, 0) with radius 1 maps
    // to c = (0.75, -1), and evaluate returns 1 there.
    let c_x = pixel_to_plane(1, 2, 3 * F / 4, F);
    let c_y = pixel_to_plane(0, 2, 0, F);
    assert_eq!(
        mandelbrot(4, 1, 0, 2, 2, 3 * F / 4, 0, F, F),
        evaluate(c_x, c_y, 4)
    );
    assert_eq!(mandelbrot(4, 1, 0, 2, 2, 3 * F / 4, 0, F, F), 1);
}

#[test]
fn fractal_name_resolution_is_closed() {
    assert_eq!(
        str_to_fractal_fn("mandelbrot"),
        Ok(FractalFunction::Mandelbrot)
    );
    assert_eq!(str_to_fractal_fn("julia"), Err(ConfigError::UnknownFractal));
    assert_eq!(str_to_fractal_fn(""), Err(ConfigError::UnknownFractal));
    assert_eq!(
        str_to_fractal_fn("Mandelbrot"),
        Err(ConfigError::UnknownFractal)
    );
}
