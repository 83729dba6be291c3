//! Single-frame Mandelbrot rasterization: the general renderer fixed to the
//! quadratic escape-time family.

use vstd::prelude::*;

use crate::color::Gradient;
use crate::fractals::FractalFunction;
use crate::frame_meta::FrameMeta;
use crate::frame_renderer::{create_frame_image_par, frame_bytes_spec, render_pre};

verus! {

/// Rasterize one Mandelbrot frame into a flat row-major RGB buffer: the
/// general renderer with the quadratic escape-time family selected.
pub fn create_mandelbrot_frame_image(
    max_iterations: usize,
    x_size: usize,
    y_size: usize,
    x_pos: i64,
    y_pos: i64,
    radius: i64,
    color_gradient: &Gradient,
    color_gradient_shift: i64,
) -> (buffer: Vec<u8>)
    requires
        render_pre(
            (FrameMeta { max_iterations, x_pos, y_pos, radius, color_gradient_shift }),
            x_size as int,
            y_size as int,
            *color_gradient,
        ),
    ensures
        buffer@ == frame_bytes_spec(
            color_gradient.spec_stops(),
            FractalFunction::Mandelbrot,
            (FrameMeta { max_iterations, x_pos, y_pos, radius, color_gradient_shift }),
            x_size as int,
            y_size as int,
        ),
        buffer@.len() == (y_size as int) * (x_size as int) * 3,
{
    create_frame_image_par(
        max_iterations,
        x_size,
        y_size,
        x_pos,
        y_pos,
        radius,
        color_gradient,
        color_gradient_shift,
        FractalFunction::Mandelbrot,
    )
}

} // verus!
