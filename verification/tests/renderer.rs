//! Rasterizer and color mapper: exact buffers, layout, and determinism.

use fractal_renderer::color::{color_map, str_to_gradient_name, Gradient, GradientName, Rgb};
use fractal_renderer::errors::ConfigError;
use fractal_renderer::fixed::{wrap_unit, FIX_ONE};
use fractal_renderer::fractals::FractalFunction;
use fractal_renderer::frame_meta::FrameMeta;
use fractal_renderer::frame_renderer::{create_frame_image_par, render_frame, render_row};
use fractal_renderer::mandelbrot::create_mandelbrot_frame_image;

const F: i64 = FIX_ONE;

fn rgb(r: u8, g: u8, b: u8) -> Rgb {
    Rgb { r, g, b }
}

fn black_white() -> Gradient {
    Gradient::new(vec![rgb(0, 0, 0), rgb(255, 255, 255)]).unwrap()
}

#[test]
fn wrapping_is_a_true_modulo() {
    assert_eq!(wrap_unit(0), 0);
    assert_eq!(wrap_unit(F), 0);
    assert_eq!(wrap_unit(F + 5), 5);
    assert_eq!(wrap_unit(-F / 4), 3 * F / 4);
    assert_eq!(wrap_unit(-5 * F), 0);
}

#[test]
fn gradient_needs_at_least_two_stops() {
    assert!(matches!(
        Gradient::new(vec![]),
        Err(ConfigError::InvalidGradient)
    ));
    assert!(matches!(
        Gradient::new(vec![rgb(1, 2, 3)]),
        Err(ConfigError::InvalidGradient)
    ));
    assert!(Gradient::new(vec![rgb(1, 2, 3), rgb(1, 2, 3)]).is_ok());
}

#[test]
fn sampling_interpolates_between_stops() {
    let g = black_white();
    assert_eq!(g.sample(0), rgb(0, 0, 0));
    assert_eq!(g.sample(F / 2), rgb(127, 127, 127));
    assert_eq!(g.sample(F / 4), rgb(63, 63, 63));
    let tri = Gradient::new(vec![rgb(10, 20, 30), rgb(110, 120, 130), rgb(210, 220, 230)]).unwrap();
    assert_eq!(tri.sample(F / 4), rgb(60, 70, 80));
    assert_eq!(tri.sample(3 * F / 4), rgb(160, 170, 180));
}

#[test]
fn color_map_normalizes_and_samples() {
    let g = black_white();
    // 1 of 3 iterations plus phase 0.2: gray level of 0.2 + 1/3.
    assert_eq!(color_map(1, 3, F / 5, &g), rgb(135, 135, 135));
    // The full budget wraps to phase alone.
    assert_eq!(color_map(2, 2, F / 4, &g), rgb(63, 63, 63));
    assert_eq!(color_map(2, 2, 0, &g), rgb(0, 0, 0));
}

#[test]
fn color_map_is_stable_at_large_budgets_and_at_the_extremes() {
    let g = black_white();
    // Iteration counts of exactly 0 and exactly the budget, at a budget of
    // 8192: count 0 samples the start, the full budget wraps back to it.
    assert_eq!(color_map(0, 8192, 0, &g), rgb(0, 0, 0));
    assert_eq!(color_map(8192, 8192, 0, &g), rgb(0, 0, 0));
    assert_eq!(color_map(4096, 8192, 0, &g), rgb(127, 127, 127));
}

#[test]
fn color_map_is_invariant_under_whole_phase_shifts() {
    let g = black_white();
    for (i, m) in [(0usize, 1usize), (1, 3), (2, 2), (7, 100)] {
        let s = F / 5;
        let reference = color_map(i, m, s, &g);
        assert_eq!(color_map(i, m, s + F, &g), reference);
        assert_eq!(color_map(i, m, s - F, &g), reference);
        assert_eq!(color_map(i, m, s + 17 * F, &g), reference);
        assert_eq!(color_map(i, m, s - 2 * F, &g), reference);
    }
}

fn sample_meta() -> FrameMeta {
    // A 2x2 raster of this viewport has escape counts 4, 1, 4, 2 (row-major).
    FrameMeta {
        max_iterations: 4,
        x_pos: 3 * F / 4,
        y_pos: 0,
        radius: F,
        color_gradient_shift: 0,
    }
}

#[test]
fn two_by_two_frame_has_exact_bytes() {
    let g = black_white();
    let meta = sample_meta();
    let buffer = render_frame(&meta, 2, 2, &g, FractalFunction::Mandelbrot);
    // Counts 4, 1, 4, 2 map to gray 0, 63, 0, 127: row-major, R,G,B.
    assert_eq!(
        buffer,
        vec![0, 0, 0, 63, 63, 63, 0, 0, 0, 127, 127, 127]
    );
}

#[test]
fn rows_agree_with_the_full_frame() {
    let g = black_white();
    let meta = sample_meta();
    let buffer = render_frame(&meta, 2, 2, &g, FractalFunction::Mandelbrot);
    for y in 0..2usize {
        let row = render_row(&meta, 2, 2, y, &g, FractalFunction::Mandelbrot);
        assert_eq!(row.len(), 6);
        assert_eq!(&buffer[6 * y..6 * (y + 1)], &row[..]);
    }
}

#[test]
fn non_square_raster_is_row_major() {
    let g = black_white();
    let meta = FrameMeta {
        max_iterations: 3,
        x_pos: 0,
        y_pos: 0,
        radius: 3 * F / 2,
        color_gradient_shift: F / 3,
    };
    let buffer = render_frame(&meta, 3, 2, &g, FractalFunction::Mandelbrot);
    assert_eq!(buffer.len(), 18);
    assert_eq!(
        buffer,
        vec![169, 169, 169, 84, 84, 84, 169, 169, 169, 84, 84, 84, 84, 84, 84, 84, 84, 84]
    );
}

#[test]
fn rendering_is_deterministic() {
    let g = black_white();
    let meta = sample_meta();
    let first = render_frame(&meta, 8, 6, &g, FractalFunction::Mandelbrot);
    let second = render_frame(&meta, 8, 6, &g, FractalFunction::Mandelbrot);
    assert_eq!(first, second);
}

#[test]
fn entry_points_agree() {
    let g = black_white();
    let meta = sample_meta();
    let by_meta = render_frame(&meta, 2, 2, &g, FractalFunction::Mandelbrot);
    let by_args = create_frame_image_par(
        meta.max_iterations,
        2,
        2,
        meta.x_pos,
        meta.y_pos,
        meta.radius,
        &g,
        meta.color_gradient_shift,
        FractalFunction::Mandelbrot,
    );
    let fixed_family = create_mandelbrot_frame_image(
        meta.max_iterations,
        2,
        2,
        meta.x_pos,
        meta.y_pos,
        meta.radius,
        &g,
        meta.color_gradient_shift,
    );
    assert_eq!(by_meta, by_args);
    assert_eq!(by_meta, fixed_family);
}

#[test]
fn gradient_name_resolution_is_closed() {
    assert_eq!(str_to_gradient_name("sinebow"), Ok(GradientName::Sinebow));
    assert_eq!(
        str_to_gradient_name("cubehelix_default"),
        Ok(GradientName::CubehelixDefault)
    );
    assert_eq!(str_to_gradient_name("turbo"), Ok(GradientName::Turbo));
    assert_eq!(str_to_gradient_name("spectral"), Ok(GradientName::Spectral));
    assert_eq!(str_to_gradient_name("viridis"), Ok(GradientName::Viridis));
    assert_eq!(str_to_gradient_name("magma"), Ok(GradientName::Magma));
    assert_eq!(str_to_gradient_name("rainbow"), Ok(GradientName::Rainbow));
    assert_eq!(
        str_to_gradient_name("plasma"),
        Err(ConfigError::UnknownGradient)
    );
}
