//! The frame rasterizer: a keyframe in, a full RGB raster out.
//!
//! Every pixel is computed independently from read-only inputs — viewport
//! mapper, escape evaluator, color mapper — and written to its own slot of
//! the buffer, so the raster is an exact function of the keyframe, gradient
//! and fractal family: rendering the same frame twice yields bit-identical
//! buffers whatever the scheduling. The buffer layout is fixed: row-major,
//! origin at the top-left, channel order R, G, B. Rows are produced by
//! [`render_row`], so a caller may also compute disjoint rows in parallel
//! and concatenate them in row order.

use vstd::prelude::*;

use crate::color::{color_map, color_map_spec, Gradient, Rgb};
use crate::fixed::COORD_BOUND;
use crate::fractals::{escape_count, mandelbrot, plane_coord, FractalFunction, MAX_RASTER_DIM};
use crate::frame_meta::FrameMeta;

verus! {

/// The vertical half-extent of a viewport: the radius divided by the
/// raster's aspect ratio, `radius * y_size / x_size`, so that resizing the
/// raster never changes the visible region.
pub open spec fn y_radius_spec(radius: int, x_size: int, y_size: int) -> int {
    (radius * y_size) / x_size
}

/// The escape count of the selected fractal family at a plane point.
pub open spec fn escape_of_spec(
    fractal_f: FractalFunction,
    cx: int,
    cy: int,
    max_iterations: nat,
) -> nat {
    match fractal_f {
        FractalFunction::Mandelbrot => escape_count(cx, cy, max_iterations),
    }
}

/// The color of pixel `(x, y)` of a frame: viewport mapper, then escape
/// evaluator, then color mapper.
pub open spec fn pixel_color_spec(
    stops: Seq<Rgb>,
    fractal_f: FractalFunction,
    meta: FrameMeta,
    x: int,
    y: int,
    x_size: int,
    y_size: int,
) -> Rgb {
    let yr = y_radius_spec(meta.radius as int, x_size, y_size);
    let cx = plane_coord(x, x_size, meta.x_pos as int, meta.radius as int);
    let cy = plane_coord(y, y_size, meta.y_pos as int, yr);
    let count = escape_of_spec(fractal_f, cx, cy, meta.max_iterations as nat);
    color_map_spec(
        stops,
        count as int,
        meta.max_iterations as int,
        meta.color_gradient_shift as int,
    )
}

/// Byte `i` of the flat row-major buffer: channel `i % 3` of pixel
/// `((i / 3) % x_size, (i / 3) / x_size)`.
pub open spec fn frame_byte_spec(
    stops: Seq<Rgb>,
    fractal_f: FractalFunction,
    meta: FrameMeta,
    x_size: int,
    y_size: int,
    i: int,
) -> u8 {
    let pix = i / 3;
    let ch = i % 3;
    let x = pix % x_size;
    let y = pix / x_size;
    let c = pixel_color_spec(stops, fractal_f, meta, x, y, x_size, y_size);
    if ch == 0 {
        c.r
    } else if ch == 1 {
        c.g
    } else {
        c.b
    }
}

/// The whole frame, as the flat row-major byte sequence of its
/// `y_size * x_size` RGB pixels.
pub open spec fn frame_bytes_spec(
    stops: Seq<Rgb>,
    fractal_f: FractalFunction,
    meta: FrameMeta,
    x_size: int,
    y_size: int,
) -> Seq<u8> {
    Seq::new(
        (y_size * x_size * 3) as nat,
        |i: int| frame_byte_spec(stops, fractal_f, meta, x_size, y_size, i),
    )
}

/// The preconditions shared by the rendering entry points: a well-formed
/// keyframe, a non-degenerate raster within the supported dimensions, a
/// usable gradient, and a vertical half-extent that stays inside the
/// supported plane region.
pub open spec fn render_pre(meta: FrameMeta, x_size: int, y_size: int, gradient: Gradient) -> bool {
    &&& meta.wf()
    &&& 1 <= x_size <= MAX_RASTER_DIM
    &&& 1 <= y_size <= MAX_RASTER_DIM
    &&& gradient.wf()
    &&& (meta.radius as int) * y_size <= (COORD_BOUND as int) * x_size
}

/// Flat-index arithmetic of the row-major layout: byte `3 * (y * w + x) + ch`
/// belongs to channel `ch` of pixel `(x, y)`.
proof fn lemma_flat_index(w: int, y: int, x: int, ch: int)
    requires
        0 <= x < w,
        0 <= ch < 3,
        0 <= y,
    ensures
        (3 * (y * w + x) + ch) / 3 == y * w + x,
        (3 * (y * w + x) + ch) % 3 == ch,
        (y * w + x) / w == y,
        (y * w + x) % w == x,
{
    assert(y * w >= 0) by (nonlinear_arith)
        requires
            y >= 0,
            w > 0,
    ;
    vstd::arithmetic::div_mod::lemma_fundamental_div_mod_converse(
        3 * (y * w + x) + ch,
        3,
        y * w + x,
        ch,
    );
    vstd::arithmetic::div_mod::lemma_fundamental_div_mod_converse(y * w + x, w, y, x);
}

/// The buffer layout law: in a rendered frame, the three bytes starting at
/// `3 * (y * x_size + x)` are exactly the R, G and B channels of pixel
/// `(x, y)` — row-major, origin at the top-left, channel order R, G, B.
pub proof fn lemma_buffer_layout(
    stops: Seq<Rgb>,
    fractal_f: FractalFunction,
    meta: FrameMeta,
    x_size: int,
    y_size: int,
    x: int,
    y: int,
)
    requires
        0 <= x < x_size,
        0 <= y < y_size,
    ensures
        ({
            let buf = frame_bytes_spec(stops, fractal_f, meta, x_size, y_size);
            let c = pixel_color_spec(stops, fractal_f, meta, x, y, x_size, y_size);
            &&& buf[3 * (y * x_size + x)] == c.r
            &&& buf[3 * (y * x_size + x) + 1] == c.g
            &&& buf[3 * (y * x_size + x) + 2] == c.b
        }),
{
    lemma_flat_index(x_size, y, x, 0);
    lemma_flat_index(x_size, y, x, 1);
    lemma_flat_index(x_size, y, x, 2);
    assert(0 <= y * x_size + x && 3 * (y * x_size + x) + 2 < y_size * x_size * 3)
        by (nonlinear_arith)
        requires
            0 <= x < x_size,
            0 <= y < y_size,
    ;
}

/// Rasterize one row: the `3 * x_size` bytes of row `y`, exactly the slice
/// `[3 * y * x_size, 3 * (y + 1) * x_size)` of the frame's flat buffer.
pub fn render_row(
    meta: &FrameMeta,
    x_size: usize,
    y_size: usize,
    y: usize,
    color_gradient: &Gradient,
    fractal_f: FractalFunction,
) -> (row: Vec<u8>)
    requires
        render_pre(*meta, x_size as int, y_size as int, *color_gradient),
        y < y_size,
    ensures
        row@.len() == 3 * x_size,
        forall|j: int|
            0 <= j < 3 * (x_size as int) ==> row@[j] == frame_byte_spec(
                color_gradient.spec_stops(),
                fractal_f,
                *meta,
                x_size as int,
                y_size as int,
                3 * ((y as int) * (x_size as int)) + j,
            ),
{
    proof {
        let r = meta.radius as int;
        let wdt = x_size as int;
        let hgt = y_size as int;
        assert(0 <= r * hgt <= 0x10_0000_0000_0000) by (nonlinear_arith)
            requires
                0 <= r <= 0x100_0000_0000,
                0 <= hgt <= 0x1000,
        ;
        vstd::arithmetic::div_mod::lemma_div_pos_is_pos(r * hgt, wdt);
        vstd::arithmetic::div_mod::lemma_div_is_ordered(r * hgt, (COORD_BOUND as int) * wdt, wdt);
        vstd::arithmetic::div_mod::lemma_div_multiples_vanish(COORD_BOUND as int, wdt);
        assert((COORD_BOUND as int) * wdt == wdt * (COORD_BOUND as int)) by (nonlinear_arith);
    }
    let y_radius: i64 = (((meta.radius as u64) * (y_size as u64)) / (x_size as u64)) as i64;
    let mut row: Vec<u8> = Vec::new();
    let mut x: usize = 0;
    while x < x_size
        invariant
            render_pre(*meta, x_size as int, y_size as int, *color_gradient),
            y < y_size,
            0 <= x <= x_size,
            y_radius == y_radius_spec(meta.radius as int, x_size as int, y_size as int),
            0 <= y_radius <= COORD_BOUND,
            row@.len() == 3 * x,
            forall|j: int|
                0 <= j < 3 * (x as int) ==> row@[j] == frame_byte_spec(
                    color_gradient.spec_stops(),
                    fractal_f,
                    *meta,
                    x_size as int,
                    y_size as int,
                    3 * ((y as int) * (x_size as int)) + j,
                ),
        decreases x_size - x,
    {
        let count: usize = match fractal_f {
            FractalFunction::Mandelbrot => mandelbrot(
                meta.max_iterations,
                x,
                y,
                x_size,
                y_size,
                meta.x_pos,
                meta.y_pos,
                meta.radius,
                y_radius,
            ),
        };
        let c: Rgb = color_map(count, meta.max_iterations, meta.color_gradient_shift, color_gradient);
        proof {
            let wdt = x_size as int;
            lemma_flat_index(wdt, y as int, x as int, 0);
            lemma_flat_index(wdt, y as int, x as int, 1);
            lemma_flat_index(wdt, y as int, x as int, 2);
            assert(c == pixel_color_spec(
                color_gradient.spec_stops(),
                fractal_f,
                *meta,
                x as int,
                y as int,
                wdt,
                y_size as int,
            ));
        }
        row.push(c.r);
        row.push(c.g);
        row.push(c.b);
        x = x + 1;
    }
    row
}

/// Rasterize a whole frame into a flat row-major RGB buffer, row by row.
/// The buffer is an exact function of the keyframe, gradient and fractal
/// family.
pub fn render_frame(
    meta: &FrameMeta,
    x_size: usize,
    y_size: usize,
    color_gradient: &Gradient,
    fractal_f: FractalFunction,
) -> (buffer: Vec<u8>)
    requires
        render_pre(*meta, x_size as int, y_size as int, *color_gradient),
    ensures
        buffer@ == frame_bytes_spec(
            color_gradient.spec_stops(),
            fractal_f,
            *meta,
            x_size as int,
            y_size as int,
        ),
        buffer@.len() == (y_size as int) * (x_size as int) * 3,
{
    let mut buffer: Vec<u8> = Vec::new();
    let mut y: usize = 0;
    while y < y_size
        invariant
            render_pre(*meta, x_size as int, y_size as int, *color_gradient),
            0 <= y <= y_size,
            buffer@.len() == 3 * ((y as int) * (x_size as int)),
            forall|i: int|
                0 <= i < buffer@.len() ==> buffer@[i] == frame_byte_spec(
                    color_gradient.spec_stops(),
                    fractal_f,
                    *meta,
                    x_size as int,
                    y_size as int,
                    i,
                ),
        decreases y_size - y,
    {
        let mut row: Vec<u8> = render_row(meta, x_size, y_size, y, color_gradient, fractal_f);
        proof {
            let wdt = x_size as int;
            assert(((y as int) + 1) * wdt == (y as int) * wdt + wdt) by (nonlinear_arith);
        }
        buffer.append(&mut row);
        y = y + 1;
    }
    proof {
        let wdt = x_size as int;
        let hgt = y_size as int;
        assert(hgt * wdt * 3 == 3 * (hgt * wdt)) by (nonlinear_arith);
        assert(buffer@ =~= frame_bytes_spec(
            color_gradient.spec_stops(),
            fractal_f,
            *meta,
            wdt,
            hgt,
        ));
    }
    buffer
}

/// Rasterize a full frame from a loose argument list: the flat row-major
/// RGB buffer of a `y_size` by `x_size` raster, ready for the video encoder
/// (which consumes it as a `(y_size, x_size, 3)` array): origin at the
/// top-left, channels R, G, B.
pub fn create_frame_image_par(
    max_iterations: usize,
    x_size: usize,
    y_size: usize,
    x_pos: i64,
    y_pos: i64,
    radius: i64,
    color_gradient: &Gradient,
    color_gradient_shift: i64,
    fractal_f: FractalFunction,
) -> (buffer: Vec<u8>)
    requires
        render_pre(
            (FrameMeta { max_iterations, x_pos, y_pos, radius, color_gradient_shift }),
            x_size as int,
            y_size as int,
            *color_gradient,
        ),
    ensures
        buffer@ == frame_bytes_spec(
            color_gradient.spec_stops(),
            fractal_f,
            (FrameMeta { max_iterations, x_pos, y_pos, radius, color_gradient_shift }),
            x_size as int,
            y_size as int,
        ),
        buffer@.len() == (y_size as int) * (x_size as int) * 3,
{
    let meta: FrameMeta = FrameMeta { max_iterations, x_pos, y_pos, radius, color_gradient_shift };
    render_frame(&meta, x_size, y_size, color_gradient, fractal_f)
}

/// Rasterizing is deterministic: two buffers produced from the same
/// keyframe, gradient and fractal family are byte-identical, however their
/// pixels were scheduled.
pub proof fn lemma_render_deterministic(
    b1: Seq<u8>,
    b2: Seq<u8>,
    stops: Seq<Rgb>,
    fractal_f: FractalFunction,
    meta: FrameMeta,
    x_size: int,
    y_size: int,
)
    requires
        b1 == frame_bytes_spec(stops, fractal_f, meta, x_size, y_size),
        b2 == frame_bytes_spec(stops, fractal_f, meta, x_size, y_size),
    ensures
        b1 == b2,
{
}

} // verus!
