//! Keyframe identity: equality compares the viewport and ignores the
//! palette phase.

use fractal_renderer::fixed::FIX_ONE;
use fractal_renderer::frame_meta::FrameMeta;

const F: i64 = FIX_ONE;

fn base() -> FrameMeta {
    FrameMeta {
        max_iterations: 100,
        x_pos: -F / 2,
        y_pos: 0,
        radius: 3 * F / 2,
        color_gradient_shift: 0,
    }
}

#[test]
fn equality_ignores_color_gradient_shift() {
    let a = base();
    let mut b = base();
    b.color_gradient_shift = F / 2;
    assert_eq!(a, b);
    b.color_gradient_shift = -31 * F;
    assert_eq!(a, b);
}

#[test]
fn equality_depends_on_max_iterations() {
    let a = base();
    let mut b = base();
    b.max_iterations = 101;
    assert_ne!(a, b);
}

#[test]
fn equality_depends_on_x_pos() {
    let a = base();
    let mut b = base();
    b.x_pos = -F / 2 + 1;
    assert_ne!(a, b);
}

#[test]
fn equality_depends_on_y_pos() {
    let a = base();
    let mut b = base();
    b.y_pos = 1;
    assert_ne!(a, b);
}

#[test]
fn equality_depends_on_radius() {
    let a = base();
    let mut b = base();
    b.radius = F;
    assert_ne!(a, b);
}

#[test]
fn well_formedness_edges() {
    assert!(base().is_well_formed());
    let mut bad = base();
    bad.max_iterations = 0;
    assert!(!bad.is_well_formed());
    let mut bad = base();
    bad.radius = 0;
    assert!(!bad.is_well_formed());
    let mut bad = base();
    bad.x_pos = i64::MAX;
    assert!(!bad.is_well_formed());
}
