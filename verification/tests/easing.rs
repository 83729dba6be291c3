//! Easing functions: exact endpoint and sample values.

use fractal_renderer::fixed::FIX_ONE;
use fractal_renderer::interpolation::{
    ease_in_out_cubic, ease_in_out_quart, ease_in_out_sine, ease_in_sine, ease_out_sine, lerp,
    InterpolationType,
};

const F: i64 = FIX_ONE;

const ALL_MODES: [InterpolationType; 6] = [
    InterpolationType::Linear,
    InterpolationType::InOutQuart,
    InterpolationType::InOutCubic,
    InterpolationType::InSine,
    InterpolationType::InOutSine,
    InterpolationType::OutSine,
];

#[test]
fn every_variant_is_zero_at_zero() {
    for mode in ALL_MODES {
        assert_eq!(mode.interpolate(0), 0);
    }
}

#[test]
fn every_variant_is_one_at_one() {
    for mode in ALL_MODES {
        assert_eq!(mode.interpolate(F), F);
    }
}

#[test]
fn every_variant_stays_in_unit_range() {
    for mode in ALL_MODES {
        let mut t: i64 = 0;
        while t <= F {
            let e = mode.interpolate(t);
            assert!(0 <= e && e <= F);
            t += F / 64;
        }
    }
}

#[test]
fn linear_is_the_identity() {
    for t in [0, 1, F / 3, F / 2, F - 1, F] {
        assert_eq!(InterpolationType::Linear.interpolate(t), t);
    }
}

#[test]
fn quart_exact_samples() {
    // 8 * (1/4)^4 == 1/32; the midpoint meets both branch formulas at 1/2.
    assert_eq!(ease_in_out_quart(F / 4), F / 32);
    assert_eq!(ease_in_out_quart(F / 2), F / 2);
}

#[test]
fn cubic_exact_samples() {
    // 4 * (1/4)^3 == 1/16.
    assert_eq!(ease_in_out_cubic(F / 4), F / 16);
    assert_eq!(ease_in_out_cubic(F / 2), F / 2);
}

#[test]
fn sine_exact_samples() {
    // Values of the fixed-point rational sine approximation.
    assert_eq!(ease_out_sine(F / 2), 11_842_740);
    assert_eq!(ease_out_sine(F / 4), 6_435_096);
    assert_eq!(ease_in_sine(F / 2), 4_934_476);
    assert_eq!(ease_in_sine(F / 4), 1_290_556);
    assert_eq!(ease_in_out_sine(F / 2), 8_359_580);
    assert_eq!(ease_in_out_sine(F / 4), 2_468_255);
}

#[test]
fn sine_variants_end_at_one() {
    assert_eq!(ease_out_sine(F), F);
    assert_eq!(ease_in_sine(F), F);
    assert_eq!(ease_in_out_sine(F), F);
}

#[test]
fn interpolate_dispatches_by_variant() {
    assert_eq!(
        InterpolationType::OutSine.interpolate(F / 2),
        ease_out_sine(F / 2)
    );
    assert_eq!(
        InterpolationType::InOutQuart.interpolate(F / 4),
        ease_in_out_quart(F / 4)
    );
}

#[test]
fn lerp_reproduces_endpoint_a_at_zero() {
    assert_eq!(lerp(-7 * F, 13 * F, 0), -7 * F);
    assert_eq!(lerp(42, -9999, 0), 42);
}

#[test]
fn lerp_keeps_equal_endpoints_fixed() {
    for t in [0, 1, F / 3, F / 2, F] {
        assert_eq!(lerp(-F / 2, -F / 2, t), -F / 2);
    }
}

#[test]
fn lerp_exact_midway_values() {
    assert_eq!(lerp(0, F / 2, F / 4), F / 8);
    assert_eq!(lerp(0, F / 2, F / 2), F / 4);
    assert_eq!(lerp(F, 3 * F, F / 2), 2 * F);
}
