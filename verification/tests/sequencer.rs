//! Transition sequencer: expansion length, concatenation order, endpoint
//! reproduction, and configuration validation.

use fractal_renderer::errors::ConfigError;
use fractal_renderer::fixed::FIX_ONE;
use fractal_renderer::frame_meta::FrameMeta;
use fractal_renderer::interpolation::{create_frame_from_lerp, interpolate_frames, InterpolationType};
use fractal_renderer::transition::Transition;
use fractal_renderer::video_frames::VideoFrames;

const F: i64 = FIX_ONE;

fn keyframe(max_iterations: usize, x: i64, y: i64, radius: i64, shift: i64) -> FrameMeta {
    FrameMeta {
        max_iterations,
        x_pos: x,
        y_pos: y,
        radius,
        color_gradient_shift: shift,
    }
}

fn scenario_keyframes() -> (FrameMeta, FrameMeta) {
    // Same viewport, palette phase going from 0 to 0.5.
    (
        keyframe(100, -F / 2, 0, 3 * F / 2, 0),
        keyframe(100, -F / 2, 0, 3 * F / 2, F / 2),
    )
}

#[test]
fn expansion_length_equals_steps() {
    let (a, b) = scenario_keyframes();
    for steps in [1usize, 2, 4, 31] {
        let frames = interpolate_frames(&a, &b, steps, &InterpolationType::Linear);
        assert_eq!(frames.len(), steps);
    }
}

#[test]
fn first_frame_reproduces_from_exactly() {
    let (a, b) = scenario_keyframes();
    let modes = [
        InterpolationType::Linear,
        InterpolationType::InOutQuart,
        InterpolationType::InOutCubic,
        InterpolationType::InSine,
        InterpolationType::InOutSine,
        InterpolationType::OutSine,
    ];
    for mode in modes {
        let frames = interpolate_frames(&a, &b, 5, &mode);
        assert_eq!(frames[0], a);
        assert_eq!(frames[0].color_gradient_shift, a.color_gradient_shift);
        assert_eq!(frames[0].max_iterations, a.max_iterations);
    }
}

#[test]
fn linear_phase_scenario() {
    // Four linear steps from phase 0 to phase 0.5: phases 0, 1/8, 1/4, 3/8,
    // all other fields untouched.
    let (a, b) = scenario_keyframes();
    let frames = interpolate_frames(&a, &b, 4, &InterpolationType::Linear);
    assert_eq!(frames.len(), 4);
    let expected_shifts = [0, F / 8, F / 4, 3 * F / 8];
    for (i, frame) in frames.iter().enumerate() {
        assert_eq!(frame.color_gradient_shift, expected_shifts[i]);
        assert_eq!(frame.max_iterations, 100);
        assert_eq!(frame.x_pos, -F / 2);
        assert_eq!(frame.y_pos, 0);
        assert_eq!(frame.radius, 3 * F / 2);
    }
}

#[test]
fn interpolation_rounds_the_budget_to_nearest() {
    let a = keyframe(100, 0, 0, F, 0);
    let b = keyframe(101, 0, 0, F, 0);
    // Halfway between 100 and 101 rounds up to 101.
    let mid = create_frame_from_lerp(&a, &b, F / 2);
    assert_eq!(mid.max_iterations, 101);
    // A quarter of the way rounds down to 100.
    let quarter = create_frame_from_lerp(&a, &b, F / 4);
    assert_eq!(quarter.max_iterations, 100);
}

#[test]
fn video_concatenates_in_declaration_order() {
    let (a, b) = scenario_keyframes();
    let video = VideoFrames::new(
        vec![a, b],
        vec![
            Transition {
                from_frame: 0,
                to_frame: 1,
                interpolation_type: InterpolationType::Linear,
                steps: 4,
            },
            Transition {
                from_frame: 1,
                to_frame: 0,
                interpolation_type: InterpolationType::Linear,
                steps: 3,
            },
        ],
    );
    let video = match video {
        Ok(v) => v,
        Err(_) => panic!("a valid configuration was rejected"),
    };
    let all = video.construct_all_frames();
    // Total frame count is the sum of the step counts, in order.
    assert_eq!(all.len(), 7);
    // The first segment runs the phase up from 0; the second starts back at
    // phase 0.5 and runs it down.
    assert_eq!(all[0].color_gradient_shift, 0);
    assert_eq!(all[1].color_gradient_shift, F / 8);
    assert_eq!(all[3].color_gradient_shift, 3 * F / 8);
    assert_eq!(all[4].color_gradient_shift, F / 2);
    assert_eq!(all[5].color_gradient_shift, F / 2 - F / 6 - 1);
}

#[test]
fn out_of_range_transition_index_is_rejected() {
    let (a, b) = scenario_keyframes();
    let r = VideoFrames::new(
        vec![a, b],
        vec![Transition {
            from_frame: 0,
            to_frame: 2,
            interpolation_type: InterpolationType::Linear,
            steps: 4,
        }],
    );
    assert!(matches!(r, Err(ConfigError::TransitionIndexOutOfRange)));
}

#[test]
fn zero_steps_is_rejected() {
    let (a, b) = scenario_keyframes();
    let r = VideoFrames::new(
        vec![a, b],
        vec![Transition {
            from_frame: 0,
            to_frame: 1,
            interpolation_type: InterpolationType::Linear,
            steps: 0,
        }],
    );
    assert!(matches!(r, Err(ConfigError::InvalidStepCount)));
}

#[test]
fn malformed_keyframe_is_rejected() {
    let bad = keyframe(0, 0, 0, F, 0);
    let r = VideoFrames::new(vec![bad], vec![]);
    assert!(matches!(r, Err(ConfigError::InvalidKeyframe)));
}

#[test]
fn empty_configuration_yields_empty_video() {
    let video = match VideoFrames::new(vec![], vec![]) {
        Ok(v) => v,
        Err(_) => panic!("the empty configuration is valid"),
    };
    assert_eq!(video.construct_all_frames().len(), 0);
}

#[test]
fn error_descriptions_name_the_fault() {
    assert_eq!(
        ConfigError::UnknownGradient.describe(),
        "color gradient name is unknown"
    );
    assert_eq!(
        ConfigError::UnknownFractal.describe(),
        "fractal function name is unknown"
    );
}
