//! Offline rendering core for escape-time fractal stills and videos.
//!
//! The crate works on a fixed-point model of the complex plane: every
//! coordinate, radius, easing value and gradient position is an `i64`
//! holding a real number scaled by [`fixed::FIX_ONE`]. All arithmetic on
//! those values is exact integer arithmetic, so every component here is a
//! pure function with a proved contract, and rendering the same frame twice
//! yields bit-identical output.
//!
//! The pipeline: a list of keyframes ([`frame_meta::FrameMeta`]) and
//! transitions ([`transition::Transition`]) is expanded by the sequencer
//! ([`video_frames::VideoFrames`]) into a dense frame list, and each frame is
//! rasterized ([`frame_renderer`]) by composing the viewport mapper and the
//! escape evaluator ([`fractals`]) with the color mapper ([`color`]).

pub mod color;
pub mod errors;
pub mod fixed;
pub mod fractals;
pub mod frame_meta;
pub mod frame_renderer;
pub mod interpolation;
pub mod mandelbrot;
pub mod transition;
pub mod video_frames;
