//! An offline, deterministic 2D animation renderer core.
//!
//! A declarative set of keyframe tracks and clip intervals fully determines
//! the scene state at any timestamp; the frame pipeline drives timeline
//! sampling across a time window at a fixed frame rate and hands each frame
//! to a caller-supplied backend and sink.
//!
//! All times are fixed-point milliseconds and all animated scalar values are
//! fixed-point thousandths (`UNIT` subdivisions per whole unit), so every
//! sampling result is an exact integer function of the inputs.

pub mod animation;
pub mod clip;
pub mod config;
pub mod draw;
pub mod errors;
pub mod fixed;
pub mod object;
pub mod pipeline;
pub mod progress;
pub mod timeline;
pub mod transform;
