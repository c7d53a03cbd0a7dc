//! The error taxonomy of the renderer core.
//!
//! Construction errors are raised at build time, range errors at sampling or
//! pipeline time, and backend/sink faults are fatal for the current run.

use vstd::prelude::*;

verus! {

/// Every failure the core can surface.  Construction errors
/// (`EmptyTrack`, `NonIncreasingKeyframes`, `NonPositiveDuration`,
/// `InvalidClipBounds`, `InvalidTimelineParams`) are permanent, build-time
/// failures; `TimeOutOfRange` and `InvalidRenderWindow` are range errors;
/// `FrameSizeMismatch`, `Backend` and `Sink` abort a render run.
#[derive(Clone, Copy, Debug, PartialEq, Eq, Structural)]
pub enum RenderError {
    /// A track was built from an empty keyframe list.
    EmptyTrack,
    /// Keyframe times were not strictly increasing.
    NonIncreasingKeyframes,
    /// A clip or timeline was given a duration of zero or less.
    NonPositiveDuration,
    /// Clip bounds broke `0 <= start < end <= duration`.
    InvalidClipBounds,
    /// Timeline frame rate or duration is outside the supported range.
    InvalidTimelineParams,
    /// `Timeline::sample` was called outside `[0, duration)`.
    TimeOutOfRange,
    /// The render window broke `0 <= start < end <= duration`.
    InvalidRenderWindow,
    /// A captured frame's byte length disagreed with `width * height * 4`.
    FrameSizeMismatch,
    /// The drawing backend reported a fault.
    Backend,
    /// The frame sink reported a fault.
    Sink,
}

/// The description each error variant carries.
pub open spec fn message_spec(e: RenderError) -> Seq<char> {
    match e {
        RenderError::EmptyTrack => "track must have at least one keyframe"@,
        RenderError::NonIncreasingKeyframes => "keyframe times must be strictly increasing"@,
        RenderError::NonPositiveDuration => "duration must be > 0"@,
        RenderError::InvalidClipBounds => "clip bounds must satisfy 0 <= start < end <= duration"@,
        RenderError::InvalidTimelineParams => "fps and duration are outside the supported range"@,
        RenderError::TimeOutOfRange => "sample time must satisfy 0 <= t < duration"@,
        RenderError::InvalidRenderWindow => "start/end time must satisfy 0 <= start < end <= duration"@,
        RenderError::FrameSizeMismatch => "frame size mismatch against width * height * 4"@,
        RenderError::Backend => "drawing backend failure"@,
        RenderError::Sink => "frame sink failure"@,
    }
}

impl RenderError {
    /// A human-readable description of the error.
    pub fn message(&self) -> (r: &'static str)
        ensures
            r@ == message_spec(*self),
    {
        match self {
            RenderError::EmptyTrack => "track must have at least one keyframe",
            RenderError::NonIncreasingKeyframes => "keyframe times must be strictly increasing",
            RenderError::NonPositiveDuration => "duration must be > 0",
            RenderError::InvalidClipBounds => "clip bounds must satisfy 0 <= start < end <= duration",
            RenderError::InvalidTimelineParams => "fps and duration are outside the supported range",
            RenderError::TimeOutOfRange => "sample time must satisfy 0 <= t < duration",
            RenderError::InvalidRenderWindow => "start/end time must satisfy 0 <= start < end <= duration",
            RenderError::FrameSizeMismatch => "frame size mismatch against width * height * 4",
            RenderError::Backend => "drawing backend failure",
            RenderError::Sink => "frame sink failure",
        }
    }
}

} // verus!
