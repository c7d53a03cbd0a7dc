//! Clips: a drawable object bound to an animated transform over an active
//! time interval.
//!
//! The active interval is half-open, so consecutive, touching clips on a
//! layer never simultaneously claim the same instant.

use vstd::prelude::*;

use crate::errors::RenderError;
use crate::object::Object;
use crate::transform::AnimatedTransform;

verus! {

/// A drawable object with its animated transform, active over
/// `[start, end)` milliseconds within its timeline.
#[derive(Clone, Debug, PartialEq)]
pub struct Clip {
    pub start: i64,
    pub end: i64,
    pub object: Object,
    pub transform: AnimatedTransform,
}

/// Validity of clip bounds against a timeline duration.
pub open spec fn clip_bounds_ok(start: int, end: int, duration: int) -> bool {
    0 <= start && start < end && end <= duration
}

impl Clip {
    /// Well-formedness against a timeline duration: valid bounds and a
    /// well-formed transform.
    pub open spec fn wf(self, duration: int) -> bool {
        clip_bounds_ok(self.start as int, self.end as int, duration)
            && self.transform.wf()
    }

    /// Builds a clip, rejecting a non-positive duration and any bounds
    /// that break `0 <= start < end <= duration`.
    pub fn new(
        start: i64,
        end: i64,
        object: Object,
        transform: AnimatedTransform,
        duration: i64,
    ) -> (r: Result<Self, RenderError>)
        requires
            transform.wf(),
        ensures
            duration <= 0 ==> r == Err::<Self, RenderError>(RenderError::NonPositiveDuration),
            duration > 0 && !clip_bounds_ok(start as int, end as int, duration as int) ==> r
                == Err::<Self, RenderError>(RenderError::InvalidClipBounds),
            clip_bounds_ok(start as int, end as int, duration as int) && duration > 0 ==> (
            r matches Ok(c) && c == (Clip { start, end, object, transform })),
            r matches Ok(c) ==> c.wf(duration as int),
    {
        if duration <= 0 {
            return Err(RenderError::NonPositiveDuration);
        }
        if start < 0 || end <= start || end > duration {
            return Err(RenderError::InvalidClipBounds);
        }
        Ok(Self { start, end, object, transform })
    }

    /// Whether the clip claims instant `t`; the interval is half-open, so
    /// `is_active(end)` is false.
    pub fn is_active(&self, t: i64) -> (r: bool)
        ensures
            r == (self.start <= t && t < self.end),
    {
        t >= self.start && t < self.end
    }

    /// The clip-local time at `t`, `Some(t - start)` exactly when the clip
    /// is active.
    pub fn local_time(&self, t: i64) -> (r: Option<i64>)
        requires
            0 <= self.start <= self.end,
        ensures
            self.start <= t && t < self.end ==> (r matches Some(lt) && lt == t - self.start),
            !(self.start <= t && t < self.end) ==> r is None,
    {
        if self.is_active(t) {
            Some(t - self.start)
        } else {
            None
        }
    }

    /// The clip-local time saturated to `[0, end - start]`, for use
    /// outside the active window.
    pub fn clamped_local_time(&self, t: i64) -> (r: i64)
        requires
            0 <= self.start <= self.end,
        ensures
            t <= self.start ==> r == 0,
            t >= self.end ==> r == self.end - self.start,
            self.start < t && t < self.end ==> r == t - self.start,
    {
        if t <= self.start {
            0
        } else if t >= self.end {
            self.end - self.start
        } else {
            t - self.start
        }
    }
}

} // verus!
