//! Poses, colors and animated transforms.
//!
//! A `Transform` is one instantaneous pose; an `AnimatedTransform` samples
//! four independent tracks (position, scale, rotation, opacity) and
//! recombines them.  Scalars are fixed-point thousandths: a scale or
//! opacity of `UNIT` stands for `1.0`, rotation is in millidegrees.

use vstd::prelude::*;

use crate::animation::{sample_spec, Lerp, Track};
use crate::fixed::{lerp_milli, lerp_milli_spec, UNIT};

verus! {

/// A fixed-point pair, used for position and non-uniform scale.
#[derive(Clone, Copy, Debug, PartialEq, Eq, Structural)]
pub struct Vec2 {
    pub x: i64,
    pub y: i64,
}

impl Vec2 {
    /// The origin.
    pub fn zero() -> (r: Vec2)
        ensures
            r == (Vec2 { x: 0, y: 0 }),
    {
        Vec2 { x: 0, y: 0 }
    }

    /// The unit pair (`1.0` in both components).
    pub fn one() -> (r: Vec2)
        ensures
            r == (Vec2 { x: UNIT, y: UNIT }),
    {
        Vec2 { x: UNIT, y: UNIT }
    }
}

impl Lerp for Vec2 {
    open spec fn lerp_spec(a: Vec2, b: Vec2, u: int) -> Vec2 {
        Vec2 {
            x: lerp_milli_spec(a.x as int, b.x as int, u) as i64,
            y: lerp_milli_spec(a.y as int, b.y as int, u) as i64,
        }
    }

    fn lerp(a: Vec2, b: Vec2, u: i64) -> (r: Vec2) {
        Vec2 { x: lerp_milli(a.x, b.x, u), y: lerp_milli(a.y, b.y, u) }
    }
}

/// An 8-bit RGBA color.  The alpha channel is later combined
/// multiplicatively with an object's animated opacity.
#[derive(Clone, Copy, Debug, PartialEq, Eq, Structural)]
pub struct Color {
    pub r: u8,
    pub g: u8,
    pub b: u8,
    pub a: u8,
}

/// The 8-bit channel that a CSS-style fixed-point alpha (thousandths,
/// clamped to `[0, UNIT]`) maps to: `alpha * 255`, rounded half up.
pub open spec fn css_alpha_spec(a: int) -> int {
    let c = if a < 0 {
        0
    } else if a > UNIT as int {
        UNIT as int
    } else {
        a
    };
    (c * 255 + 500) / 1000
}

impl Color {
    /// A fully opaque color from explicit channels.
    pub fn rgb(r: u8, g: u8, b: u8) -> (c: Self)
        ensures
            c == (Color { r, g, b, a: 255 }),
    {
        Self { r, g, b, a: 255 }
    }

    /// A color from explicit channels including alpha.
    pub fn rgba(r: u8, g: u8, b: u8, a: u8) -> (c: Self)
        ensures
            c == (Color { r, g, b, a }),
    {
        Self { r, g, b, a }
    }

    /// CSS-style alpha (thousandths of full opacity) with RGB in `0..=255`.
    pub fn rgba_css(r: u8, g: u8, b: u8, a: i64) -> (c: Self)
        ensures
            c.r == r && c.g == g && c.b == b,
            c.a as int == css_alpha_spec(a as int),
    {
        let clamped: u64 = if a < 0 {
            0
        } else if a > UNIT {
            1000
        } else {
            a as u64
        };
        let alpha: u8 = ((clamped * 255 + 500) / 1000) as u8;
        Self { r, g, b, a: alpha }
    }

    /// Pure white, fully opaque.
    pub fn white() -> (c: Self)
        ensures
            c == (Color { r: 255, g: 255, b: 255, a: 255 }),
    {
        Self { r: 255, g: 255, b: 255, a: 255 }
    }

    /// Pure black, fully opaque.
    pub fn black() -> (c: Self)
        ensures
            c == (Color { r: 0, g: 0, b: 0, a: 255 }),
    {
        Self { r: 0, g: 0, b: 0, a: 255 }
    }
}

/// An instantaneous pose: position, non-uniform scale, rotation in
/// millidegrees, and opacity in thousandths (nominally `[0, UNIT]`,
/// unclamped at this layer).
#[derive(Clone, Copy, Debug, PartialEq, Eq, Structural)]
pub struct Transform {
    pub pos: Vec2,
    pub scale: Vec2,
    pub rotation: i64,
    pub opacity: i64,
}

/// The identity pose: origin position, unit scale, no rotation, fully
/// opaque.
pub open spec fn identity_transform() -> Transform {
    Transform {
        pos: Vec2 { x: 0, y: 0 },
        scale: Vec2 { x: UNIT, y: UNIT },
        rotation: 0,
        opacity: UNIT,
    }
}

impl Default for Transform {
    /// The identity pose.
    fn default() -> (r: Self)
        ensures
            r == identity_transform(),
    {
        Self {
            pos: Vec2 { x: 0, y: 0 },
            scale: Vec2 { x: UNIT, y: UNIT },
            rotation: 0,
            opacity: UNIT,
        }
    }
}

/// Four independent tracks composed into one per-object pose sampler.
/// The tracks need not share keyframe times.
#[derive(Clone, Debug, PartialEq)]
pub struct AnimatedTransform {
    pub position: Track<Vec2>,
    pub scale: Track<Vec2>,
    pub rotation: Track<i64>,
    pub opacity: Track<i64>,
}

/// The pose an animated transform takes at time `t`: each component track
/// sampled independently.
pub open spec fn transform_sample_spec(at: AnimatedTransform, t: int) -> Transform {
    Transform {
        pos: sample_spec(at.position@, t),
        scale: sample_spec(at.scale@, t),
        rotation: sample_spec(at.rotation@, t),
        opacity: sample_spec(at.opacity@, t),
    }
}

impl AnimatedTransform {
    /// Well-formedness: all four component tracks are well-formed.
    pub open spec fn wf(self) -> bool {
        self.position.wf() && self.scale.wf() && self.rotation.wf() && self.opacity.wf()
    }

    /// A non-animated pose: all four tracks are single-keyframe constants.
    pub fn constant(transform: Transform) -> (r: Self)
        ensures
            r.wf(),
            forall|t: int| transform_sample_spec(r, t) == transform,
    {
        let r = Self {
            position: Track::from_constant(transform.pos),
            scale: Track::from_constant(transform.scale),
            rotation: Track::from_constant(transform.rotation),
            opacity: Track::from_constant(transform.opacity),
        };
        proof {
            assert forall|t: int| transform_sample_spec(r, t) == transform by {
                crate::animation::lemma_constant_track::<Vec2>(r.position@, t);
                crate::animation::lemma_constant_track::<Vec2>(r.scale@, t);
                crate::animation::lemma_constant_track::<i64>(r.rotation@, t);
                crate::animation::lemma_constant_track::<i64>(r.opacity@, t);
            }
        }
        r
    }

    /// Samples all four tracks at time `t` and assembles the pose.
    pub fn sample(&self, t: i64) -> (r: Transform)
        requires
            self.wf(),
        ensures
            r == transform_sample_spec(*self, t as int),
    {
        Transform {
            pos: self.position.sample(t),
            scale: self.scale.sample(t),
            rotation: self.rotation.sample(t),
            opacity: self.opacity.sample(t),
        }
    }
}

impl Default for AnimatedTransform {
    /// The constant identity pose.
    fn default() -> (r: Self)
        ensures
            r.wf(),
            forall|t: int| transform_sample_spec(r, t) == identity_transform(),
    {
        Self::constant(
            Transform {
                pos: Vec2 { x: 0, y: 0 },
                scale: Vec2 { x: UNIT, y: UNIT },
                rotation: 0,
                opacity: UNIT,
            },
        )
    }
}

} // verus!
