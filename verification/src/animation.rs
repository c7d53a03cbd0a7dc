//! Easing curves and keyframe tracks.
//!
//! A `Track` is a non-empty, strictly time-ordered sequence of keyframes.
//! Sampling clamps outside the covered range and interpolates inside it,
//! easing the normalized progress between the two surrounding keyframes.

use vstd::prelude::*;

use crate::errors::RenderError;
use crate::fixed::{lerp_milli, lerp_milli_spec, UNIT};

verus! {

/// A pure scalar remapping curve over normalized progress.
#[derive(Clone, Copy, Debug, PartialEq, Eq, Structural)]
pub enum Easing {
    Linear,
    EaseInOutQuad,
    EaseOutCubic,
}

/// Clamping of progress into `[0, UNIT]` thousandths.
pub open spec fn clamp_unit_spec(u: int) -> int {
    if u < 0 {
        0
    } else if u > UNIT as int {
        UNIT as int
    } else {
        u
    }
}

/// The eased progress for curve `e` at clamped progress `u` thousandths.
/// Quadratic and cubic terms are evaluated in fixed point with floor
/// division, so `apply_spec(e, 0) == 0` and `apply_spec(e, UNIT) == UNIT`
/// hold exactly for every curve.
pub open spec fn apply_spec(e: Easing, u: int) -> int {
    let c = clamp_unit_spec(u);
    match e {
        Easing::Linear => c,
        Easing::EaseInOutQuad => if c < 500 {
            (2 * c * c) / 1000
        } else {
            1000 - ((2000 - 2 * c) * (2000 - 2 * c)) / 2000
        },
        Easing::EaseOutCubic => 1000 - ((1000 - c) * (1000 - c) * (1000 - c)) / 1000000,
    }
}

impl Easing {
    /// Remaps progress `u` (thousandths, clamped to `[0, UNIT]`) through
    /// this curve; the result stays within `[0, UNIT]`.
    pub fn apply(self, u: i64) -> (r: i64)
        ensures
            r as int == apply_spec(self, u as int),
            0 <= r <= UNIT,
    {
        let c: u64 = if u < 0 {
            0
        } else if u > UNIT {
            1000
        } else {
            u as u64
        };
        match self {
            Easing::Linear => c as i64,
            Easing::EaseInOutQuad => {
                if c < 500 {
                    proof {
                        assert(2 * c * c <= 498002) by (nonlinear_arith)
                            requires c <= 499;
                    }
                    ((2 * c * c) / 1000) as i64
                } else {
                    let v: u64 = 2000 - 2 * c;
                    proof {
                        assert(v * v <= 1000000) by (nonlinear_arith)
                            requires v <= 1000;
                    }
                    (1000 - (v * v) / 2000) as i64
                }
            },
            Easing::EaseOutCubic => {
                let w: u64 = 1000 - c;
                proof {
                    assert(w * w <= 1000000 && w * w * w <= 1000000000) by (nonlinear_arith)
                        requires w <= 1000;
                }
                (1000 - (w * w * w) / 1000000) as i64
            },
        }
    }
}

/// `Easing::Linear` is the identity on clamped progress.
pub proof fn lemma_linear_identity(u: int)
    requires
        0 <= u <= UNIT as int,
    ensures
        apply_spec(Easing::Linear, u) == u,
{
}

/// Every easing curve fixes the endpoints: eased progress is `0` at `0`
/// and `UNIT` at `UNIT`.
pub proof fn lemma_easing_endpoints(e: Easing)
    ensures
        apply_spec(e, 0) == 0,
        apply_spec(e, UNIT as int) == UNIT as int,
{
    assert(clamp_unit_spec(0) == 0);
    assert(clamp_unit_spec(1000) == 1000);
    match e {
        Easing::Linear => {},
        Easing::EaseInOutQuad => {
            assert(2 * 0 * 0 == 0) by (nonlinear_arith);
            assert((2000 - 2 * 1000) * (2000 - 2 * 1000) == 0) by (nonlinear_arith);
        },
        Easing::EaseOutCubic => {
            assert((1000 - 0) * (1000 - 0) * (1000 - 0) == 1000000000) by (nonlinear_arith);
            assert((1000 - 1000) * (1000 - 1000) * (1000 - 1000) == 0) by (nonlinear_arith);
        },
    }
}

/// Every easing curve is monotone: eased progress never decreases as
/// progress grows.
pub proof fn lemma_easing_monotone(e: Easing, u1: int, u2: int)
    requires
        u1 <= u2,
    ensures
        apply_spec(e, u1) <= apply_spec(e, u2),
{
    let c1 = clamp_unit_spec(u1);
    let c2 = clamp_unit_spec(u2);
    assert(0 <= c1 <= c2 <= 1000);
    match e {
        Easing::Linear => {},
        Easing::EaseInOutQuad => {
            if c2 < 500 {
                assert(2 * c1 * c1 <= 2 * c2 * c2) by (nonlinear_arith)
                    requires 0 <= c1 <= c2;
                vstd::arithmetic::div_mod::lemma_div_is_ordered(2 * c1 * c1, 2 * c2 * c2, 1000);
            } else if c1 >= 500 {
                let v1 = 2000 - 2 * c1;
                let v2 = 2000 - 2 * c2;
                assert(v2 * v2 <= v1 * v1) by (nonlinear_arith)
                    requires 0 <= v2 <= v1;
                vstd::arithmetic::div_mod::lemma_div_is_ordered(v2 * v2, v1 * v1, 2000);
            } else {
                assert(2 * c1 * c1 <= 498002) by (nonlinear_arith)
                    requires 0 <= c1 <= 499;
                vstd::arithmetic::div_mod::lemma_div_is_ordered(2 * c1 * c1, 498002, 1000);
                let v2 = 2000 - 2 * c2;
                assert(v2 * v2 <= 1000000) by (nonlinear_arith)
                    requires 0 <= v2 <= 1000;
                vstd::arithmetic::div_mod::lemma_div_is_ordered(v2 * v2, 1000000, 2000);
            }
        },
        Easing::EaseOutCubic => {
            let w1 = 1000 - c1;
            let w2 = 1000 - c2;
            assert(w2 * w2 * w2 <= w1 * w1 * w1) by (nonlinear_arith)
                requires 0 <= w2 <= w1;
            vstd::arithmetic::div_mod::lemma_div_is_ordered(w2 * w2 * w2, w1 * w1 * w1, 1000000);
        },
    }
}

/// One keyframe: an absolute time in milliseconds, a value, and the curve
/// that governs interpolation toward the next keyframe.
#[derive(Clone, Copy, Debug, PartialEq)]
pub struct Keyframe<T> {
    pub time: i64,
    pub value: T,
    pub easing_to_next: Easing,
}

impl<T> Keyframe<T> {
    pub fn new(time: i64, value: T, easing_to_next: Easing) -> (r: Self)
        ensures
            r.time == time,
            r.value == value,
            r.easing_to_next == easing_to_next,
    {
        Self { time, value, easing_to_next }
    }
}

/// The capability of linear interpolation, implemented for fixed-point
/// scalars and 2D vectors.
pub trait Lerp: Sized + Copy {
    /// The interpolated value at progress `u` thousandths from `a` to `b`.
    spec fn lerp_spec(a: Self, b: Self, u: int) -> Self;

    /// Interpolates from `a` to `b` at progress `u` thousandths.
    fn lerp(a: Self, b: Self, u: i64) -> (r: Self)
        requires
            0 <= u <= UNIT,
        ensures
            r == Self::lerp_spec(a, b, u as int),
    ;
}

impl Lerp for i64 {
    open spec fn lerp_spec(a: i64, b: i64, u: int) -> i64 {
        lerp_milli_spec(a as int, b as int, u) as i64
    }

    fn lerp(a: i64, b: i64, u: i64) -> (r: i64) {
        lerp_milli(a, b, u)
    }
}

/// Strict time-ordering of a keyframe sequence.
pub open spec fn times_strictly_increasing<T>(kfs: Seq<Keyframe<T>>) -> bool {
    forall|i: int| 0 <= i && i + 1 < kfs.len() ==> #[trigger] kfs[i].time < kfs[i + 1].time
}

/// Well-formedness of a track's keyframes: non-empty and strictly
/// time-ordered.
pub open spec fn track_wf<T>(kfs: Seq<Keyframe<T>>) -> bool {
    kfs.len() >= 1 && times_strictly_increasing(kfs)
}

/// Keyframe times of a well-formed sequence grow with the index.
pub proof fn lemma_times_mono<T>(kfs: Seq<Keyframe<T>>, i: int, j: int)
    requires
        times_strictly_increasing(kfs),
        0 <= i <= j < kfs.len(),
    ensures
        kfs[i].time <= kfs[j].time,
        i < j ==> kfs[i].time < kfs[j].time,
    decreases j - i,
{
    if i < j {
        lemma_times_mono(kfs, i, j - 1);
    }
}

/// `i` indexes the keyframe interval containing `t`.
pub open spec fn in_seg<T>(kfs: Seq<Keyframe<T>>, t: int, i: int) -> bool {
    0 <= i && i + 1 < kfs.len() && kfs[i].time <= t && t < kfs[i + 1].time
}

/// The index of the unique keyframe interval containing `t`.
pub open spec fn seg_of<T>(kfs: Seq<Keyframe<T>>, t: int) -> int {
    choose|i: int| in_seg(kfs, t, i)
}

/// At most one keyframe interval contains a given time.
pub proof fn lemma_seg_unique<T>(kfs: Seq<Keyframe<T>>, t: int, i: int, j: int)
    requires
        times_strictly_increasing(kfs),
        in_seg(kfs, t, i),
        in_seg(kfs, t, j),
    ensures
        i == j,
{
    if i < j {
        lemma_times_mono(kfs, i + 1, j);
    }
    if j < i {
        lemma_times_mono(kfs, j + 1, i);
    }
}

/// The eased progress of `t` between consecutive keyframes `k0` and `k1`.
pub open spec fn eased_progress_spec<T>(k0: Keyframe<T>, k1: Keyframe<T>, t: int) -> int {
    apply_spec(k0.easing_to_next, ((t - k0.time) * (UNIT as int)) / (k1.time - k0.time))
}

/// The sampled value of a well-formed keyframe sequence at time `t`:
/// clamped to the first value at or before the first keyframe, to the last
/// value at or after the last keyframe, and interpolated with easing in
/// between.
pub open spec fn sample_spec<T: Lerp>(kfs: Seq<Keyframe<T>>, t: int) -> T {
    if t <= kfs[0].time {
        kfs[0].value
    } else if t >= kfs[kfs.len() - 1].time {
        kfs[kfs.len() - 1].value
    } else {
        let i = seg_of(kfs, t);
        T::lerp_spec(kfs[i].value, kfs[i + 1].value, eased_progress_spec(kfs[i], kfs[i + 1], t))
    }
}

/// An ordered, non-empty, interpolable value timeline.  Immutable once
/// constructed; its keyframes are always strictly increasing in time.
#[derive(Clone, Debug, PartialEq)]
pub struct Track<T> {
    keyframes: Vec<Keyframe<T>>,
}

impl<T> View for Track<T> {
    type V = Seq<Keyframe<T>>;

    closed spec fn view(&self) -> Seq<Keyframe<T>> {
        self.keyframes@
    }
}

impl<T: Lerp> Track<T> {
    /// Well-formedness: every track built by a constructor satisfies this.
    pub open spec fn wf(self) -> bool {
        track_wf(self@)
    }

    /// Builds a track, rejecting an empty keyframe list and any list whose
    /// times are not strictly increasing.
    pub fn new(keyframes: Vec<Keyframe<T>>) -> (r: Result<Self, RenderError>)
        ensures
            keyframes@.len() == 0 ==> r == Err::<Self, RenderError>(RenderError::EmptyTrack),
            keyframes@.len() > 0 && !times_strictly_increasing(keyframes@) ==> r == Err::<
                Self,
                RenderError,
            >(RenderError::NonIncreasingKeyframes),
            track_wf(keyframes@) ==> (r matches Ok(tr) && tr@ == keyframes@),
            r matches Ok(tr) ==> (tr@ == keyframes@ && tr.wf()),
    {
        if keyframes.len() == 0 {
            return Err(RenderError::EmptyTrack);
        }
        let n = keyframes.len();
        let mut i: usize = 1;
        while i < n
            invariant
                1 <= i <= n,
                n == keyframes@.len(),
                forall|j: int| 0 <= j && j + 1 < i ==> #[trigger] keyframes@[j].time
                    < keyframes@[j + 1].time,
            decreases n - i,
        {
            if keyframes[i].time <= keyframes[i - 1].time {
                return Err(RenderError::NonIncreasingKeyframes);
            }
            i += 1;
        }
        Ok(Self { keyframes })
    }

    /// A single keyframe at time `0` with `Linear` easing: "no animation"
    /// as a degenerate case of the same machinery.
    pub fn from_constant(value: T) -> (r: Self)
        ensures
            r@ =~= seq![
                Keyframe { time: 0, value, easing_to_next: Easing::Linear },
            ],
            r.wf(),
    {
        let mut keyframes: Vec<Keyframe<T>> = Vec::new();
        keyframes.push(Keyframe { time: 0, value, easing_to_next: Easing::Linear });
        Self { keyframes }
    }

    /// Samples the track at time `t` milliseconds.  Total over every `t`:
    /// values outside the keyframe range clamp to the nearest endpoint.
    pub fn sample(&self, t: i64) -> (r: T)
        requires
            self.wf(),
        ensures
            r == sample_spec(self@, t as int),
    {
        let n = self.keyframes.len();
        if t <= self.keyframes[0].time {
            return self.keyframes[0].value;
        }
        if t >= self.keyframes[n - 1].time {
            return self.keyframes[n - 1].value;
        }
        let mut i: usize = 0;
        while t >= self.keyframes[i + 1].time
            invariant
                0 <= i,
                i + 1 < n,
                n == self@.len(),
                self.wf(),
                self@[0].time < t as int,
                (t as int) < self@[n - 1].time,
                self@[i as int].time <= t as int,
            decreases n - i,
        {
            proof {
                if i + 2 == n {
                    assert(self@[i + 1].time == self@[n - 1].time);
                    assert(false);
                }
            }
            i += 1;
        }
        proof {
            assert(in_seg(self@, t as int, i as int));
            lemma_seg_unique(self@, t as int, i as int, seg_of(self@, t as int));
        }
        let k0 = self.keyframes[i];
        let k1 = self.keyframes[i + 1];
        let span: u128 = (k1.time as i128 - k0.time as i128) as u128;
        let dt: u128 = (t as i128 - k0.time as i128) as u128;
        proof {
            assert((dt as int) * 1000 <= 0xffff_ffff_ffff_ffffu128 as int * 1000) by (nonlinear_arith)
                requires dt as int <= 0xffff_ffff_ffff_ffffu128 as int;
            assert((dt as int) * 1000 < (span as int) * 1000) by (nonlinear_arith)
                requires (dt as int) < span as int;
            assert(((dt as int) * 1000) / (span as int) < 1000) by (nonlinear_arith)
                requires (dt as int) * 1000 < (span as int) * 1000, 0 < span as int;
        }
        let u: i64 = ((dt * 1000) / span) as i64;
        let eased = k0.easing_to_next.apply(u);
        T::lerp(k0.value, k1.value, eased)
    }
}

/// Clamping law: sampling at or before the first keyframe yields the first
/// value, and at or after the last keyframe the last value.
pub proof fn lemma_sample_clamps<T: Lerp>(kfs: Seq<Keyframe<T>>, t: int)
    requires
        track_wf(kfs),
    ensures
        t <= kfs[0].time ==> sample_spec(kfs, t) == kfs[0].value,
        t >= kfs[kfs.len() - 1].time ==> sample_spec(kfs, t) == kfs[kfs.len() - 1].value,
{
    if kfs.len() == 1 {
        assert(kfs[0] == kfs[kfs.len() - 1]);
    } else if t <= kfs[0].time && t >= kfs[kfs.len() - 1].time {
        lemma_times_mono(kfs, 0, kfs.len() - 1);
    }
}

/// Constant-track law: a single-keyframe track samples to the same value at
/// every time.
pub proof fn lemma_constant_track<T: Lerp>(kfs: Seq<Keyframe<T>>, t: int)
    requires
        track_wf(kfs),
        kfs.len() == 1,
    ensures
        sample_spec(kfs, t) == kfs[0].value,
{
}

/// Midpoint law: a two-keyframe linear track over `[0, UNIT]` sampled at
/// the middle yields the midpoint interpolation of its two values.
pub proof fn lemma_midpoint<T: Lerp>(kfs: Seq<Keyframe<T>>)
    requires
        track_wf(kfs),
        kfs.len() == 2,
        kfs[0].time == 0,
        kfs[1].time == UNIT as int,
        kfs[0].easing_to_next == Easing::Linear,
    ensures
        sample_spec(kfs, 500) == T::lerp_spec(kfs[0].value, kfs[1].value, 500),
{
    assert(in_seg(kfs, 500, 0));
    lemma_seg_unique(kfs, 500, 0, seg_of(kfs, 500));
    assert(eased_progress_spec(kfs[0], kfs[1], 500) == 500);
}

} // verus!
