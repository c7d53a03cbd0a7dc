//! Layers, the timeline, and per-instant sampled scenes.
//!
//! `Timeline::sample` is a pure query: for an instant inside the duration
//! it resolves, per layer and in draw order, every active clip together
//! with its clip-local time and sampled pose.  Sampled scenes reference
//! clips by index into the timeline's own storage.

use vstd::prelude::*;

use crate::clip::Clip;
use crate::errors::RenderError;
use crate::transform::{transform_sample_spec, Transform};

verus! {

/// The highest supported frame rate: one frame per millisecond, the
/// resolution of the fixed-point time grid.
pub const MAX_FPS: u32 = 1000;

/// The longest supported timeline, in milliseconds; keeps every frame
/// count and timestamp product inside the machine range.
pub const MAX_DURATION_MS: i64 = 1_000_000_000_000;

/// An ordered sequence of clips; order defines back-to-front draw order
/// (later clips draw on top).
#[derive(Clone, Debug, PartialEq)]
pub struct Layer {
    pub clips: Vec<Clip>,
}

impl Layer {
    /// A layer over the given clips, in draw order.
    pub fn new(clips: Vec<Clip>) -> (r: Layer)
        ensures
            r.clips == clips,
    {
        Layer { clips }
    }
}

/// One currently-active clip in a sampled scene: the index of the clip in
/// its layer, its clip-local time, and its pose at that time.
#[derive(Clone, Copy, Debug, PartialEq, Eq, Structural)]
pub struct ActiveClip {
    pub clip_index: usize,
    pub local_ms: i64,
    pub transform: Transform,
}

/// The active clips of one layer at one instant, in draw order.
#[derive(Clone, Debug, PartialEq)]
pub struct SampledLayer {
    pub items: Vec<ActiveClip>,
}

/// A transient, per-instant snapshot of the whole scene: for every layer,
/// the currently-active clips with their resolved poses.  Created and
/// discarded once per frame.
#[derive(Clone, Debug, PartialEq)]
pub struct SampledScene {
    pub layers: Vec<SampledLayer>,
}

/// The active clips of a clip sequence at time `t`, in order: each active
/// clip contributes its index, its local time `t - start`, and its
/// transform sampled at that local time.
pub open spec fn active_items_spec(clips: Seq<Clip>, t: int) -> Seq<ActiveClip>
    decreases clips.len(),
{
    if clips.len() == 0 {
        Seq::empty()
    } else {
        let prefix = active_items_spec(clips.drop_last(), t);
        let c = clips.last();
        if c.start <= t && t < c.end {
            prefix.push(
                ActiveClip {
                    clip_index: (clips.len() - 1) as usize,
                    local_ms: (t - c.start) as i64,
                    transform: transform_sample_spec(c.transform, t - c.start),
                },
            )
        } else {
            prefix
        }
    }
}

/// `scene` is exactly the snapshot of `tl` at time `t`.
pub open spec fn scene_matches(tl: Timeline, scene: SampledScene, t: int) -> bool {
    scene.layers@.len() == tl.layers@.len() && forall|l: int|
        0 <= l < tl.layers@.len() ==> #[trigger] scene.layers@[l].items@ == active_items_spec(
            tl.layers@[l].clips@,
            t,
        )
}

/// A fixed frame rate, a duration in milliseconds, and an ordered sequence
/// of layers.  Immutable for the duration of a render pass.
#[derive(Clone, Debug, PartialEq)]
pub struct Timeline {
    pub fps: u32,
    pub duration_ms: i64,
    pub layers: Vec<Layer>,
}

impl Timeline {
    /// Well-formedness: frame rate and duration inside the supported
    /// range, and every clip of every layer well-formed against the
    /// duration.
    pub open spec fn wf(self) -> bool {
        &&& 1 <= self.fps <= MAX_FPS
        &&& 0 < self.duration_ms <= MAX_DURATION_MS
        &&& forall|l: int, c: int|
            0 <= l < self.layers@.len() && 0 <= c < self.layers@[l].clips@.len()
                ==> (#[trigger] self.layers@[l].clips@[c]).wf(self.duration_ms as int)
    }

    /// Builds a timeline, rejecting a frame rate or duration outside the
    /// supported range.
    pub fn new(fps: u32, duration_ms: i64, layers: Vec<Layer>) -> (r: Result<
        Timeline,
        RenderError,
    >)
        requires
            forall|l: int, c: int|
                0 <= l < layers@.len() && 0 <= c < layers@[l].clips@.len()
                    ==> (#[trigger] layers@[l].clips@[c]).wf(duration_ms as int),
        ensures
            !(1 <= fps <= MAX_FPS && 0 < duration_ms <= MAX_DURATION_MS) ==> r == Err::<
                Timeline,
                RenderError,
            >(RenderError::InvalidTimelineParams),
            1 <= fps <= MAX_FPS && 0 < duration_ms <= MAX_DURATION_MS ==> (r matches Ok(tl)
                && tl == (Timeline { fps, duration_ms, layers }) && tl.wf()),
    {
        if fps < 1 || fps > MAX_FPS || duration_ms <= 0 || duration_ms > MAX_DURATION_MS {
            return Err(RenderError::InvalidTimelineParams);
        }
        Ok(Timeline { fps, duration_ms, layers })
    }

    /// Samples the whole timeline at time `t` milliseconds.  Fails exactly
    /// when `t` is outside `[0, duration)`; otherwise returns the snapshot
    /// of every layer's active clips in draw order.
    pub fn sample(&self, t: i64) -> (r: Result<SampledScene, RenderError>)
        requires
            self.wf(),
        ensures
            !(0 <= t < self.duration_ms) ==> r == Err::<SampledScene, RenderError>(
                RenderError::TimeOutOfRange,
            ),
            0 <= t < self.duration_ms ==> (r matches Ok(s) && scene_matches(*self, s, t as int)),
    {
        if t < 0 || t >= self.duration_ms {
            return Err(RenderError::TimeOutOfRange);
        }
        let mut out_layers: Vec<SampledLayer> = Vec::new();
        let mut l: usize = 0;
        while l < self.layers.len()
            invariant
                0 <= l <= self.layers@.len(),
                self.wf(),
                0 <= t < self.duration_ms,
                out_layers@.len() == l,
                forall|ll: int|
                    0 <= ll < l ==> #[trigger] out_layers@[ll].items@ == active_items_spec(
                        self.layers@[ll].clips@,
                        t as int,
                    ),
            decreases self.layers@.len() - l,
        {
            let clips = &self.layers[l].clips;
            let mut items: Vec<ActiveClip> = Vec::new();
            let mut c: usize = 0;
            proof {
                assert(clips@.take(0) =~= Seq::<Clip>::empty());
            }
            while c < clips.len()
                invariant
                    0 <= c <= clips@.len(),
                    self.wf(),
                    0 <= l < self.layers@.len(),
                    clips@ == self.layers@[l as int].clips@,
                    0 <= t < self.duration_ms,
                    items@ == active_items_spec(clips@.take(c as int), t as int),
                decreases clips@.len() - c,
            {
                let clip = &clips[c];
                proof {
                    assert(self.layers@[l as int].clips@[c as int].wf(self.duration_ms as int));
                }
                if clip.is_active(t) {
                    let lt = t - clip.start;
                    let tr = clip.transform.sample(lt);
                    items.push(ActiveClip { clip_index: c, local_ms: lt, transform: tr });
                }
                proof {
                    assert(clips@.take(c as int + 1).drop_last() =~= clips@.take(c as int));
                    assert(clips@.take(c as int + 1).last() == clips@[c as int]);
                }
                c += 1;
            }
            proof {
                assert(clips@.take(clips@.len() as int) =~= clips@);
            }
            out_layers.push(SampledLayer { items });
            l += 1;
        }
        Ok(SampledScene { layers: out_layers })
    }
}

/// Every item of an active-clip snapshot indexes a clip of the sequence it
/// was sampled from, is active at `t`, and carries that clip's local time
/// and sampled pose.
pub proof fn lemma_active_items_sound(clips: Seq<Clip>, t: int, k: int)
    requires
        clips.len() <= usize::MAX,
        0 <= t <= i64::MAX as int,
        forall|i: int| 0 <= i < clips.len() ==> 0 <= (#[trigger] clips[i]).start,
        0 <= k < active_items_spec(clips, t).len(),
    ensures
        ({
            let item = active_items_spec(clips, t)[k];
            &&& item.clip_index < clips.len()
            &&& clips[item.clip_index as int].start <= t < clips[item.clip_index as int].end
            &&& item.local_ms == t - clips[item.clip_index as int].start
            &&& item.transform == transform_sample_spec(
                clips[item.clip_index as int].transform,
                t - clips[item.clip_index as int].start,
            )
        }),
    decreases clips.len(),
{
    if clips.len() > 0 {
        let prefix = active_items_spec(clips.drop_last(), t);
        if k < prefix.len() {
            lemma_active_items_sound(clips.drop_last(), t, k);
            let idx = prefix[k].clip_index as int;
            assert(clips.drop_last()[idx] == clips[idx]);
            assert(active_items_spec(clips, t)[k] == prefix[k]);
        } else {
            let c = clips.last();
            if c.start <= t && t < c.end {
                assert(active_items_spec(clips, t)[k] == ActiveClip {
                    clip_index: (clips.len() - 1) as usize,
                    local_ms: (t - c.start) as i64,
                    transform: transform_sample_spec(c.transform, t - c.start),
                });
                assert(clips[(clips.len() - 1) as usize as int] == c);
            }
        }
    }
}

} // verus!
