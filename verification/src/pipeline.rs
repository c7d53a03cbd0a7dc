//! The frame production pipeline.
//!
//! Drives timeline sampling across a half-open window `[start, end)` at
//! the timeline's frame rate, plans each frame's drawing commands, hands
//! them to an external backend for rasterization and capture, checks the
//! captured buffer's size, and delivers `(timestamp, buffer)` pairs to a
//! sink in strictly increasing time order.  One frame is produced, handed
//! over, and only then is the next begun, so a slow sink throttles
//! rendering.

use vstd::arithmetic::div_mod::{
    lemma_div_is_ordered, lemma_div_multiples_vanish, lemma_div_nonincreasing, lemma_div_plus_one,
    lemma_div_pos_is_pos, lemma_fundamental_div_mod,
};
use vstd::prelude::*;

use crate::draw::{lemma_scene_indices_ok, plan_frame, DrawCmd};
use crate::errors::RenderError;
use crate::progress::{ProgressTracker, RenderProgress};
use crate::timeline::Timeline;
use crate::transform::Color;

verus! {

/// The most frames one run can produce: the longest timeline at the
/// highest frame rate.
pub const MAX_FRAMES: u64 = 1_000_000_000_000;

/// Validity of a render window against a timeline duration.
pub open spec fn window_ok(start: int, end: int, duration: int) -> bool {
    0 <= start && start < end && end <= duration
}

/// The number of frames covering `[start, end)` at `fps`:
/// `floor((end - start) * fps / 1000)`.
pub open spec fn frame_count_spec(start: int, end: int, fps: int) -> int {
    ((end - start) * fps) / 1000
}

/// The timestamp of frame `i`: `start + i/fps` seconds on the millisecond
/// grid.
pub open spec fn frame_time_spec(start: int, i: int, fps: int) -> int {
    start + (i * 1000) / fps
}

/// Computes the frame count for a window at a frame rate.
pub fn frame_count(start_ms: i64, end_ms: i64, fps: u32) -> (r: u64)
    requires
        0 <= start_ms < end_ms <= crate::timeline::MAX_DURATION_MS,
        1 <= fps <= crate::timeline::MAX_FPS,
    ensures
        r as int == frame_count_spec(start_ms as int, end_ms as int, fps as int),
        r <= MAX_FRAMES,
{
    let d: u128 = (end_ms - start_ms) as u128;
    proof {
        assert((d as int) * (fps as int) <= 1000000000000int * 1000) by (nonlinear_arith)
            requires 0 <= d as int <= 1000000000000int, 0 <= fps as int <= 1000;
        lemma_div_is_ordered((d as int) * (fps as int), 1000000000000000int, 1000);
    }
    ((d * (fps as u128)) / 1000) as u64
}

/// Computes the timestamp of frame `i`.
pub fn frame_time(start_ms: i64, i: u64, fps: u32) -> (r: i64)
    requires
        0 <= start_ms <= crate::timeline::MAX_DURATION_MS,
        i <= MAX_FRAMES,
        1 <= fps,
    ensures
        r as int == frame_time_spec(start_ms as int, i as int, fps as int),
{
    proof {
        assert((i as int) * 1000 <= 1000000000000000int) by (nonlinear_arith)
            requires 0 <= i as int <= 1000000000000int;
        lemma_div_nonincreasing((i as int) * 1000, fps as int);
        lemma_div_pos_is_pos((i as int) * 1000, fps as int);
    }
    start_ms + (((i as u128) * 1000) / (fps as u128)) as i64
}

/// The byte length of one packed RGBA8 frame.
pub open spec fn frame_len_spec(width: int, height: int) -> int {
    width * height * 4
}

/// Checks a captured buffer against the surface size: accepted exactly
/// when its byte length equals `width * height * 4`; anything else is a
/// fatal capture fault.
pub fn check_frame_len(rgba: &Vec<u8>, width: u32, height: u32) -> (r: Result<(), RenderError>)
    ensures
        r is Ok <==> rgba@.len() == frame_len_spec(width as int, height as int),
        r is Err ==> r == Err::<(), RenderError>(RenderError::FrameSizeMismatch),
{
    proof {
        assert((width as int) * (height as int) * 4 <= 0x1_0000_0000int * 0x1_0000_0000int * 4)
            by (nonlinear_arith)
            requires
                0 <= width as int <= 0x1_0000_0000int,
                0 <= height as int <= 0x1_0000_0000int;
    }
    let expected: u128 = (width as u128) * (height as u128) * 4;
    if (rgba.len() as u128) == expected {
        Ok(())
    } else {
        Err(RenderError::FrameSizeMismatch)
    }
}

/// Frame timestamps strictly increase: on the millisecond grid this holds
/// because the frame rate never exceeds one frame per millisecond.
pub proof fn lemma_frame_times_increasing(start: int, i: int, fps: int)
    requires
        0 <= i,
        1 <= fps <= 1000,
    ensures
        frame_time_spec(start, i, fps) < frame_time_spec(start, i + 1, fps),
{
    let a = i * 1000;
    assert((i + 1) * 1000 == i * 1000 + 1000) by (nonlinear_arith);
    lemma_div_plus_one(a, fps);
    lemma_div_is_ordered(a + fps, a + 1000, fps);
}

/// Every frame of a valid window is sampled strictly inside the window:
/// `start <= t_i < end`.
pub proof fn lemma_frame_time_in_window(start: int, end: int, duration: int, i: int, fps: int)
    requires
        window_ok(start, end, duration),
        1 <= fps <= 1000,
        0 <= i < frame_count_spec(start, end, fps),
    ensures
        start <= frame_time_spec(start, i, fps) < end,
{
    let d = end - start;
    let q = (d * fps) / 1000;
    lemma_div_pos_is_pos(i * 1000, fps);
    lemma_fundamental_div_mod(d * fps, 1000);
    assert(q * 1000 <= d * fps) by (nonlinear_arith)
        requires d * fps == 1000 * q + (d * fps) % 1000, 0 <= (d * fps) % 1000;
    assert(i * 1000 <= (q - 1) * 1000) by (nonlinear_arith)
        requires i <= q - 1;
    assert((d - 1) * fps == d * fps - fps) by (nonlinear_arith);
    assert(i * 1000 <= (d - 1) * fps);
    lemma_div_is_ordered(i * 1000, (d - 1) * fps, fps);
    assert((d - 1) * fps == fps * (d - 1)) by (nonlinear_arith);
    lemma_div_multiples_vanish(d - 1, fps);
}

/// The drawing backend capability: executes one frame's command list
/// against a pixel surface and returns the captured RGBA8 bytes, and
/// exposes a cooperative stop signal checked once per frame boundary.
pub trait RenderBackend {
    /// Prepares referenced resources, clears, draws every command in
    /// order, and captures the surface as packed RGBA8 bytes.
    fn render_frame(&mut self, cmds: &Vec<DrawCmd>) -> Result<Vec<u8>, RenderError>;

    /// Whether the run should stop cleanly before the next frame.
    fn should_stop(&mut self) -> bool;
}

/// The encoder sink capability: accepts one finished frame at a time.
pub trait FrameSink {
    /// Accepts the frame for timestamp `t_ms`; may block.
    fn accept_frame(&mut self, t_ms: i64, frame: &Vec<u8>) -> Result<(), RenderError>;
}

/// A wall-clock reading for progress telemetry; not promised to be
/// monotonic, and never affecting rendered output.
pub trait WallClock {
    /// Milliseconds elapsed since some fixed origin.
    fn elapsed_ms(&mut self) -> u64;
}

/// Receives progress status lines.
pub trait ProgressObserver {
    /// Called with each status line that falls due.
    fn on_progress(&mut self, line: &String);
}

/// A clock and observer for runs without progress reporting.
pub struct NoProgress;

impl WallClock for NoProgress {
    fn elapsed_ms(&mut self) -> u64 {
        0
    }
}

impl ProgressObserver for NoProgress {
    fn on_progress(&mut self, _line: &String) {
    }
}

/// What a finished run produced.
#[derive(Clone, Copy, Debug, PartialEq, Eq, Structural)]
pub struct RunStats {
    /// Frames handed to the sink.
    pub frames_emitted: u64,
    /// Whether the run ended early on the cooperative stop signal.
    pub stopped: bool,
}

/// Renders `[start_ms, end_ms)` of the timeline at its frame rate,
/// reporting progress.  Rejects an invalid window; otherwise emits
/// exactly `frame_count` frames in strictly increasing time order unless
/// the backend requests a stop or the backend, capture size check or sink
/// fails.  A valid window too short for a single frame succeeds at once,
/// with nothing asked of the backend or sink.
pub fn render_timeline_rgba_with_progress<B: RenderBackend, S: FrameSink, C: WallClock, O: ProgressObserver>(
    timeline: &Timeline,
    start_ms: i64,
    end_ms: i64,
    width: u32,
    height: u32,
    bg: Color,
    progress: RenderProgress,
    backend: &mut B,
    sink: &mut S,
    clock: &mut C,
    observer: &mut O,
) -> (r: Result<RunStats, RenderError>)
    requires
        timeline.wf(),
    ensures
        !window_ok(start_ms as int, end_ms as int, timeline.duration_ms as int) <==> r == Err::<
            RunStats,
            RenderError,
        >(RenderError::InvalidRenderWindow),
        r matches Ok(st) ==> {
            let total = frame_count_spec(start_ms as int, end_ms as int, timeline.fps as int);
            &&& st.frames_emitted as int <= total
            &&& (st.stopped || st.frames_emitted as int == total)
        },
        window_ok(start_ms as int, end_ms as int, timeline.duration_ms as int) ==> (r is Ok || r
            == Err::<RunStats, RenderError>(RenderError::Backend) || r == Err::<
            RunStats,
            RenderError,
        >(RenderError::Sink) || r == Err::<RunStats, RenderError>(RenderError::FrameSizeMismatch)),
        window_ok(start_ms as int, end_ms as int, timeline.duration_ms as int)
            && frame_count_spec(start_ms as int, end_ms as int, timeline.fps as int) == 0 ==> r
            == Ok::<RunStats, RenderError>(RunStats { frames_emitted: 0, stopped: false }),
{
    if start_ms < 0 || end_ms <= start_ms || end_ms > timeline.duration_ms {
        return Err(RenderError::InvalidRenderWindow);
    }
    let frames = frame_count(start_ms, end_ms, timeline.fps);
    let mut tracker = ProgressTracker::new(progress);
    let mut i: u64 = 0;
    let mut stopped = false;
    while i < frames && !stopped
        invariant
            timeline.wf(),
            window_ok(start_ms as int, end_ms as int, timeline.duration_ms as int),
            frames as int == frame_count_spec(start_ms as int, end_ms as int, timeline.fps as int),
            frames <= MAX_FRAMES,
            0 <= i <= frames,
            stopped ==> 0 < frames,
            tracker.last_window_frame <= i,
            tracker.last_progress_frame <= i,
        decreases (if stopped { 0int } else { 1int }), frames - i,
    {
        if backend.should_stop() {
            stopped = true;
        } else {
        let t = frame_time(start_ms, i, timeline.fps);
        proof {
            lemma_frame_time_in_window(
                start_ms as int,
                end_ms as int,
                timeline.duration_ms as int,
                i as int,
                timeline.fps as int,
            );
        }
        let scene = match timeline.sample(t) {
            Ok(s) => s,
            Err(e) => {
                return Err(e);
            },
        };
        proof {
            lemma_scene_indices_ok(*timeline, scene, t as int);
        }
        let cmds = plan_frame(timeline, &scene, width, height, bg);
        let rgba = match backend.render_frame(&cmds) {
            Ok(v) => v,
            Err(_) => {
                return Err(RenderError::Backend);
            },
        };
        match check_frame_len(&rgba, width, height) {
            Ok(_) => {},
            Err(e) => {
                return Err(e);
            },
        }
        match sink.accept_frame(t, &rgba) {
            Ok(_) => {},
            Err(_) => {
                return Err(RenderError::Sink);
            },
        }
        i = i + 1;
        let now = clock.elapsed_ms();
        let line = tracker.on_frame(i, frames, timeline.fps, now);
        match line {
            Some(l) => observer.on_progress(&l),
            None => {},
        }
        }
    }
    Ok(RunStats { frames_emitted: i, stopped })
}

/// Renders `[start_ms, end_ms)` of the timeline with progress reporting
/// disabled.
pub fn render_timeline_rgba<B: RenderBackend, S: FrameSink>(
    timeline: &Timeline,
    start_ms: i64,
    end_ms: i64,
    width: u32,
    height: u32,
    bg: Color,
    backend: &mut B,
    sink: &mut S,
) -> (r: Result<RunStats, RenderError>)
    requires
        timeline.wf(),
    ensures
        !window_ok(start_ms as int, end_ms as int, timeline.duration_ms as int) <==> r == Err::<
            RunStats,
            RenderError,
        >(RenderError::InvalidRenderWindow),
        r matches Ok(st) ==> {
            let total = frame_count_spec(start_ms as int, end_ms as int, timeline.fps as int);
            &&& st.frames_emitted as int <= total
            &&& (st.stopped || st.frames_emitted as int == total)
        },
        window_ok(start_ms as int, end_ms as int, timeline.duration_ms as int) ==> (r is Ok || r
            == Err::<RunStats, RenderError>(RenderError::Backend) || r == Err::<
            RunStats,
            RenderError,
        >(RenderError::Sink) || r == Err::<RunStats, RenderError>(RenderError::FrameSizeMismatch)),
        window_ok(start_ms as int, end_ms as int, timeline.duration_ms as int)
            && frame_count_spec(start_ms as int, end_ms as int, timeline.fps as int) == 0 ==> r
            == Ok::<RunStats, RenderError>(RunStats { frames_emitted: 0, stopped: false }),
{
    let mut clock = NoProgress;
    let mut observer = NoProgress;
    let progress = RenderProgress { enabled: false, log_every_frames: 100, show_time: true, show_eta: true };
    render_timeline_rgba_with_progress(
        timeline,
        start_ms,
        end_ms,
        width,
        height,
        bg,
        progress,
        backend,
        sink,
        &mut clock,
        &mut observer,
    )
}

} // verus!
