//! Progress telemetry for the frame pipeline.
//!
//! Purely observational: the pipeline computes a status line at a
//! configurable frame cadence and hands it to an observer; nothing here
//! affects rendered output or frame ordering.  The per-frame rate estimate
//! rolls over a window of at least `RATE_WINDOW` frames; until the first
//! window completes, elapsed time is reported instead of an ETA.

use vstd::prelude::*;
use vstd::string::*;

verus! {

/// Frames per rolling rate-measurement window.
pub const RATE_WINDOW: u64 = 100;

/// The decimal digit character for `d`.
pub open spec fn digit_char_spec(d: int) -> char {
    if d == 0 {
        '0'
    } else if d == 1 {
        '1'
    } else if d == 2 {
        '2'
    } else if d == 3 {
        '3'
    } else if d == 4 {
        '4'
    } else if d == 5 {
        '5'
    } else if d == 6 {
        '6'
    } else if d == 7 {
        '7'
    } else if d == 8 {
        '8'
    } else {
        '9'
    }
}

/// The decimal digits of `n`, most significant first.
pub open spec fn dec_spec(n: int) -> Seq<char>
    decreases n,
{
    if n < 10 {
        seq![digit_char_spec(n)]
    } else {
        dec_spec(n / 10).push(digit_char_spec(n % 10))
    }
}

/// `n` in decimal, padded with a leading zero to at least two digits.
pub open spec fn pad2_spec(n: int) -> Seq<char> {
    if n < 10 {
        seq!['0'] + dec_spec(n)
    } else {
        dec_spec(n)
    }
}

/// `t` whole seconds as `HH:MM:SS` (hours take more digits when needed).
pub open spec fn hms_spec(t: int) -> Seq<char> {
    pad2_spec(t / 3600) + seq![':'] + pad2_spec((t % 3600) / 60) + seq![':'] + pad2_spec(t % 60)
}

/// The single-character string for decimal digit `d`.
fn digit_str(d: u64) -> (r: &'static str)
    requires
        d < 10,
    ensures
        r@ == seq![digit_char_spec(d as int)],
{
    proof {
        reveal_strlit("0");
        reveal_strlit("1");
        reveal_strlit("2");
        reveal_strlit("3");
        reveal_strlit("4");
        reveal_strlit("5");
        reveal_strlit("6");
        reveal_strlit("7");
        reveal_strlit("8");
        reveal_strlit("9");
    }
    match d {
        0 => "0",
        1 => "1",
        2 => "2",
        3 => "3",
        4 => "4",
        5 => "5",
        6 => "6",
        7 => "7",
        8 => "8",
        _ => "9",
    }
}

/// `n` rendered in decimal.
pub fn fmt_u64(n: u64) -> (r: String)
    ensures
        r@ == dec_spec(n as int),
    decreases n,
{
    if n < 10 {
        digit_str(n).to_owned()
    } else {
        let mut s = fmt_u64(n / 10);
        s.append(digit_str(n % 10));
        s
    }
}

/// `n` rendered in decimal with at least two digits.
pub fn fmt_pad2(n: u64) -> (r: String)
    ensures
        r@ == pad2_spec(n as int),
{
    if n < 10 {
        proof {
            reveal_strlit("0");
        }
        let mut s = "0".to_owned();
        s.append(fmt_u64(n).as_str());
        s
    } else {
        fmt_u64(n)
    }
}

/// `seconds` rendered as `HH:MM:SS`.
pub fn format_hms(seconds: u64) -> (r: String)
    ensures
        r@ == hms_spec(seconds as int),
{
    proof {
        reveal_strlit(":");
    }
    let mut s = fmt_pad2(seconds / 3600);
    s.append(":");
    s.append(fmt_pad2((seconds % 3600) / 60).as_str());
    s.append(":");
    s.append(fmt_pad2(seconds % 60).as_str());
    proof {
        assert(s@ =~= hms_spec(seconds as int));
    }
    s
}

/// Progress reporting configuration.
#[derive(Clone, Copy, Debug, PartialEq, Eq, Structural)]
pub struct RenderProgress {
    pub enabled: bool,
    pub log_every_frames: u32,
    pub show_time: bool,
    pub show_eta: bool,
}

impl Default for RenderProgress {
    /// Disabled; when enabled, reports every 100 frames with timing and
    /// ETA shown.
    fn default() -> (r: Self)
        ensures
            r == (RenderProgress {
                enabled: false,
                log_every_frames: 100,
                show_time: true,
                show_eta: true,
            }),
    {
        Self { enabled: false, log_every_frames: 100, show_time: true, show_eta: true }
    }
}

/// Clamping of an unbounded count into the `u64` range.
pub open spec fn sat_u64_spec(v: int) -> int {
    if v > u64::MAX as int {
        u64::MAX as int
    } else {
        v
    }
}

/// Subtraction of clock readings, saturated at zero against a clock that
/// is not promised to be monotonic.
pub open spec fn elapsed_between_spec(earlier: int, later: int) -> int {
    if later >= earlier {
        later - earlier
    } else {
        0
    }
}

/// Milliseconds rounded to the nearest whole second (saturating near the
/// top of the `u64` range).
pub open spec fn round_secs_spec(ms: int) -> int {
    if ms > u64::MAX as int - 500 {
        (u64::MAX as int) / 1000
    } else {
        (ms + 500) / 1000
    }
}

/// Rounds milliseconds to the nearest whole second.
pub fn round_secs(ms: u64) -> (r: u64)
    ensures
        r as int == round_secs_spec(ms as int),
{
    if ms > u64::MAX - 500 {
        u64::MAX / 1000
    } else {
        (ms + 500) / 1000
    }
}

/// Seconds of output video that `frames` frames cover at `fps`, rounded
/// to the nearest second.
pub open spec fn video_secs_spec(frames: int, fps: int) -> int {
    round_secs_spec((frames * 1000) / fps)
}

/// The ETA in milliseconds: remaining frames at `per_frame_us`
/// microseconds per frame, saturated to the `u64` range.
pub open spec fn eta_ms_spec(remaining: int, per_frame_us: int) -> int {
    sat_u64_spec((remaining * per_frame_us) / 1000)
}

/// The status line for `done` of `total` frames: counts and a percentage
/// in tenths, optionally rendered/total video time as `HH:MM:SS`, and
/// optionally an ETA (or, before a rate estimate exists, elapsed wall
/// time).
pub open spec fn progress_line_spec(
    cfg: RenderProgress,
    done: int,
    total: int,
    fps: int,
    now_ms: int,
    per_frame_us: int,
    have_rate: bool,
) -> Seq<char> {
    let tenths = (done * 1000) / total;
    let head = "frames: "@ + dec_spec(done) + "/"@ + dec_spec(total) + " ("@ + dec_spec(
        tenths / 10,
    ) + "."@ + dec_spec(tenths % 10) + "%)"@;
    let with_time = if cfg.show_time {
        head + " time "@ + hms_spec(video_secs_spec(done, fps)) + "/"@ + hms_spec(
            video_secs_spec(total, fps),
        )
    } else {
        head
    };
    if cfg.show_time && cfg.show_eta {
        if have_rate {
            with_time + " eta "@ + hms_spec(round_secs_spec(eta_ms_spec(total - done, per_frame_us)))
        } else {
            with_time + " elapsed "@ + hms_spec(round_secs_spec(now_ms))
        }
    } else {
        with_time
    }
}

/// The rolling bookkeeping behind progress reporting: the last frame a
/// line was emitted for, the start of the current rate window, and the
/// current per-frame estimate.
pub struct ProgressTracker {
    pub cfg: RenderProgress,
    pub last_progress_frame: u64,
    pub last_window_frame: u64,
    pub window_start_ms: u64,
    pub per_frame_us: u64,
    pub have_rate: bool,
}

impl ProgressTracker {
    /// A fresh tracker at frame zero.
    pub fn new(cfg: RenderProgress) -> (r: Self)
        ensures
            r == (ProgressTracker {
                cfg,
                last_progress_frame: 0,
                last_window_frame: 0,
                window_start_ms: 0,
                per_frame_us: 0,
                have_rate: false,
            }),
    {
        Self {
            cfg,
            last_progress_frame: 0,
            last_window_frame: 0,
            window_start_ms: 0,
            per_frame_us: 0,
            have_rate: false,
        }
    }

    /// Advances the tracker past frame `done` of `total` at wall-clock
    /// reading `now_ms`, rolling the rate window once it holds at least
    /// `RATE_WINDOW` frames, and returns the status line exactly when one
    /// is due.
    pub fn on_frame(&mut self, done: u64, total: u64, fps: u32, now_ms: u64) -> (r: Option<
        String,
    >)
        requires
            1 <= done <= total,
            total <= 0x10_0000_0000_0000u64,
            1 <= fps,
            old(self).last_window_frame <= done,
            old(self).last_progress_frame <= done,
        ensures
            final(self).cfg == old(self).cfg,
            ({
                let rolled = done - old(self).last_window_frame >= RATE_WINDOW;
                &&& rolled ==> {
                    &&& final(self).last_window_frame == done
                    &&& final(self).window_start_ms == now_ms
                    &&& final(self).have_rate
                    &&& final(self).per_frame_us as int == sat_u64_spec(
                        (elapsed_between_spec(old(self).window_start_ms as int, now_ms as int)
                            * 1000) / (done - old(self).last_window_frame),
                    )
                }
                &&& !rolled ==> {
                    &&& final(self).last_window_frame == old(self).last_window_frame
                    &&& final(self).window_start_ms == old(self).window_start_ms
                    &&& final(self).have_rate == old(self).have_rate
                    &&& final(self).per_frame_us == old(self).per_frame_us
                }
            }),
            ({
                let emit = old(self).cfg.enabled && done - old(self).last_progress_frame >= old(
                    self,
                ).cfg.log_every_frames as u64;
                &&& emit ==> {
                    &&& final(self).last_progress_frame == done
                    &&& r matches Some(line) && line@ == progress_line_spec(
                        final(self).cfg,
                        done as int,
                        total as int,
                        fps as int,
                        now_ms as int,
                        final(self).per_frame_us as int,
                        final(self).have_rate,
                    )
                }
                &&& !emit ==> (r is None && final(self).last_progress_frame == old(
                    self,
                ).last_progress_frame)
            }),
    {
        if done - self.last_window_frame >= RATE_WINDOW {
            let window: u64 = done - self.last_window_frame;
            let elapsed: u64 = if now_ms >= self.window_start_ms {
                now_ms - self.window_start_ms
            } else {
                0
            };
            proof {
                assert((elapsed as int) * 1000 <= 0xffff_ffff_ffff_ffffint * 1000)
                    by (nonlinear_arith)
                    requires 0 <= elapsed as int <= 0xffff_ffff_ffff_ffffint;
            }
            let pf: u128 = (elapsed as u128) * 1000 / (window as u128);
            self.per_frame_us = if pf > u64::MAX as u128 {
                u64::MAX
            } else {
                pf as u64
            };
            self.have_rate = true;
            self.last_window_frame = done;
            self.window_start_ms = now_ms;
        }
        if self.cfg.enabled && done - self.last_progress_frame >= self.cfg.log_every_frames as u64 {
            self.last_progress_frame = done;
            let tenths: u64 = done * 1000 / total;
            proof {
                reveal_strlit("frames: ");
                reveal_strlit("/");
                reveal_strlit(" (");
                reveal_strlit(".");
                reveal_strlit("%)");
                reveal_strlit(" time ");
                reveal_strlit(" eta ");
                reveal_strlit(" elapsed ");
            }
            let mut line = "frames: ".to_owned();
            line.append(fmt_u64(done).as_str());
            line.append("/");
            line.append(fmt_u64(total).as_str());
            line.append(" (");
            line.append(fmt_u64(tenths / 10).as_str());
            line.append(".");
            line.append(fmt_u64(tenths % 10).as_str());
            line.append("%)");
            if self.cfg.show_time {
                let rendered: u64 = round_secs(done * 1000 / (fps as u64));
                let total_secs: u64 = round_secs(total * 1000 / (fps as u64));
                line.append(" time ");
                line.append(format_hms(rendered).as_str());
                line.append("/");
                line.append(format_hms(total_secs).as_str());
                if self.cfg.show_eta {
                    if self.have_rate {
                        let remaining: u64 = total - done;
                        proof {
                            assert((remaining as int) * (self.per_frame_us as int)
                                <= 0x10_0000_0000_0000int * 0xffff_ffff_ffff_ffffint)
                                by (nonlinear_arith)
                                requires
                                    0 <= remaining as int <= 0x10_0000_0000_0000int,
                                    0 <= self.per_frame_us as int <= 0xffff_ffff_ffff_ffffint;
                        }
                        let eta128: u128 = (remaining as u128) * (self.per_frame_us as u128)
                            / 1000;
                        let eta_ms: u64 = if eta128 > u64::MAX as u128 {
                            u64::MAX
                        } else {
                            eta128 as u64
                        };
                        let eta_secs: u64 = round_secs(eta_ms);
                        line.append(" eta ");
                        line.append(format_hms(eta_secs).as_str());
                    } else {
                        let elapsed_secs: u64 = round_secs(now_ms);
                        line.append(" elapsed ");
                        line.append(format_hms(elapsed_secs).as_str());
                    }
                }
            }
            proof {
                assert(line@ =~= progress_line_spec(
                    self.cfg,
                    done as int,
                    total as int,
                    fps as int,
                    now_ms as int,
                    self.per_frame_us as int,
                    self.have_rate,
                ));
            }
            Some(line)
        } else {
            None
        }
    }
}

} // verus!
