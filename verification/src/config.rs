//! Render run configuration.

use vstd::prelude::*;
use vstd::string::*;

verus! {

/// Output dimensions, frame rate, run length and output location for one
/// render run.
#[derive(Clone, Debug)]
pub struct Config {
    pub width: u32,
    pub height: u32,
    pub fps: u32,
    pub duration_secs: u32,
    pub output_dir: String,
    pub output_name: String,
}

/// `fps * duration`, saturated to the `u32` range.
pub open spec fn total_frames_spec(fps: int, duration_secs: int) -> int {
    if fps * duration_secs > u32::MAX as int {
        u32::MAX as int
    } else {
        fps * duration_secs
    }
}

impl Config {
    /// The total number of frames the run covers, saturating on overflow.
    pub fn total_frames(&self) -> (r: u32)
        ensures
            r as int == total_frames_spec(self.fps as int, self.duration_secs as int),
    {
        proof {
            assert((self.fps as int) * (self.duration_secs as int) <= 0xffff_ffffint
                * 0xffff_ffffint) by (nonlinear_arith)
                requires
                    0 <= self.fps as int <= 0xffff_ffffint,
                    0 <= self.duration_secs as int <= 0xffff_ffffint;
        }
        let p: u64 = (self.fps as u64) * (self.duration_secs as u64);
        if p > u32::MAX as u64 {
            u32::MAX
        } else {
            p as u32
        }
    }

    /// The full output path: the output directory, a separator, and the
    /// output file name.
    pub fn output_path(&self) -> (r: String)
        ensures
            r@ == self.output_dir@ + seq!['/'] + self.output_name@,
    {
        proof {
            reveal_strlit("/");
            assert("/"@ =~= seq!['/']);
        }
        let mut s = self.output_dir.clone();
        s.append("/");
        s.append(self.output_name.as_str());
        s
    }
}

/// Relies on chrono's `Utc::now` and `DateTime::format` for a compact
/// `YYYYMMDD_HHMMSS` UTC wall-clock timestamp.  The value depends on the
/// time of the call, so nothing is promised of it.
#[verifier::external_body]
fn utc_timestamp_compact() -> String {
    chrono::Utc::now().format("%Y%m%d_%H%M%S").to_string()
}

impl Default for Config {
    /// 800x600 at 30 fps for one minute, written under `output` with a
    /// timestamped `.mp4` file name.
    fn default() -> (r: Self)
        ensures
            r.width == 800,
            r.height == 600,
            r.fps == 30,
            r.duration_secs == 60,
            r.output_dir@ == "output"@,
            r.output_name@.len() >= 11,
            r.output_name@.subrange(0, 7) == "render_"@,
            r.output_name@.subrange(
                r.output_name@.len() as int - 4,
                r.output_name@.len() as int,
            ) == ".mp4"@,
    {
        proof {
            reveal_strlit("render_");
            reveal_strlit(".mp4");
        }
        let timestamp = utc_timestamp_compact();
        let mut name = "render_".to_owned();
        name.append(timestamp.as_str());
        name.append(".mp4");
        proof {
            assert(name@.subrange(0, 7) =~= "render_"@);
            assert(name@.subrange(name@.len() as int - 4, name@.len() as int) =~= ".mp4"@);
        }
        Self {
            width: 800,
            height: 600,
            fps: 30,
            duration_secs: 60,
            output_dir: "output".to_owned(),
            output_name: name,
        }
    }
}

} // verus!
