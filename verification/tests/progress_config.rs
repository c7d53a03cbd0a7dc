use animrender::config::Config;
use animrender::errors::RenderError;
use animrender::progress::{fmt_u64, format_hms, round_secs, ProgressTracker, RenderProgress};
use animrender::transform::Color;

#[test]
fn decimal_formatting_is_exact() {
    assert_eq!(fmt_u64(0), "0");
    assert_eq!(fmt_u64(7), "7");
    assert_eq!(fmt_u64(10), "10");
    assert_eq!(fmt_u64(1234567), "1234567");
    assert_eq!(fmt_u64(u64::MAX), "18446744073709551615");
}

#[test]
fn hms_formatting_is_exact() {
    assert_eq!(format_hms(0), "00:00:00");
    assert_eq!(format_hms(59), "00:00:59");
    assert_eq!(format_hms(61), "00:01:01");
    assert_eq!(format_hms(3661), "01:01:01");
    assert_eq!(format_hms(360_000), "100:00:00");
}

#[test]
fn rounding_to_seconds_is_half_up() {
    assert_eq!(round_secs(0), 0);
    assert_eq!(round_secs(499), 0);
    assert_eq!(round_secs(500), 1);
    assert_eq!(round_secs(1499), 1);
    assert_eq!(round_secs(1500), 2);
}

fn enabled(every: u32) -> RenderProgress {
    RenderProgress { enabled: true, log_every_frames: every, show_time: true, show_eta: true }
}

#[test]
fn disabled_progress_emits_nothing() {
    let mut tracker = ProgressTracker::new(RenderProgress::default());
    assert!(tracker.on_frame(100, 200, 30, 1000).is_none());
}

#[test]
fn first_window_reports_elapsed_instead_of_eta() {
    let mut tracker = ProgressTracker::new(enabled(1));
    let line = tracker.on_frame(1, 60, 30, 0).unwrap();
    assert_eq!(line, "frames: 1/60 (1.6%) time 00:00:00/00:00:02 elapsed 00:00:00");
}

#[test]
fn completed_window_reports_an_eta() {
    let mut tracker = ProgressTracker::new(enabled(100));
    // 100 frames in 5000 ms: 50 ms per frame; 100 frames remain.
    let line = tracker.on_frame(100, 200, 30, 5000).unwrap();
    assert_eq!(line, "frames: 100/200 (50.0%) time 00:00:03/00:00:07 eta 00:00:05");
}

#[test]
fn cadence_is_respected() {
    let mut tracker = ProgressTracker::new(enabled(10));
    assert!(tracker.on_frame(1, 60, 30, 0).is_none());
    assert!(tracker.on_frame(9, 60, 30, 0).is_none());
    assert!(tracker.on_frame(10, 60, 30, 0).is_some());
    assert!(tracker.on_frame(11, 60, 30, 0).is_none());
    assert!(tracker.on_frame(20, 60, 30, 0).is_some());
}

#[test]
fn progress_without_time_is_counts_only() {
    let mut tracker = ProgressTracker::new(RenderProgress {
        enabled: true,
        log_every_frames: 1,
        show_time: false,
        show_eta: false,
    });
    let line = tracker.on_frame(30, 60, 30, 0).unwrap();
    assert_eq!(line, "frames: 30/60 (50.0%)");
}

#[test]
fn total_frames_multiplies_and_saturates() {
    let mut cfg = Config::default();
    cfg.fps = 30;
    cfg.duration_secs = 60;
    assert_eq!(cfg.total_frames(), 1800);
    cfg.fps = u32::MAX;
    cfg.duration_secs = u32::MAX;
    assert_eq!(cfg.total_frames(), u32::MAX);
}

#[test]
fn output_path_joins_directory_and_name() {
    let mut cfg = Config::default();
    cfg.output_dir = String::from("out");
    cfg.output_name = String::from("a.mp4");
    assert_eq!(cfg.output_path(), "out/a.mp4");
}

#[test]
fn default_config_names_a_timestamped_file() {
    let cfg = Config::default();
    assert_eq!(cfg.width, 800);
    assert_eq!(cfg.height, 600);
    assert_eq!(cfg.fps, 30);
    assert_eq!(cfg.duration_secs, 60);
    assert_eq!(cfg.output_dir, "output");
    assert!(cfg.output_name.starts_with("render_"));
    assert!(cfg.output_name.ends_with(".mp4"));
    assert!(cfg.output_name.len() >= 11);
}

#[test]
fn error_messages_describe_each_failure() {
    assert_eq!(RenderError::EmptyTrack.message(), "track must have at least one keyframe");
    assert_eq!(
        RenderError::NonIncreasingKeyframes.message(),
        "keyframe times must be strictly increasing"
    );
    assert_eq!(
        RenderError::InvalidClipBounds.message(),
        "clip bounds must satisfy 0 <= start < end <= duration"
    );
    assert_eq!(RenderError::NonPositiveDuration.message(), "duration must be > 0");
}

#[test]
fn css_alpha_rounds_half_up() {
    assert_eq!(Color::rgba_css(255, 0, 0, 500).a, 128);
    assert_eq!(Color::rgba_css(255, 0, 0, 0).a, 0);
    assert_eq!(Color::rgba_css(255, 0, 0, 1000).a, 255);
    assert_eq!(Color::rgba_css(255, 0, 0, -7).a, 0);
    assert_eq!(Color::rgba_css(255, 0, 0, 9000).a, 255);
    assert_eq!(Color::rgb(1, 2, 3).a, 255);
    assert_eq!(Color::rgba(1, 2, 3, 4), Color { r: 1, g: 2, b: 3, a: 4 });
}
