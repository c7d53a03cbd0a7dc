use animrender::animation::{Easing, Keyframe, Track};
use animrender::clip::Clip;
use animrender::draw::{composite_alpha, graph_to_screen, image_dest_size, plan_frame, DrawCmd};
use animrender::errors::RenderError;
use animrender::object::{Object, Shape};
use animrender::pipeline::{
    check_frame_len, frame_count, frame_time, render_timeline_rgba, FrameSink, RenderBackend,
};
use animrender::timeline::{Layer, Timeline};
use animrender::transform::{AnimatedTransform, Color, Transform, Vec2};

fn red_circle() -> Object {
    Object::Shape(Shape::Circle { radius: 50_000, color: Color::rgb(255, 0, 0) })
}

fn still() -> AnimatedTransform {
    AnimatedTransform::constant(Transform::default())
}

struct FakeBackend {
    len: usize,
    stop_at: Option<u64>,
    rendered: u64,
}

impl RenderBackend for FakeBackend {
    fn render_frame(&mut self, _cmds: &Vec<DrawCmd>) -> Result<Vec<u8>, RenderError> {
        self.rendered += 1;
        Ok(vec![0u8; self.len])
    }

    fn should_stop(&mut self) -> bool {
        match self.stop_at {
            Some(n) => self.rendered >= n,
            None => false,
        }
    }
}

struct RecordingSink {
    timestamps: Vec<i64>,
}

impl FrameSink for RecordingSink {
    fn accept_frame(&mut self, t_ms: i64, frame: &Vec<u8>) -> Result<(), RenderError> {
        assert!(!frame.is_empty());
        self.timestamps.push(t_ms);
        Ok(())
    }
}

fn demo_timeline(duration_ms: i64, fps: u32) -> Timeline {
    let clip = Clip::new(0, duration_ms, red_circle(), still(), duration_ms).unwrap();
    Timeline::new(fps, duration_ms, vec![Layer::new(vec![clip])]).unwrap()
}

#[test]
fn two_seconds_at_thirty_fps_is_sixty_frames() {
    assert_eq!(frame_count(0, 2000, 30), 60);
    assert_eq!(frame_time(0, 0, 30), 0);
    assert_eq!(frame_time(0, 1, 30), 33);
    assert_eq!(frame_time(0, 2, 30), 66);
    assert_eq!(frame_time(0, 59, 30), 1966);
}

#[test]
fn pipeline_emits_every_frame_in_order() {
    let tl = demo_timeline(2000, 30);
    let mut backend = FakeBackend { len: 8 * 6 * 4, stop_at: None, rendered: 0 };
    let mut sink = RecordingSink { timestamps: vec![] };
    let stats = render_timeline_rgba(&tl, 0, 2000, 8, 6, Color::black(), &mut backend, &mut sink)
        .unwrap();
    assert_eq!(stats.frames_emitted, 60);
    assert!(!stats.stopped);
    assert_eq!(sink.timestamps.len(), 60);
    assert_eq!(sink.timestamps[0], 0);
    assert_eq!(sink.timestamps[1], 33);
    for w in sink.timestamps.windows(2) {
        assert!(w[0] < w[1]);
    }
}

#[test]
fn pipeline_rejects_invalid_windows() {
    let tl = demo_timeline(2000, 30);
    let mut backend = FakeBackend { len: 8 * 6 * 4, stop_at: None, rendered: 0 };
    let mut sink = RecordingSink { timestamps: vec![] };
    let r = render_timeline_rgba(&tl, -1, 2000, 8, 6, Color::black(), &mut backend, &mut sink);
    assert_eq!(r.unwrap_err(), RenderError::InvalidRenderWindow);
    let r = render_timeline_rgba(&tl, 500, 500, 8, 6, Color::black(), &mut backend, &mut sink);
    assert_eq!(r.unwrap_err(), RenderError::InvalidRenderWindow);
    let r = render_timeline_rgba(&tl, 0, 2001, 8, 6, Color::black(), &mut backend, &mut sink);
    assert_eq!(r.unwrap_err(), RenderError::InvalidRenderWindow);
}

#[test]
fn pipeline_aborts_on_capture_size_mismatch() {
    let tl = demo_timeline(2000, 30);
    let mut backend = FakeBackend { len: 3, stop_at: None, rendered: 0 };
    let mut sink = RecordingSink { timestamps: vec![] };
    let r = render_timeline_rgba(&tl, 0, 2000, 8, 6, Color::black(), &mut backend, &mut sink);
    assert_eq!(r.unwrap_err(), RenderError::FrameSizeMismatch);
    assert!(sink.timestamps.is_empty());
}

#[test]
fn pipeline_stops_cleanly_on_request() {
    let tl = demo_timeline(2000, 30);
    let mut backend = FakeBackend { len: 8 * 6 * 4, stop_at: Some(10), rendered: 0 };
    let mut sink = RecordingSink { timestamps: vec![] };
    let stats = render_timeline_rgba(&tl, 0, 2000, 8, 6, Color::black(), &mut backend, &mut sink)
        .unwrap();
    assert!(stats.stopped);
    assert_eq!(stats.frames_emitted, 10);
    assert_eq!(sink.timestamps.len(), 10);
}

#[test]
fn halfway_opacity_composites_to_alpha_128() {
    let opacity = Track::new(vec![
        Keyframe::new(0, 1000i64, Easing::Linear),
        Keyframe::new(1000, 0i64, Easing::Linear),
    ])
    .unwrap();
    let transform = AnimatedTransform {
        position: Track::from_constant(Vec2 { x: 0, y: 0 }),
        scale: Track::from_constant(Vec2 { x: 1000, y: 1000 }),
        rotation: Track::from_constant(0),
        opacity,
    };
    let clip = Clip::new(0, 1000, red_circle(), transform, 1000).unwrap();
    let tl = Timeline::new(30, 1000, vec![Layer::new(vec![clip])]).unwrap();
    let scene = tl.sample(500).unwrap();
    assert_eq!(scene.layers[0].items[0].transform.opacity, 500);
    let cmds = plan_frame(&tl, &scene, 800, 600, Color::black());
    assert_eq!(cmds.len(), 2);
    assert_eq!(cmds[0], DrawCmd::Clear { color: Color::black() });
    match &cmds[1] {
        DrawCmd::Circle { center, radius, color } => {
            assert_eq!(*center, Vec2 { x: 400_000, y: 300_000 });
            assert_eq!(*radius, 50_000);
            assert_eq!(*color, Color::rgba(255, 0, 0, 128));
        },
        other => panic!("expected a circle, got {:?}", other),
    }
}

#[test]
fn composite_alpha_rounds_half_up() {
    assert_eq!(composite_alpha(255, 500), 128);
    assert_eq!(composite_alpha(255, 1000), 255);
    assert_eq!(composite_alpha(255, 0), 0);
    assert_eq!(composite_alpha(255, -100), 0);
    assert_eq!(composite_alpha(255, 5000), 255);
    assert_eq!(composite_alpha(0, 700), 0);
}

#[test]
fn screen_mapping_centers_and_flips_y() {
    let c = graph_to_screen(Vec2 { x: 0, y: 0 }, 800, 600);
    assert_eq!(c, Vec2 { x: 400_000, y: 300_000 });
    let c = graph_to_screen(Vec2 { x: 10_000, y: 20_000 }, 800, 600);
    assert_eq!(c, Vec2 { x: 410_000, y: 280_000 });
}

#[test]
fn image_dest_scales_texture_dimensions() {
    let (w, h) = image_dest_size(100, 50, Vec2 { x: 2000, y: 500 });
    assert_eq!(w, 200_000);
    assert_eq!(h, 25_000);
}

#[test]
fn screen_mapping_saturates_at_the_range_ends() {
    let c = graph_to_screen(Vec2 { x: i64::MAX, y: i64::MIN }, 800, 600);
    assert_eq!(c, Vec2 { x: i64::MAX, y: i64::MAX });
    let c = graph_to_screen(Vec2 { x: i64::MIN, y: i64::MAX }, 800, 600);
    assert_eq!(c, Vec2 { x: i64::MIN + 400_000, y: i64::MIN + 300_001 });
}

#[test]
fn empty_window_succeeds_without_touching_the_backend() {
    let tl = demo_timeline(2000, 30);
    // One millisecond at 30 fps rounds down to zero frames.
    let mut backend = FakeBackend { len: 8 * 6 * 4, stop_at: None, rendered: 0 };
    let mut sink = RecordingSink { timestamps: vec![] };
    let stats = render_timeline_rgba(&tl, 0, 1, 8, 6, Color::black(), &mut backend, &mut sink)
        .unwrap();
    assert_eq!(stats.frames_emitted, 0);
    assert!(!stats.stopped);
    assert_eq!(backend.rendered, 0);
    assert!(sink.timestamps.is_empty());
}

#[test]
fn frame_length_gate_accepts_exactly_the_packed_size() {
    let frame = vec![0u8; 8 * 6 * 4];
    assert!(check_frame_len(&frame, 8, 6).is_ok());
    let short = vec![0u8; 8 * 6 * 4 - 1];
    assert_eq!(check_frame_len(&short, 8, 6).unwrap_err(), RenderError::FrameSizeMismatch);
    let empty: Vec<u8> = vec![];
    assert_eq!(check_frame_len(&empty, 8, 6).unwrap_err(), RenderError::FrameSizeMismatch);
}

struct FailingBackend;

impl RenderBackend for FailingBackend {
    fn render_frame(&mut self, _cmds: &Vec<DrawCmd>) -> Result<Vec<u8>, RenderError> {
        Err(RenderError::Backend)
    }

    fn should_stop(&mut self) -> bool {
        false
    }
}

#[test]
fn backend_faults_abort_the_run() {
    let tl = demo_timeline(2000, 30);
    let mut backend = FailingBackend;
    let mut sink = RecordingSink { timestamps: vec![] };
    let r = render_timeline_rgba(&tl, 0, 2000, 8, 6, Color::black(), &mut backend, &mut sink);
    assert_eq!(r.unwrap_err(), RenderError::Backend);
    assert!(sink.timestamps.is_empty());
}

struct FailingSink;

impl FrameSink for FailingSink {
    fn accept_frame(&mut self, _t_ms: i64, _frame: &Vec<u8>) -> Result<(), RenderError> {
        Err(RenderError::Sink)
    }
}

#[test]
fn sink_faults_abort_the_run() {
    let tl = demo_timeline(2000, 30);
    let mut backend = FakeBackend { len: 8 * 6 * 4, stop_at: None, rendered: 0 };
    let mut sink = FailingSink;
    let r = render_timeline_rgba(&tl, 0, 2000, 8, 6, Color::black(), &mut backend, &mut sink);
    assert_eq!(r.unwrap_err(), RenderError::Sink);
}
