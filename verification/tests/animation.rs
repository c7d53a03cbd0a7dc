use animrender::animation::{Easing, Keyframe, Track};
use animrender::errors::RenderError;
use animrender::transform::Vec2;

#[test]
fn linear_easing_is_identity() {
    for u in [0i64, 1, 250, 499, 500, 713, 999, 1000] {
        assert_eq!(Easing::Linear.apply(u), u);
    }
}

#[test]
fn easing_clamps_input() {
    assert_eq!(Easing::Linear.apply(-5), 0);
    assert_eq!(Easing::Linear.apply(2000), 1000);
    assert_eq!(Easing::EaseInOutQuad.apply(-1), 0);
    assert_eq!(Easing::EaseOutCubic.apply(1001), 1000);
}

#[test]
fn easing_endpoints_fixed_for_all_kinds() {
    for e in [Easing::Linear, Easing::EaseInOutQuad, Easing::EaseOutCubic] {
        assert_eq!(e.apply(0), 0);
        assert_eq!(e.apply(1000), 1000);
    }
}

#[test]
fn easing_exact_values() {
    // 2 * 0.25^2 = 0.125
    assert_eq!(Easing::EaseInOutQuad.apply(250), 125);
    // 1 - (-2*0.75 + 2)^2 / 2 = 0.875
    assert_eq!(Easing::EaseInOutQuad.apply(750), 875);
    // 1 - (1 - 0.5)^3 = 0.875
    assert_eq!(Easing::EaseOutCubic.apply(500), 875);
}

#[test]
fn empty_track_is_rejected() {
    let r = Track::<i64>::new(vec![]);
    assert_eq!(r.unwrap_err(), RenderError::EmptyTrack);
}

#[test]
fn equal_keyframe_times_are_rejected() {
    let kfs = vec![
        Keyframe::new(0, 1i64, Easing::Linear),
        Keyframe::new(0, 2i64, Easing::Linear),
    ];
    let r = Track::new(kfs);
    assert_eq!(r.unwrap_err(), RenderError::NonIncreasingKeyframes);
}

#[test]
fn decreasing_keyframe_times_are_rejected() {
    let kfs = vec![
        Keyframe::new(500, 1i64, Easing::Linear),
        Keyframe::new(100, 2i64, Easing::Linear),
    ];
    let r = Track::new(kfs);
    assert_eq!(r.unwrap_err(), RenderError::NonIncreasingKeyframes);
}

#[test]
fn sample_clamps_outside_keyframe_range() {
    let kfs = vec![
        Keyframe::new(0, 10i64, Easing::Linear),
        Keyframe::new(1000, 20i64, Easing::Linear),
    ];
    let track = Track::new(kfs).unwrap();
    assert_eq!(track.sample(-100), 10);
    assert_eq!(track.sample(0), 10);
    assert_eq!(track.sample(1000), 20);
    assert_eq!(track.sample(5000), 20);
}

#[test]
fn single_keyframe_track_is_constant() {
    let track = Track::from_constant(42i64);
    for t in [i64::MIN, -1, 0, 1, 999, i64::MAX] {
        assert_eq!(track.sample(t), 42);
    }
}

#[test]
fn two_keyframe_linear_track_hits_midpoint() {
    let kfs = vec![
        Keyframe::new(0, 0i64, Easing::Linear),
        Keyframe::new(1000, 1000i64, Easing::Linear),
    ];
    let track = Track::new(kfs).unwrap();
    assert_eq!(track.sample(500), 500);
}

#[test]
fn vector_track_interpolates_componentwise() {
    let kfs = vec![
        Keyframe::new(0, Vec2 { x: 0, y: 100 }, Easing::Linear),
        Keyframe::new(1000, Vec2 { x: 1000, y: 300 }, Easing::Linear),
    ];
    let track = Track::new(kfs).unwrap();
    assert_eq!(track.sample(500), Vec2 { x: 500, y: 200 });
}

#[test]
fn interpolation_floors_the_exact_value() {
    let kfs = vec![
        Keyframe::new(0, 0i64, Easing::Linear),
        Keyframe::new(1000, 5i64, Easing::Linear),
    ];
    let track = Track::new(kfs).unwrap();
    // 0 + 5 * 0.5 = 2.5 floors to 2.
    assert_eq!(track.sample(500), 2);
    let back = Track::new(vec![
        Keyframe::new(0, 5i64, Easing::Linear),
        Keyframe::new(1000, 0i64, Easing::Linear),
    ])
    .unwrap();
    // 5 - 5 * 0.5 = 2.5 floors to 2.
    assert_eq!(back.sample(500), 2);
}

#[test]
fn eased_segment_uses_segment_start_easing() {
    let kfs = vec![
        Keyframe::new(0, 0i64, Easing::EaseInOutQuad),
        Keyframe::new(1000, 1000i64, Easing::Linear),
    ];
    let track = Track::new(kfs).unwrap();
    // eased progress at u=0.25 is 0.125
    assert_eq!(track.sample(250), 125);
}

#[test]
fn easing_is_monotone_on_a_grid() {
    for e in [Easing::Linear, Easing::EaseInOutQuad, Easing::EaseOutCubic] {
        let mut prev = e.apply(0);
        let mut u = 0i64;
        while u <= 1000 {
            let cur = e.apply(u);
            assert!(prev <= cur, "{e:?} decreased at {u}");
            prev = cur;
            u += 7;
        }
    }
}

#[test]
fn constant_track_has_one_linear_keyframe_at_zero() {
    let track = Track::from_constant(9i64);
    assert_eq!(track.sample(0), 9);
    assert_eq!(track, Track::new(vec![Keyframe::new(0, 9i64, Easing::Linear)]).unwrap());
}
