use yasc_core::song_player::governor::{
    LaneGovernor, DEFAULT_ROTATION, DEFAULT_SLANT, DEFAULT_ZOOM,
};
use yasc_core::song_player::keyframe::{Keyframe, TransformationKFCurve};
use yasc_core::song_player::lanes::Lanes;
use yasc_core::song_player::song_timer::SongTime;
use yasc_core::utils::{linear_map, FIXED_ONE, TICK_MAX, VAL_MAX};

fn kf(value: i64, time: i64, tension: i64) -> (SongTime, Keyframe<TransformationKFCurve>) {
    (
        SongTime(time),
        Keyframe::new(
            value,
            SongTime(time),
            TransformationKFCurve::HalfSigmoid,
            tension,
        ),
    )
}

fn governor_with_rotation(
    rotation_events: Vec<(SongTime, Keyframe<TransformationKFCurve>)>,
) -> LaneGovernor {
    LaneGovernor {
        rotation_events,
        slant_events: vec![],
        zoom_events: vec![],
        current_spin: None,
        lanes: Lanes {
            texture_width: 640,
            texture_height: 480,
        },
    }
}

#[test]
fn clamping_before_first_and_after_last() {
    let gov = governor_with_rotation(vec![kf(100, 10, 0), kf(200, 20, 0)]);
    assert_eq!(gov.get_current_rotation(&SongTime(-50)), 100);
    assert_eq!(gov.get_current_rotation(&SongTime(9)), 100);
    assert_eq!(gov.get_current_rotation(&SongTime(21)), 200);
    assert_eq!(gov.get_current_rotation(&SongTime(5000)), 200);
}

#[test]
fn exact_match_returns_keyframe_value_zero_tension() {
    let gov = governor_with_rotation(vec![kf(100, 10, 0), kf(200, 20, 0), kf(-40, 30, 0)]);
    assert_eq!(gov.get_current_rotation(&SongTime(10)), 100);
    assert_eq!(gov.get_current_rotation(&SongTime(20)), 200);
    assert_eq!(gov.get_current_rotation(&SongTime(30)), -40);
}

#[test]
fn exact_match_returns_keyframe_value_nonzero_tension() {
    let gov = governor_with_rotation(vec![
        kf(100, 10, FIXED_ONE),
        kf(200, 20, -FIXED_ONE),
        kf(-40, 30, FIXED_ONE / 2),
    ]);
    assert_eq!(gov.get_current_rotation(&SongTime(10)), 100);
    assert_eq!(gov.get_current_rotation(&SongTime(20)), 200);
    assert_eq!(gov.get_current_rotation(&SongTime(30)), -40);
}

#[test]
fn linear_midpoint_is_average() {
    let gov = governor_with_rotation(vec![kf(100, 10, 0), kf(200, 20, 0)]);
    assert_eq!(gov.get_current_rotation(&SongTime(15)), 150);

    let gov = governor_with_rotation(vec![kf(-100, 0, 0), kf(300, 100, 0)]);
    assert_eq!(gov.get_current_rotation(&SongTime(50)), 100);
}

#[test]
fn linear_interpolation_between_keyframes() {
    let gov = governor_with_rotation(vec![kf(0, 0, 0), kf(1000, 1000, 0)]);
    assert_eq!(gov.get_current_rotation(&SongTime(1)), 1);
    assert_eq!(gov.get_current_rotation(&SongTime(250)), 250);
    assert_eq!(gov.get_current_rotation(&SongTime(999)), 999);
}

#[test]
fn full_ease_in_warps_midpoint_to_quarter() {
    // with tension == FIXED_ONE the half-sigmoid becomes the full quadratic
    // ease-in: at mid-time the warped progress is one quarter
    let track = vec![
        (
            SongTime(0),
            Keyframe::new(0, SongTime(0), TransformationKFCurve::HalfSigmoid, FIXED_ONE),
        ),
        (
            SongTime(1000),
            Keyframe::new(
                FIXED_ONE,
                SongTime(1000),
                TransformationKFCurve::HalfSigmoid,
                0,
            ),
        ),
    ];
    let gov = governor_with_rotation(track);
    assert_eq!(gov.get_current_rotation(&SongTime(500)), FIXED_ONE / 4);
}

#[test]
fn stair_holds_then_jumps() {
    // nonzero tension on the stair curve: hold the earlier value until the
    // next keyframe's time
    let track = vec![
        (
            SongTime(0),
            Keyframe::new(100, SongTime(0), TransformationKFCurve::Stair, 1),
        ),
        (
            SongTime(1000),
            Keyframe::new(900, SongTime(1000), TransformationKFCurve::Stair, 1),
        ),
    ];
    let gov = governor_with_rotation(track);
    assert_eq!(gov.get_current_rotation(&SongTime(1)), 100);
    assert_eq!(gov.get_current_rotation(&SongTime(999)), 100);
    assert_eq!(gov.get_current_rotation(&SongTime(1000)), 900);
}

#[test]
fn empty_tracks_use_defaults() {
    let gov = governor_with_rotation(vec![]);
    assert_eq!(gov.get_current_rotation(&SongTime(123)), DEFAULT_ROTATION);
    assert_eq!(gov.get_current_slant(&SongTime(123)), DEFAULT_SLANT);
    assert_eq!(gov.get_current_zoom(&SongTime(123)), DEFAULT_ZOOM);
    assert_eq!(DEFAULT_SLANT, 38273024);
    assert_eq!(DEFAULT_ZOOM, -1024000);
}

#[test]
fn keyframe_getters() {
    let k = Keyframe::new(42, SongTime(7), TransformationKFCurve::Sigmoid, 5);
    assert_eq!(k.value(), 42);
    assert_eq!(k.song_time(), SongTime(7));
    assert_eq!(k.tension(), 5);
    assert!(matches!(k.curve(), TransformationKFCurve::Sigmoid));
}

#[test]
fn interpolate_against_endpoints() {
    let a = Keyframe::new(100, SongTime(10), TransformationKFCurve::HalfSigmoid, 0);
    let b = Keyframe::new(300, SongTime(30), TransformationKFCurve::HalfSigmoid, 0);
    assert_eq!(a.interpolate_against(&SongTime(10), &b), 100);
    assert_eq!(a.interpolate_against(&SongTime(30), &b), 300);
    assert_eq!(a.interpolate_against(&SongTime(20), &b), 200);
}

#[test]
fn linear_map_remaps_and_extrapolates() {
    assert_eq!(linear_map(5, 0, 10, 0, 100), 50);
    assert_eq!(linear_map(0, 0, 10, 0, 100), 0);
    assert_eq!(linear_map(10, 0, 10, 0, 100), 100);
    assert_eq!(linear_map(15, 0, 10, 0, 100), 150);
    assert_eq!(linear_map(-5, 0, 10, 0, 100), -50);
    assert_eq!(linear_map(5, 0, 10, 100, 0), 50);
}

#[test]
fn nonzero_tension_is_exact_at_segment_endpoints() {
    let a = Keyframe::new(
        100,
        SongTime(10),
        TransformationKFCurve::HalfSigmoid,
        FIXED_ONE / 3,
    );
    let b = Keyframe::new(
        300,
        SongTime(30),
        TransformationKFCurve::HalfSigmoid,
        -FIXED_ONE,
    );
    assert_eq!(a.interpolate_against(&SongTime(10), &b), 100);
    assert_eq!(a.interpolate_against(&SongTime(30), &b), 300);

    let c = Keyframe::new(-50, SongTime(0), TransformationKFCurve::Sigmoid, FIXED_ONE);
    let d = Keyframe::new(70, SongTime(64), TransformationKFCurve::Sigmoid, 0);
    assert_eq!(c.interpolate_against(&SongTime(0), &d), -50);
    assert_eq!(c.interpolate_against(&SongTime(64), &d), 70);
}

#[test]
fn interpolation_at_the_value_and_time_bounds() {
    let track = vec![
        (
            SongTime(-TICK_MAX),
            Keyframe::new(
                -VAL_MAX,
                SongTime(-TICK_MAX),
                TransformationKFCurve::HalfSigmoid,
                0,
            ),
        ),
        (
            SongTime(TICK_MAX),
            Keyframe::new(
                VAL_MAX,
                SongTime(TICK_MAX),
                TransformationKFCurve::HalfSigmoid,
                0,
            ),
        ),
    ];
    let gov = governor_with_rotation(track);
    assert_eq!(gov.get_current_rotation(&SongTime(0)), 0);
    assert_eq!(gov.get_current_rotation(&SongTime(-TICK_MAX)), -VAL_MAX);
    assert_eq!(gov.get_current_rotation(&SongTime(TICK_MAX)), VAL_MAX);
}
