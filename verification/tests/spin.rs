use yasc_core::song_player::governor::{
    Spin, SpinBuilder, SpinType, SPIN_FULL_TURN, SWAY_AMPLITUDE,
};
use yasc_core::song_player::song_timer::SongTime;
use yasc_core::utils::FIXED_ONE;

fn spin(duration: i64, direction: bool, spin_type: SpinType, start: i64) -> Spin {
    SpinBuilder {
        duration: SongTime(duration),
        direction,
        spin_type,
    }
    .build(SongTime(start))
}

#[test]
fn builder_anchors_start() {
    let s = spin(1000, true, SpinType::Spin, 100);
    assert_eq!(s.start, SongTime(100));
    assert_eq!(s.duration, SongTime(1000));
    assert!(s.direction);
    assert_eq!(s.spin_type, SpinType::Spin);
}

#[test]
fn zero_outside_window() {
    let s = spin(1000, true, SpinType::Spin, 100);
    assert_eq!(s.clamped_rotate(&SongTime(-5)), 0);
    assert_eq!(s.clamped_rotate(&SongTime(99)), 0);
    assert_eq!(s.clamped_rotate(&SongTime(100)), 0);
    assert_eq!(s.clamped_rotate(&SongTime(1100)), 0);
    assert_eq!(s.clamped_rotate(&SongTime(5000)), 0);
}

#[test]
fn spin_nonzero_inside_window() {
    let s = spin(1000, true, SpinType::Spin, 100);
    for t in [101, 200, 600, 1000, 1099] {
        assert!(s.clamped_rotate(&SongTime(t)) != 0);
    }
}

#[test]
fn spin_half_turn_at_midpoint() {
    let s = spin(1000, true, SpinType::Spin, 100);
    assert_eq!(s.clamped_rotate(&SongTime(600)), SPIN_FULL_TURN / 2);
}

#[test]
fn direction_flips_sign() {
    let cw = spin(1000, true, SpinType::Spin, 0);
    let ccw = spin(1000, false, SpinType::Spin, 0);
    assert_eq!(cw.clamped_rotate(&SongTime(500)), SPIN_FULL_TURN / 2);
    assert_eq!(ccw.clamped_rotate(&SongTime(500)), -(SPIN_FULL_TURN / 2));
}

#[test]
fn sway_peaks_at_midpoint_and_vanishes_outside() {
    let s = spin(1000, true, SpinType::Sway, 0);
    assert_eq!(s.clamped_rotate(&SongTime(-1)), 0);
    assert_eq!(s.clamped_rotate(&SongTime(0)), 0);
    assert_eq!(s.clamped_rotate(&SongTime(500)), SWAY_AMPLITUDE);
    assert_eq!(s.clamped_rotate(&SongTime(1000)), 0);
    for t in [1, 250, 750, 999] {
        assert!(s.clamped_rotate(&SongTime(t)) != 0);
    }
}

#[test]
fn spin_type_rejects_progress_outside_unit() {
    assert_eq!(SpinType::Spin.clamped_rotate(-1), 0);
    assert_eq!(SpinType::Spin.clamped_rotate(FIXED_ONE), 0);
    assert_eq!(SpinType::Sway.clamped_rotate(-1), 0);
    assert_eq!(SpinType::Sway.clamped_rotate(FIXED_ONE), 0);
    assert_eq!(SpinType::Spin.clamped_rotate(0), SPIN_FULL_TURN);
    assert_eq!(
        SpinType::Spin.clamped_rotate(FIXED_ONE / 2),
        SPIN_FULL_TURN / 2
    );
    assert_eq!(
        SpinType::Sway.clamped_rotate(FIXED_ONE / 2),
        SWAY_AMPLITUDE
    );
}
