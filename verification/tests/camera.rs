use orbit_camera::camera::{
    CameraState, INITIAL_DISTANCE, MAX_DISTANCE, MAX_PITCH, MIN_DISTANCE,
};
use orbit_camera::viewport::ViewportSize;

#[test]
fn fresh_camera_is_at_rest() {
    let s = CameraState::new();
    assert_eq!(s.yaw, 0);
    assert_eq!(s.pitch, 0);
    assert_eq!(s.distance, INITIAL_DISTANCE);
}

#[test]
fn orientation_delta_accumulates() {
    let mut s = CameraState::new();
    s.apply_orientation_delta(100, 50);
    assert_eq!(s.yaw, 100);
    assert_eq!(s.pitch, 50);
    s.apply_orientation_delta(-300, -80);
    assert_eq!(s.yaw, -200);
    assert_eq!(s.pitch, -30);
    assert_eq!(s.distance, INITIAL_DISTANCE);
}

#[test]
fn huge_negative_pitch_clamps_to_exact_bound() {
    let mut s = CameraState::new();
    s.apply_orientation_delta(0, -10000 * 65536);
    assert_eq!(s.pitch, -MAX_PITCH);
}

#[test]
fn huge_positive_pitch_clamps_to_exact_bound() {
    let mut s = CameraState::new();
    s.apply_orientation_delta(0, 10000 * 65536);
    assert_eq!(s.pitch, MAX_PITCH);
}

#[test]
fn pitch_stays_in_range_over_any_sequence() {
    let mut s = CameraState::new();
    let deltas: [i64; 7] = [
        5_000_000,
        -20_000_000,
        i64::MAX / 2,
        i64::MIN / 2,
        123_456_789,
        -1,
        i64::MAX,
    ];
    for &d in deltas.iter() {
        s.apply_orientation_delta(d, d);
        assert!(-MAX_PITCH <= s.pitch && s.pitch <= MAX_PITCH);
    }
}

#[test]
fn distance_stays_in_range_over_any_sequence() {
    let mut s = CameraState::new();
    let deltas: [i64; 6] = [655360, i64::MAX, -1, i64::MIN, 65536, 30 * 65536];
    for &d in deltas.iter() {
        s.apply_distance_delta(d);
        assert!(MIN_DISTANCE <= s.distance && s.distance <= MAX_DISTANCE);
    }
}

#[test]
fn distance_delta_accumulates_and_clamps() {
    let mut s = CameraState::new();
    s.apply_distance_delta(655360);
    assert_eq!(s.distance, INITIAL_DISTANCE + 655360);
    s.apply_distance_delta(-10000 * 65536);
    assert_eq!(s.distance, MIN_DISTANCE);
    s.apply_distance_delta(10000 * 65536);
    assert_eq!(s.distance, MAX_DISTANCE);
    assert_eq!(s.yaw, 0);
    assert_eq!(s.pitch, 0);
}

#[test]
fn yaw_is_unbounded_and_wraps() {
    let mut s = CameraState {
        yaw: i64::MAX,
        pitch: 0,
        distance: MIN_DISTANCE,
    };
    s.apply_orientation_delta(1, 0);
    assert_eq!(s.yaw, i64::MIN);
    s.apply_orientation_delta(-1, 0);
    assert_eq!(s.yaw, i64::MAX);
}

#[test]
fn angles_are_raw_values_divided_by_sixty() {
    let s = CameraState {
        yaw: 6000,
        pitch: -6001,
        distance: MIN_DISTANCE,
    };
    assert_eq!(s.yaw_angle(), 100);
    assert_eq!(s.pitch_angle(), -100);
}

#[test]
fn scaled_distance_is_half_the_raw_distance() {
    let s = CameraState::new();
    assert_eq!(s.scaled_distance(), 49152);
}

#[test]
fn aspect_ratio_is_width_over_height_in_fixed_point() {
    let square = ViewportSize::new(300, 300);
    assert_eq!(square.aspect_ratio(), 65536);
    let wide = ViewportSize::new(400, 300);
    assert_eq!(wide.aspect_ratio(), 87381);
}

#[test]
fn resize_replaces_the_viewport() {
    let mut v = ViewportSize::new(300, 300);
    v.set_size(1920, 1080);
    assert_eq!(v.width, 1920);
    assert_eq!(v.height, 1080);
}
