use voxel_explorer::{Camera, Heading, MotionState, Vec3, HALF_PI, METRE, PI};

/// Heading of a yaw of a half turn: forward is the negative x axis.
fn facing_negative_x() -> Heading {
    let yaw = std::f64::consts::PI;
    Heading { cos: (yaw.cos() * 1e6).round() as i64, sin: (yaw.sin() * 1e6).round() as i64 }
}

fn spawn() -> Vec3 {
    Vec3 { x: 4 * METRE, y: 10 * METRE, z: 3 * METRE }
}

#[test]
fn new_camera_spawns_above_the_floor() {
    let cam = Camera::new();
    assert_eq!(cam.position(), spawn());
    assert_eq!(cam.yaw(), PI);
    assert_eq!(cam.pitch(), 0);
    assert_eq!(cam.motion_flags(), (false, false, false, false));
    assert_eq!(cam.vertical_speed(), 0);
}

#[test]
fn forward_step_on_ground_moves_along_heading() {
    let mut cam = Camera::new();
    cam.toggle_state(MotionState::W);
    let h = facing_negative_x();
    let probe = cam.look_ahead(500_000, h);
    assert_eq!(probe, Vec3 { x: -6 * METRE, y: 10 * METRE, z: 3 * METRE });
    cam.step(500_000, h, true, false);
    assert_eq!(cam.position(), Vec3 { x: 3 * METRE, y: 10 * METRE, z: 3 * METRE });
}

#[test]
fn obstructed_step_keeps_position_even_when_falling() {
    let mut cam = Camera::new();
    cam.toggle_state(MotionState::W);
    cam.step(500_000, facing_negative_x(), false, true);
    assert_eq!(cam.position(), spawn());
    assert_eq!(cam.vertical_speed(), 4_905_000_000);
}

#[test]
fn jump_then_fall_rises() {
    let mut cam = Camera::new();
    cam.jump();
    cam.step(100_000, facing_negative_x(), true, true);
    let pos = cam.position();
    assert!(pos.y > spawn().y);
    assert_eq!(pos.y, 10_401_900_000_000_000);
    assert_eq!(cam.vertical_speed(), -4_019_000_000);
}

#[test]
fn standing_in_free_fall_lowers_only_y() {
    let mut cam = Camera::new();
    cam.step(16_000, facing_negative_x(), true, true);
    let pos = cam.position();
    assert_eq!(pos.y, 9_997_488_640_000_000);
    assert_eq!(pos.x, spawn().x);
    assert_eq!(pos.z, spawn().z);
}

#[test]
fn supported_step_keeps_height() {
    let mut cam = Camera::new();
    cam.toggle_state(MotionState::W);
    cam.step(16_000, facing_negative_x(), true, false);
    let pos = cam.position();
    assert_eq!(pos.y, spawn().y);
    assert_eq!(pos.x, 3_968_000_000_000_000);
    cam.step(16_000, facing_negative_x(), false, false);
    assert_eq!(cam.position().y, spawn().y);
}

#[test]
fn toggling_twice_restores_flags() {
    let mut cam = Camera::new();
    for state in [MotionState::W, MotionState::S, MotionState::A, MotionState::D] {
        let before = cam.motion_flags();
        cam.toggle_state(state);
        assert_ne!(cam.motion_flags(), before);
        cam.toggle_state(state);
        assert_eq!(cam.motion_flags(), before);
    }
    cam.toggle_state(MotionState::Idle);
    assert_eq!(cam.motion_flags(), (false, false, false, false));
}

#[test]
fn right_and_diagonal_walking() {
    let h = facing_negative_x();
    let mut cam = Camera::new();
    cam.toggle_state(MotionState::D);
    cam.step(500_000, h, true, false);
    assert_eq!(cam.position(), Vec3 { x: 4 * METRE, y: 10 * METRE, z: 4 * METRE });

    let mut cam = Camera::new();
    cam.toggle_state(MotionState::W);
    cam.toggle_state(MotionState::D);
    cam.step(500_000, h, true, false);
    assert_eq!(cam.position(), Vec3 { x: 3 * METRE, y: 10 * METRE, z: 4 * METRE });

    let mut cam = Camera::new();
    cam.toggle_state(MotionState::W);
    cam.toggle_state(MotionState::S);
    cam.step(500_000, h, true, false);
    assert_eq!(cam.position(), spawn());
}

#[test]
fn pitch_never_reaches_a_quarter_turn() {
    let mut cam = Camera::new();
    cam.mousemove(0, 1_500_000);
    assert_eq!(cam.pitch(), 1_500_000);
    cam.mousemove(0, 100_000);
    assert_eq!(cam.pitch(), 1_500_000);
    cam.mousemove(0, -3_100_000);
    assert_eq!(cam.pitch(), 1_500_000);
    cam.mousemove(0, -3_000_000);
    assert_eq!(cam.pitch(), -1_500_000);
    for v in [i64::MAX, i64::MIN, HALF_PI as i64, -(HALF_PI as i64), 70_796] {
        cam.mousemove(0, v);
        assert!(cam.pitch() > -HALF_PI && cam.pitch() < HALF_PI);
    }
}

#[test]
fn yaw_turns_without_bound() {
    let mut cam = Camera::new();
    cam.mousemove(1_000_000, 0);
    assert_eq!(cam.yaw(), 2_141_593);
    cam.mousemove(-5_000_000, 0);
    assert_eq!(cam.yaw(), 7_141_593);
    cam.mousemove(-6_283_185, 0);
    assert_eq!(cam.yaw(), 13_424_778);
    cam.mousemove(20_000_000, 0);
    assert_eq!(cam.yaw(), -6_575_222);
    assert_eq!(cam.pitch(), 0);
    assert_eq!(cam.position(), spawn());
}

#[test]
fn up_and_down_move_one_metre() {
    let mut cam = Camera::new();
    cam.up();
    assert_eq!(cam.position().y, 11 * METRE);
    cam.down();
    cam.down();
    assert_eq!(cam.position().y, 9 * METRE);
}

#[test]
fn air_jump_can_be_forbidden() {
    let h = facing_negative_x();
    let mut cam = Camera::new();
    cam.set_air_jump(false);
    cam.jump();
    assert_eq!(cam.vertical_speed(), -5_000_000_000);
    cam.step(100_000, h, true, true);
    let speed = cam.vertical_speed();
    cam.jump();
    assert_eq!(cam.vertical_speed(), speed);
    cam.step(100_000, h, true, false);
    cam.jump();
    assert_eq!(cam.vertical_speed(), -5_000_000_000);
}

#[test]
fn air_jump_is_allowed_by_default() {
    let mut cam = Camera::new();
    cam.step(100_000, facing_negative_x(), true, true);
    cam.jump();
    assert_eq!(cam.vertical_speed(), -5_000_000_000);
}
