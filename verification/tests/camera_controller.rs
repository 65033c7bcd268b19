//! Tests for the camera controller: dead-zone tracking, vertical
//! behaviours, pan displacement and the center floor.

use sonic_platformer::camera::{
    Camera, CameraDisplacementBehaviour, CameraVerticalBehaviour,
};
use sonic_platformer::general::Position;

const FX: i64 = 65536;

#[test]
fn lookup_pan_reaches_floor_after_sixty_updates() {
    // 60 consecutive LookUp updates from displacement 0 give exactly
    // -104 pixels: the floor is reached after 52 and held, never
    // exceeded.
    let mut cam = Camera::new(0, 0);
    cam.displacement_behaviour = CameraDisplacementBehaviour::LookUp;
    for i in 1..=60i64 {
        cam.update(None);
        assert!(cam.displacement >= -104 * FX);
        if i <= 52 {
            assert_eq!(cam.displacement, -2 * FX * i);
        }
    }
    assert_eq!(cam.displacement, -104 * FX);
}

#[test]
fn lookdown_pan_caps() {
    let mut cam = Camera::new(0, 0);
    cam.displacement_behaviour = CameraDisplacementBehaviour::LookDown;
    for _ in 0..50 {
        cam.update(None);
        assert!(cam.displacement <= 88 * FX);
    }
    assert_eq!(cam.displacement, 88 * FX);
}

#[test]
fn recenter_decays_pan_to_zero() {
    let mut cam = Camera::new(0, 0);
    cam.displacement_behaviour = CameraDisplacementBehaviour::LookDown;
    for _ in 0..5 {
        cam.update(None);
    }
    assert_eq!(cam.displacement, 10 * FX);
    cam.displacement_behaviour = CameraDisplacementBehaviour::Recenter;
    for _ in 0..4 {
        cam.update(None);
        assert!(cam.displacement >= 0);
    }
    assert_eq!(cam.displacement, 2 * FX);
    cam.update(None);
    assert_eq!(cam.displacement, 0);
    cam.update(None);
    assert_eq!(cam.displacement, 0);
}

#[test]
fn position_dominates_center() {
    // Whatever the followed target does, the output position never
    // frames above or left of the center.
    let center: (i64, i64) = (100 * FX, 80 * FX);
    let mut cam = Camera::new(center.0, center.1);
    let targets = [
        Position::new(-1000 * FX, -500 * FX),
        Position::new(0, 0),
        Position::new(50 * FX, 20 * FX),
        Position::new(2000 * FX, 900 * FX),
        Position::new(-300 * FX, 700 * FX),
    ];
    for target in &targets {
        for _ in 0..30 {
            cam.update(Some(target));
            assert!(cam.position.x >= center.0);
            assert!(cam.position.y >= center.1);
        }
    }
}

#[test]
fn horizontal_dead_zone_holds_camera() {
    let mut cam = Camera::new(0, 0);
    // 10 px lies inside [-16, +16] around the raw position: no motion.
    let near = Position::new(10 * FX, 0);
    cam.update(Some(&near));
    assert_eq!(cam.raw_position.x, 0);

    // A target far to the right pulls at 16 px per tick.
    let far = Position::new(100 * FX, 0);
    cam.update(Some(&far));
    assert_eq!(cam.raw_position.x, 16 * FX);
    cam.update(Some(&far));
    assert_eq!(cam.raw_position.x, 32 * FX);
}

#[test]
fn horizontal_chase_stops_at_zone_edge() {
    // The camera moves only far enough to contain the target again:
    // a target 20 px past the right edge moves the camera 4 px.
    let mut cam = Camera::new(0, 0);
    let target = Position::new(20 * FX, 0);
    cam.update(Some(&target));
    assert_eq!(cam.raw_position.x, 4 * FX);
    cam.update(Some(&target));
    assert_eq!(cam.raw_position.x, 4 * FX);
}

#[test]
fn center_y_slow_chases_six_pixels() {
    let mut cam = Camera::new(0, 0);
    cam.vertical_behaviour = CameraVerticalBehaviour::CenterYSlow;
    let target = Position::new(0, 100 * FX);
    cam.update(Some(&target));
    assert_eq!(cam.raw_position.y, 6 * FX);
    cam.vertical_behaviour = CameraVerticalBehaviour::CenterYFast;
    cam.update(Some(&target));
    assert_eq!(cam.raw_position.y, 22 * FX);
}

#[test]
fn respect_bounds_ignores_target_inside_zone() {
    let mut cam = Camera::new(0, 0);
    assert_eq!(
        cam.vertical_behaviour,
        CameraVerticalBehaviour::RespectBounds
    );
    // Inside [-32, +64] vertically: no motion.
    let inside = Position::new(0, 40 * FX);
    cam.update(Some(&inside));
    assert_eq!(cam.raw_position.y, 0);

    // 100 px is 36 px below the bottom edge: clamped to 16 px.
    let below = Position::new(0, 100 * FX);
    cam.update(Some(&below));
    assert_eq!(cam.raw_position.y, 16 * FX);

    // Far above the top edge: 16 px up.
    let above = Position::new(0, -100 * FX);
    cam.update(Some(&above));
    assert_eq!(cam.raw_position.y, 0);
    cam.update(Some(&above));
    assert_eq!(cam.raw_position.y, -16 * FX);
}

#[test]
fn transform_maps_world_to_screen() {
    let mut cam = Camera::new(100 * FX, 80 * FX);
    // Drive the camera somewhere definite: a target inside the zone
    // leaves the raw position at the origin, so position == center.
    cam.update(Some(&Position::new(0, 0)));
    assert_eq!(cam.position, Position::new(100 * FX, 80 * FX));
    let screen = cam.transform(&Position::new(30 * FX, 240 * FX));
    assert_eq!(screen, Position::new(30 * FX, 240 * FX));

    let origin_on_screen = cam.transform(&Position::new(0, 0));
    assert_eq!(origin_on_screen, Position::new(0, 0));
}

#[test]
fn new_camera_defaults() {
    let cam = Camera::new(480 * FX / 2, 270 * FX / 2);
    assert_eq!(cam.position, Position::new(0, 0));
    assert_eq!(cam.raw_position, Position::new(0, 0));
    assert_eq!(cam.displacement, 0);
    assert_eq!(
        cam.vertical_behaviour,
        CameraVerticalBehaviour::RespectBounds
    );
    assert_eq!(
        cam.displacement_behaviour,
        CameraDisplacementBehaviour::Recenter
    );
}
