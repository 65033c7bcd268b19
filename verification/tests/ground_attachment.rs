//! Tests for the ground-attachment transition: the angle bands of
//! landing and the ceiling rejection.

use sonic_platformer::player::{PlayerAction, PlayerSpeed};
use sonic_platformer::state::PlayerState;

const FX: i64 = 65536;

fn airborne_state() -> PlayerState {
    PlayerState {
        ground: false,
        ..PlayerState::default()
    }
}

fn speed(xsp: i64, ysp: i64, angle: u16) -> PlayerSpeed {
    PlayerSpeed {
        xsp,
        ysp,
        gsp: 0,
        angle,
    }
}

#[test]
fn landing_flat_takes_horizontal_speed() {
    // Landing at angle 0 with (xsp, ysp) = (5, -3) pixels yields gsp = 5.
    let mut state = airborne_state();
    let mut v = speed(5 * FX, -3 * FX, 0);
    state.set_ground(true, &mut v, true);
    assert!(state.ground);
    assert_eq!(v.gsp, 5 * FX);
    assert_eq!(v.xsp, 5 * FX);
    assert_eq!(v.ysp, -3 * FX);
}

#[test]
fn ceiling_contact_rejected() {
    // A ceiling cannot be stood on: the flag is forced back to false
    // and the vertical speed is cancelled.
    let mut state = airborne_state();
    let mut v = speed(2 * FX, -7 * FX, 180);
    state.set_ground(true, &mut v, false);
    assert!(!state.ground);
    assert_eq!(v.ysp, 0);
    assert_eq!(v.gsp, 0);
}

#[test]
fn half_steep_band_damps_vertical() {
    // At 30 degrees the vertical speed dominates and is halved, with
    // the sign of -sin(30) (negative).
    let mut state = airborne_state();
    let mut v = speed(FX, 4 * FX, 30);
    state.set_ground(true, &mut v, true);
    assert!(state.ground);
    assert_eq!(v.gsp, -2 * FX);
}

#[test]
fn half_steep_band_other_side() {
    // At 320 degrees sin is negative, so the damped vertical speed
    // keeps its sign.
    let mut state = airborne_state();
    let mut v = speed(FX, 4 * FX, 320);
    state.set_ground(true, &mut v, true);
    assert!(state.ground);
    assert_eq!(v.gsp, 2 * FX);
}

#[test]
fn full_steep_band_takes_vertical() {
    // At 60 degrees the dominant vertical speed becomes the ground
    // speed, undamped, with the sign of -sin(60).
    let mut state = airborne_state();
    let mut v = speed(FX, 4 * FX, 60);
    state.set_ground(true, &mut v, true);
    assert!(state.ground);
    assert_eq!(v.gsp, -4 * FX);
}

#[test]
fn full_steep_band_keeps_dominant_horizontal() {
    let mut state = airborne_state();
    let mut v = speed(5 * FX, 4 * FX, 60);
    state.set_ground(true, &mut v, true);
    assert!(state.ground);
    assert_eq!(v.gsp, 5 * FX);
}

#[test]
fn upward_slope_band_takes_vertical() {
    // At 120 degrees, moving upward, the ground speed comes from the
    // vertical speed with the sign of -sin(120).
    let mut state = airborne_state();
    let mut v = speed(FX, -6 * FX, 120);
    state.set_ground(true, &mut v, false);
    assert!(state.ground);
    assert_eq!(v.gsp, 6 * FX);
}

#[test]
fn outside_bands_keeps_gsp() {
    // A downward landing at 100 degrees falls in no band: the ground
    // speed is left as it was.
    let mut state = airborne_state();
    let mut v = PlayerSpeed {
        xsp: 3 * FX,
        ysp: 2 * FX,
        gsp: 7 * FX,
        angle: 100,
    };
    state.set_ground(true, &mut v, true);
    assert!(state.ground);
    assert_eq!(v.gsp, 7 * FX);
}

#[test]
fn landing_clears_jump_action() {
    let mut state = PlayerState {
        ground: false,
        action: PlayerAction::Jumping,
        ..PlayerState::default()
    };
    let mut v = speed(2 * FX, 3 * FX, 0);
    state.set_ground(true, &mut v, true);
    assert!(state.ground);
    assert_eq!(state.action, PlayerAction::Default);
}

#[test]
fn ceiling_rejection_keeps_jump_action() {
    // The landing was rejected, so the jumping action survives.
    let mut state = PlayerState {
        ground: false,
        action: PlayerAction::Jumping,
        ..PlayerState::default()
    };
    let mut v = speed(0, -3 * FX, 200);
    state.set_ground(true, &mut v, false);
    assert!(!state.ground);
    assert_eq!(state.action, PlayerAction::Jumping);
}

#[test]
fn already_grounded_overwrites_flag() {
    // Releasing the ground (e.g. for a jump) only rewrites the flag.
    let mut state = PlayerState::default();
    assert!(state.ground);
    let mut v = speed(4 * FX, -2 * FX, 45);
    state.set_ground(false, &mut v, true);
    assert!(!state.ground);
    assert_eq!(v.gsp, 0);
    assert_eq!(v.xsp, 4 * FX);
    assert_eq!(v.ysp, -2 * FX);
}

#[test]
fn shallow_band_boundaries() {
    // 23 degrees is still shallow; 339 is shallow again.
    for angle in [0u16, 23, 339, 359] {
        let mut state = airborne_state();
        let mut v = speed(3 * FX, 9 * FX, angle);
        state.set_ground(true, &mut v, true);
        assert!(state.ground);
        assert_eq!(v.gsp, 3 * FX, "angle {}", angle);
    }
}

#[test]
fn band_edges_at_45_and_90() {
    // 45 degrees is the top of the half-steep band: the dominant
    // vertical speed is halved and flipped against sin(45).
    let mut state = airborne_state();
    let mut v = speed(FX, 4 * FX, 45);
    state.set_ground(true, &mut v, true);
    assert_eq!(v.gsp, -2 * FX);

    // 90 degrees is the top of the full-steep band.
    let mut state = airborne_state();
    let mut v = speed(FX, 4 * FX, 90);
    state.set_ground(true, &mut v, true);
    assert_eq!(v.gsp, -4 * FX);
}
