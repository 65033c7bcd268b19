//! Tests for the sensor geometry, the analog axis mapping and the
//! title-screen layout.

use sonic_platformer::draw_systems::title_screen_layout;
use sonic_platformer::general::Position;
use sonic_platformer::input::{Input, InputButton, StickAxis, AXIS_DEAD_ZONE};
use sonic_platformer::player::PlayerAction;
use sonic_platformer::sensors::{PlayerSensors, SensorRect};

const FX: i64 = 65536;

#[test]
fn small_shape_for_curled_actions() {
    assert!(PlayerSensors::is_small(PlayerAction::Rolling));
    assert!(PlayerSensors::is_small(PlayerAction::Jumping));
    assert!(PlayerSensors::is_small(PlayerAction::Crouching));
    assert!(!PlayerSensors::is_small(PlayerAction::Default));
    assert!(!PlayerSensors::is_small(PlayerAction::Skidding));
    assert!(!PlayerSensors::is_small(PlayerAction::LookingUp));
    assert_eq!(PlayerSensors::crouch_offset(PlayerAction::Rolling), 5 * FX);
    assert_eq!(PlayerSensors::crouch_offset(PlayerAction::Default), 0);
}

#[test]
fn hitbox_by_action() {
    assert_eq!(
        PlayerSensors::hitbox(PlayerAction::Jumping),
        SensorRect {
            x: -8 * FX,
            y: -10 * FX,
            w: 17 * FX,
            h: 21 * FX
        }
    );
    assert_eq!(
        PlayerSensors::hitbox(PlayerAction::Crouching),
        SensorRect {
            x: -8 * FX,
            y: -4 * FX,
            w: 17 * FX,
            h: 17 * FX
        }
    );
    assert_eq!(
        PlayerSensors::hitbox(PlayerAction::Skidding),
        SensorRect {
            x: -8 * FX,
            y: -16 * FX,
            w: 17 * FX,
            h: 33 * FX
        }
    );
}

#[test]
fn axis_maps_to_directions_with_dead_zone() {
    let mut input = Input::default();
    input.set_axis(StickAxis::Horizontal, FX);
    assert!(input.pressing(InputButton::Right));
    assert!(!input.pressing(InputButton::Left));

    input.set_axis(StickAxis::Horizontal, -FX / 2);
    assert!(!input.pressing(InputButton::Right));
    assert!(input.pressing(InputButton::Left));

    // Inside the dead zone both directions release.
    input.set_axis(StickAxis::Horizontal, AXIS_DEAD_ZONE - 1);
    assert!(!input.pressing(InputButton::Right));
    assert!(!input.pressing(InputButton::Left));

    input.set_axis(StickAxis::Vertical, FX);
    assert!(input.pressing(InputButton::Up));
    input.set_axis(StickAxis::Vertical, -FX);
    assert!(input.pressing(InputButton::Down));
    assert!(!input.pressing(InputButton::Up));
    input.set_axis(StickAxis::Vertical, 0);
    assert!(!input.pressing(InputButton::Down));
}

#[test]
fn title_layout_centers_texts() {
    // A 960x540 screen with a 400x72 title and 60x24 options.
    let layout = title_screen_layout(
        (960 * FX, 540 * FX),
        (400 * FX, 72 * FX),
        (60 * FX, 24 * FX),
        (120 * FX, 24 * FX),
    );
    assert_eq!(layout.title, Position::new(280 * FX, 198 * FX));
    assert_eq!(layout.play, Position::new(450 * FX, 330 * FX));
    assert_eq!(layout.settings, Position::new(420 * FX, 354 * FX));
    assert_eq!(layout.selection, Position::new(390 * FX, 335 * FX));
}
