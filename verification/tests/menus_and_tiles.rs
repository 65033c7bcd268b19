//! Tests for the input snapshot, the title-screen menu, the tuning
//! tables, the camera-behaviour selection and the tile-grid helpers.

use sonic_platformer::constants::PlayerConstants;
use sonic_platformer::camera::{CameraDisplacementBehaviour, CameraVerticalBehaviour};
use sonic_platformer::draw_states;
use sonic_platformer::draw_systems::DrawSystems;
use sonic_platformer::general::{Position, Tag};
use sonic_platformer::input::{Input, InputButton};
use sonic_platformer::level_editor::{cycle_next, cycle_previous, EditorNavigation};
use sonic_platformer::map::{coord_to_tile, find_tile};
use sonic_platformer::player::PlayerAction;
use sonic_platformer::screen_systems::{
    select_displacement_behaviour, select_vertical_behaviour, ticks_due, update_camera_timer,
    Navigation,
};
use sonic_platformer::titlescreen::Marker;

const FX: i64 = 65536;

#[test]
fn input_edge_detection() {
    let mut input = Input::default();
    input.set_button(InputButton::A, true);
    assert!(input.pressing(InputButton::A));
    assert!(input.pressed(InputButton::A));
    input.post_update();
    assert!(input.pressing(InputButton::A));
    assert!(!input.pressed(InputButton::A));
    input.set_button(InputButton::A, false);
    assert!(!input.pressing(InputButton::A));
    assert!(!input.pressed(InputButton::A));
}

#[test]
fn input_buttons_are_independent() {
    let mut input = Input::default();
    input.set_button(InputButton::Left, true);
    input.set_button(InputButton::Start, true);
    assert!(input.pressing(InputButton::Left));
    assert!(input.pressing(InputButton::Start));
    assert!(!input.pressing(InputButton::Right));
    input.set_button(InputButton::Left, false);
    assert!(!input.pressing(InputButton::Left));
    assert!(input.pressing(InputButton::Start));
}

#[test]
fn marker_cycles_menu() {
    let marker = Marker {
        num_options: 2,
        draw_step: 25 * FX,
    };
    let mut tag = Tag::default();
    let mut position = Position::default();
    let mut navigation = Navigation::TitleScreen;
    let mut input = Input::default();

    input.set_button(InputButton::Down, true);
    marker.update(&mut tag, &mut position, &mut navigation, &input);
    assert_eq!(tag.0, 1);
    assert_eq!(position.y, 25 * FX);
    assert_eq!(navigation, Navigation::TitleScreen);

    input.post_update();
    marker.update(&mut tag, &mut position, &mut navigation, &input);
    assert_eq!(tag.0, 1, "a held key moves the marker only once");

    input.set_button(InputButton::Down, false);
    input.post_update();
    input.set_button(InputButton::Up, true);
    marker.update(&mut tag, &mut position, &mut navigation, &input);
    assert_eq!(tag.0, 0);
    assert_eq!(position.y, 0);
}

#[test]
fn marker_wraps_upward_and_confirms() {
    let marker = Marker {
        num_options: 3,
        draw_step: 25 * FX,
    };
    let mut tag = Tag::default();
    let mut position = Position::default();
    let mut navigation = Navigation::TitleScreen;
    let mut input = Input::default();

    input.set_button(InputButton::Up, true);
    marker.update(&mut tag, &mut position, &mut navigation, &input);
    assert_eq!(tag.0, 2, "moving up from the first option wraps");

    input.set_button(InputButton::Up, false);
    input.post_update();
    input.set_button(InputButton::Start, true);
    marker.update(&mut tag, &mut position, &mut navigation, &input);
    assert_eq!(
        navigation,
        Navigation::TitleScreen,
        "start confirms only the first option"
    );

    // Cycle back to the first option and confirm.
    input.set_button(InputButton::Start, false);
    input.post_update();
    input.set_button(InputButton::Down, true);
    marker.update(&mut tag, &mut position, &mut navigation, &input);
    assert_eq!(tag.0, 0);
    input.set_button(InputButton::Down, false);
    input.post_update();
    input.set_button(InputButton::Start, true);
    marker.update(&mut tag, &mut position, &mut navigation, &input);
    assert_eq!(navigation, Navigation::LevelScreen);
}

#[test]
fn default_constants_are_exact() {
    let c = PlayerConstants::default();
    assert_eq!(c.acc, 3072); // 0.046875 px
    assert_eq!(c.dec, 32768); // 0.5 px
    assert_eq!(c.frc, 3072);
    assert_eq!(c.top, 393216); // 6 px
    assert_eq!(c.slp, 8192); // 0.125 px
    assert_eq!(c.slprollup, 5120); // 0.078125 px
    assert_eq!(c.slprolldown, 20480); // 0.3125 px
    assert_eq!(c.min_slp, 3328); // 0.05078125 px
    assert_eq!(c.fall, 163840); // 2.5 px
    assert_eq!(c.air, 6144); // 0.09375 px
    assert_eq!(c.jmp, 425984); // 6.5 px
    assert_eq!(c.grv, 14336); // 0.21875 px
    assert_eq!(c.minjmp, -262144); // -4 px
}

#[test]
fn knuckles_constants_lower_jump_only() {
    let c = PlayerConstants::default_knuckles();
    assert_eq!(c.jmp, 6 * FX);
    assert_eq!(
        PlayerConstants {
            jmp: PlayerConstants::default().jmp,
            ..c
        },
        PlayerConstants::default()
    );
}

#[test]
fn vertical_behaviour_selection() {
    assert_eq!(
        select_vertical_behaviour(false, 0),
        CameraVerticalBehaviour::RespectBounds
    );
    assert_eq!(
        select_vertical_behaviour(true, 6 * FX),
        CameraVerticalBehaviour::CenterYSlow
    );
    assert_eq!(
        select_vertical_behaviour(true, -7 * FX),
        CameraVerticalBehaviour::CenterYFast
    );
}

#[test]
fn displacement_behaviour_selection() {
    assert_eq!(
        select_displacement_behaviour(119, PlayerAction::LookingUp),
        CameraDisplacementBehaviour::Recenter
    );
    assert_eq!(
        select_displacement_behaviour(120, PlayerAction::LookingUp),
        CameraDisplacementBehaviour::LookUp
    );
    assert_eq!(
        select_displacement_behaviour(120, PlayerAction::Crouching),
        CameraDisplacementBehaviour::LookDown
    );
    assert_eq!(
        select_displacement_behaviour(120, PlayerAction::Default),
        CameraDisplacementBehaviour::Recenter
    );
}

#[test]
fn camera_timer_counts_and_saturates() {
    let mut t: i32 = 0;
    for _ in 0..130 {
        t = update_camera_timer(t, true, false);
    }
    assert_eq!(t, 120);
    t = update_camera_timer(t, true, true);
    assert_eq!(t, 0, "holding both keys resets the timer");
    t = update_camera_timer(t, false, true);
    assert_eq!(t, 1);
    t = update_camera_timer(t, false, false);
    assert_eq!(t, 0);
}

#[test]
fn ticks_due_splits_accumulated_time() {
    // At 60 ticks per second with nanosecond time units.
    let tick: u64 = 1_000_000_000 / 60;
    assert_eq!(ticks_due(0, tick), (0, 0));
    assert_eq!(ticks_due(tick - 1, tick), (0, tick - 1));
    assert_eq!(ticks_due(tick, tick), (1, 0));
    assert_eq!(ticks_due(3 * tick + 7, tick), (3, 7));
}

#[test]
fn coord_to_tile_is_row_major() {
    assert_eq!(coord_to_tile(0, 0, 8), 0);
    assert_eq!(coord_to_tile(3, 2, 8), 19);
    assert_eq!(coord_to_tile(7, 0, 8), 7);
    assert_eq!(coord_to_tile(0, 1, 8), 8);
}

#[test]
fn find_tile_returns_first_match() {
    let atlas = vec![
        vec![1u32, 2, 3],
        vec![4, 5, 6],
        vec![1, 2, 3],
    ];
    assert_eq!(find_tile(&atlas, &vec![4, 5, 6]), Some(1));
    assert_eq!(find_tile(&atlas, &vec![1, 2, 3]), Some(0));
    assert_eq!(find_tile(&atlas, &vec![9, 9, 9]), None);
    assert_eq!(find_tile(&atlas, &vec![1, 2]), None);
}

#[test]
fn editor_navigation_cycles() {
    assert_eq!(EditorNavigation::default(), EditorNavigation::TileViewer);
    assert_eq!(cycle_next(0, 4), 1);
    assert_eq!(cycle_next(3, 4), 0);
    assert_eq!(cycle_previous(0, 4), 3);
    assert_eq!(cycle_previous(2, 4), 1);
}

#[test]
fn navigation_defaults() {
    assert_eq!(Navigation::default(), Navigation::TitleScreen);
    assert_eq!(
        draw_states::Navigation::default(),
        draw_states::Navigation::TitleScreen
    );
}

#[test]
fn draw_systems_hold_title_labels() {
    let systems = DrawSystems::new("sonic-platformer");
    assert_eq!(systems.title_screen.title, "sonic-platformer");
    assert_eq!(systems.title_screen.play, "Play");
    assert_eq!(systems.title_screen.settings, "Settings");
    assert!(systems
        .content_for(&draw_states::Navigation::TitleScreen)
        .is_some());
    assert!(systems
        .content_for(&draw_states::Navigation::Settings)
        .is_none());
}
