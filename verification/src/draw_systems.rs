//! The draw systems' own state: the textual content of each screen.
//!
//! Fonts, meshes and the queueing of text are the renderer's business;
//! this module holds the plain data the renderer draws from.

use vstd::prelude::*;
use crate::draw_states::Navigation;
use crate::fixed::{FX_ONE, POS_LIMIT};
use crate::general::Position;

verus! {

/// Where the title screen's texts and the selection marker go, in
/// fixed-point screen coordinates.
pub struct TitleScreenLayout {
    /// Top-left corner of the game title.
    pub title: Position,
    /// Top-left corner of the play option.
    pub play: Position,
    /// Top-left corner of the settings option.
    pub settings: Position,
    /// Where the selection marker starts, left of the options.
    pub selection: Position,
}

/// Center the three texts of the title screen on the screen: the title
/// above the middle, the two options stacked under it, and the
/// selection marker to their left.  All dimensions are fixed-point
/// sub-units as the renderer measured them.
pub fn title_screen_layout(
    screen: (i64, i64),
    title: (i64, i64),
    play: (i64, i64),
    settings: (i64, i64),
) -> (r: TitleScreenLayout)
    requires
        0 <= screen.0 <= POS_LIMIT,
        0 <= screen.1 <= POS_LIMIT,
        0 <= title.0 <= POS_LIMIT,
        0 <= title.1 <= POS_LIMIT,
        0 <= play.0 <= POS_LIMIT,
        0 <= play.1 <= POS_LIMIT,
        0 <= settings.0 <= POS_LIMIT,
        0 <= settings.1 <= POS_LIMIT,
    ensures
        r.title@.x == screen.0 / 2 - title.0 / 2,
        r.title@.y == screen.1 / 2 - title.1,
        r.play@.x == screen.0 / 2 - play.0 / 2,
        r.play@.y == screen.1 / 2 - play.1 / 2 + title.1,
        r.settings@.x == screen.0 / 2 - settings.0 / 2,
        r.settings@.y == screen.1 / 2 - settings.1 / 2 + title.1 + play.1,
        r.selection@.x == screen.0 / 2 - settings.0 / 2 - 30 * FX_ONE,
        r.selection@.y == screen.1 / 2 - play.1 / 2 + title.1 + 5 * FX_ONE,
{
    let half_w: i64 = screen.0 / 2;
    let half_h: i64 = screen.1 / 2;
    TitleScreenLayout {
        title: Position::new(half_w - title.0 / 2, half_h - title.1),
        play: Position::new(half_w - play.0 / 2, half_h - play.1 / 2 + title.1),
        settings: Position::new(
            half_w - settings.0 / 2,
            half_h - settings.1 / 2 + title.1 + play.1,
        ),
        selection: Position::new(
            half_w - settings.0 / 2 - 30 * FX_ONE,
            half_h - play.1 / 2 + title.1 + 5 * FX_ONE,
        ),
    }
}

/// The labels of the title screen.
pub struct TitleScreenDrawSystem {
    /// The game's title, shown large.
    pub title: String,
    /// The label of the play option.
    pub play: String,
    /// The label of the settings option.
    pub settings: String,
}

impl TitleScreenDrawSystem {
    /// The title screen shows the game's title over the two menu
    /// options.
    pub fn new(game_title: &str) -> (r: Self)
        ensures
            r.title@ == game_title@,
            r.play@ == "Play"@,
            r.settings@ == "Settings"@,
    {
        TitleScreenDrawSystem {
            title: game_title.to_owned(),
            play: "Play".to_owned(),
            settings: "Settings".to_owned(),
        }
    }
}

/// The collection of draw systems, one per drawable screen.
pub struct DrawSystems {
    /// The title screen's drawable content.
    pub title_screen: TitleScreenDrawSystem,
}

impl DrawSystems {
    pub fn new(game_title: &str) -> (r: Self)
        ensures
            r.title_screen.title@ == game_title@,
            r.title_screen.play@ == "Play"@,
            r.title_screen.settings@ == "Settings"@,
    {
        let title_screen = TitleScreenDrawSystem::new(game_title);
        Self { title_screen }
    }

    /// The screen whose content a renderer should draw for the given
    /// navigation state; the settings screen has no drawable content
    /// yet.
    pub fn content_for(&self, navigation: &Navigation) -> (r: Option<&TitleScreenDrawSystem>)
        ensures
            r is Some <==> navigation == Navigation::TitleScreen,
    {
        match navigation {
            Navigation::TitleScreen => Some(&self.title_screen),
            Navigation::Settings => None,
        }
    }
}

} // verus!
