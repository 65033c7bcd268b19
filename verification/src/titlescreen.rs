//! The title screen's menu objects.

use vstd::prelude::*;
use crate::general::{Position, Tag};
use crate::input::{Input, InputButton};
use crate::screen_systems::Navigation;

verus! {

/// The menu selection marker: which option the player is hovering,
/// cycled with Up/Down and confirmed with Start.
#[derive(Clone, Copy, Debug, PartialEq, Eq, Structural)]
pub struct Marker {
    /// How many menu options the marker cycles through.
    pub num_options: u64,
    /// Vertical distance between options, in fixed-point sub-units.
    pub draw_step: i64,
}

/// The selected option after one menu tick: Down moves forward, Up
/// moves back, both wrapping around the `n` options.
pub open spec fn spec_marker_select(t: int, n: int, down: bool, up: bool) -> int
    recommends
        n > 0,
{
    let t1 = if down {
        t + 1
    } else if up {
        if t == 0 {
            n - 1
        } else {
            t - 1
        }
    } else {
        t
    };
    t1 % n
}

impl Marker {
    /// One menu tick: cycle the hovered option with the vertical keys,
    /// place the marker at the hovered option's row, and enter the
    /// level screen when the first option is confirmed with Start.
    pub fn update(
        &self,
        tag: &mut Tag,
        position: &mut Position,
        navigation: &mut Navigation,
        input: &Input,
    )
        requires
            0 < self.num_options <= 0x10000,
            old(tag).0 < self.num_options,
            crate::fixed::mag(self.draw_step as int) <= 0x1_0000_0000,
        ensures
            final(tag).0 == spec_marker_select(
                old(tag).0 as int,
                self.num_options as int,
                input.spec_pressed(InputButton::Down),
                input.spec_pressed(InputButton::Up),
            ),
            final(tag).0 < self.num_options,
            final(position)@.y == final(tag).0 * self.draw_step,
            final(position)@.x == old(position)@.x,
            *final(navigation) == (if final(tag).0 == 0 && input.spec_pressed(InputButton::Start) {
                Navigation::LevelScreen
            } else {
                *old(navigation)
            }),
    {
        if input.pressed(InputButton::Down) {
            tag.0 = tag.0 + 1;
        } else if input.pressed(InputButton::Up) {
            tag.0 = if tag.0 == 0 {
                self.num_options - 1
            } else {
                tag.0 - 1
            };
        }
        // Adjust option to a valid one and setup draw position
        tag.0 = tag.0 % self.num_options;
        proof {
            assert((tag.0 as int) * (self.draw_step as int) <= 0x10000 * 0x1_0000_0000
                && (tag.0 as int) * (self.draw_step as int) >= -0x10000 * 0x1_0000_0000)
                by (nonlinear_arith)
                requires
                    0 <= tag.0 <= 0x10000,
                    crate::fixed::mag(self.draw_step as int) <= 0x1_0000_0000,
            ;
        }
        position.y = (tag.0 as i64) * self.draw_step;

        if tag.0 == 0 && input.pressed(InputButton::Start) {
            *navigation = Navigation::LevelScreen;
        }
    }
}

} // verus!
