//! The player's state variables and the ground-attachment transition.
//!
//! These variables refer mostly to state such as the ground flag and
//! other information that does not involve transformations directly.
//! The heart of the module is [`PlayerState::set_ground`], which
//! converts linear velocity into signed ground speed when the player
//! attaches to a surface, as a function of the contact angle.

use vstd::prelude::*;
use crate::fixed::{fx_mul, mag, sgn};
use crate::fixed::{fx_abs, fx_signum, mul_fx, mul_sign};
use crate::general::Direction;
use crate::player::{PlayerAction, PlayerSpeed, SpeedModel};
use crate::trig::{lemma_sin_deg_sign, sin_deg, sin_fx};

verus! {

/// Nearly flat floor contact: the horizontal speed carries over
/// unchanged.
pub open spec fn shallow_band(a: int) -> bool {
    (0 <= a <= 23) || (339 <= a < 360)
}

/// Moderately steep floor contact: the damped vertical speed may take
/// over when it dominates.
pub open spec fn half_steep_band(a: int) -> bool {
    (23 < a <= 45) || (315 <= a < 339)
}

/// Steep floor contact: the full vertical speed may take over when it
/// dominates.
pub open spec fn full_steep_band(a: int) -> bool {
    (45 < a <= 90) || (270 <= a < 315)
}

/// Steep contact reached while moving upward: the vertical speed
/// becomes the ground speed.
pub open spec fn upward_slope_band(a: int) -> bool {
    (90 < a <= 135) || (225 < a <= 270)
}

/// Overhead contact: a ceiling cannot be stood on.
pub open spec fn ceiling_band(a: int) -> bool {
    135 < a <= 225
}

/// `-sgn(sin angle)`: the sign that orients a vertical speed along the
/// local surface tangent.
pub open spec fn neg_sin_sign(a: int) -> int {
    -sgn(sin_deg(a))
}

/// The ground speed acquired on a downward landing at angle `a`, from
/// world velocity `(xsp, ysp)`; `None` when the angle is outside every
/// downward band and the ground speed is left unchanged.
pub open spec fn landing_gsp(a: int, xsp: int, ysp: int) -> Option<int> {
    if shallow_band(a) {
        Some(xsp)
    } else if half_steep_band(a) {
        Some(
            if mag(xsp) > mag(ysp) {
                xsp
            } else {
                fx_mul(ysp, 32768) * neg_sin_sign(a)
            },
        )
    } else if full_steep_band(a) {
        Some(
            if mag(xsp) > mag(ysp) {
                xsp
            } else {
                ysp * neg_sin_sign(a)
            },
        )
    } else {
        None
    }
}

/// The state variables for a player.
#[derive(Clone, Copy, Debug, PartialEq, Eq, Structural)]
pub struct PlayerState {
    /// Whether the player is on ground
    pub ground: bool,
    /// Action for player
    pub action: PlayerAction,
    /// Direction for the player
    pub direction: Direction,
}

/// The full effect of [`PlayerState::set_ground`]: the next state and
/// speed, as a function of the old ones, the requested ground flag and
/// the contact direction.
pub open spec fn spec_set_ground(
    s: PlayerState,
    v: SpeedModel,
    new_state: bool,
    downward: bool,
) -> (PlayerState, SpeedModel) {
    if !s.ground && new_state {
        let (flag, v2) = if downward {
            match landing_gsp(v.angle, v.xsp, v.ysp) {
                Some(g) => (new_state, SpeedModel { gsp: g, ..v }),
                None => (new_state, v),
            }
        } else {
            if upward_slope_band(v.angle) {
                (new_state, SpeedModel { gsp: v.ysp * neg_sin_sign(v.angle), ..v })
            } else if ceiling_band(v.angle) {
                (false, SpeedModel { ysp: 0, ..v })
            } else {
                (new_state, v)
            }
        };
        let action = if flag && s.action == PlayerAction::Jumping {
            PlayerAction::Default
        } else {
            s.action
        };
        (PlayerState { ground: flag, action, ..s }, v2)
    } else {
        (PlayerState { ground: new_state, ..s }, v)
    }
}

impl PlayerState {
    /// The state a player spawns in: standing on the ground, idle,
    /// facing right.
    pub open spec fn spec_spawn() -> PlayerState {
        PlayerState { ground: true, action: PlayerAction::Default, direction: Direction::Right }
    }

    pub fn get_ground(&self) -> (r: bool)
        ensures
            r == self.ground,
    {
        self.ground
    }

    /// Define the ground state.  This will also update the player
    /// speed: on an airborne-to-grounded transition the ground speed is
    /// recomputed from the world velocity and the contact angle, band
    /// by band, and an overhead contact is rejected.  Remember to set
    /// the player speed's angle to the ground angle BEFORE calling this
    /// function.
    pub fn set_ground(&mut self, state: bool, speed: &mut PlayerSpeed, downward: bool)
        requires
            old(speed)@.wf(),
        ensures
            (*final(self), final(speed)@) == spec_set_ground(
                *old(self),
                old(speed)@,
                state,
                downward,
            ),
            final(speed)@.wf(),
    {
        proof {
            lemma_sin_deg_sign(old(speed)@.angle);
        }
        let mut state = state;
        if !self.ground && state {
            let a: u16 = speed.angle;
            if downward {
                // Shallow angle
                if a <= 23 || a >= 339 {
                    speed.gsp = speed.xsp;
                }
                // Half steep
                else if (a > 23 && a <= 45) || (a >= 315 && a < 339) {
                    speed.gsp = if fx_abs(speed.xsp) > fx_abs(speed.ysp) {
                        speed.xsp
                    } else {
                        let s: i64 = -fx_signum(sin_fx(a));
                        mul_sign(mul_fx(speed.ysp, 32768), s)
                    };
                }
                // Full steep
                else if (a > 45 && a <= 90) || (a >= 270 && a < 315) {
                    speed.gsp = if fx_abs(speed.xsp) > fx_abs(speed.ysp) {
                        speed.xsp
                    } else {
                        let s: i64 = -fx_signum(sin_fx(a));
                        mul_sign(speed.ysp, s)
                    };
                }
            } else {
                // Going upward
                // Slope
                if (a > 90 && a <= 135) || (a > 225 && a <= 270) {
                    let s: i64 = -fx_signum(sin_fx(a));
                    speed.gsp = mul_sign(speed.ysp, s);
                }
                // Ceiling
                else if a > 135 && a <= 225 {
                    speed.ysp = 0;
                    state = false;
                }
            }

            if state && self.action == PlayerAction::Jumping {
                self.action = PlayerAction::Default;
            }
        }
        self.ground = state;
    }
}

impl Default for PlayerState {
    /// The spawn state.
    fn default() -> (r: Self)
        ensures
            r == PlayerState::spec_spawn(),
    {
        PlayerState {
            ground: true,
            action: PlayerAction::Default,
            direction: Direction::Right,
        }
    }
}

/// The downward landing bands partition their domain: at most one band
/// holds at any angle, and one of them holds exactly on the floor-facing
/// half of the circle.
pub proof fn lemma_landing_bands_partition(a: int)
    requires
        0 <= a < 360,
    ensures
        shallow_band(a) ==> !half_steep_band(a) && !full_steep_band(a),
        half_steep_band(a) ==> !shallow_band(a) && !full_steep_band(a),
        full_steep_band(a) ==> !shallow_band(a) && !half_steep_band(a),
        (shallow_band(a) || half_steep_band(a) || full_steep_band(a)) <==> (0 <= a <= 90 || 270
            <= a < 360),
{
}

/// A ceiling contact never grounds the player: the landing is rejected
/// and the vertical speed is cancelled, whatever the incoming velocity.
pub proof fn lemma_ceiling_rejects_landing(s: PlayerState, v: SpeedModel, new_state: bool)
    requires
        !s.ground,
        new_state,
        ceiling_band(v.angle),
    ensures
        !spec_set_ground(s, v, new_state, false).0.ground,
        spec_set_ground(s, v, new_state, false).1.ysp == 0,
{
}

} // verus!
