//! The movement integrator: the per-tick update of speed, action and
//! position from input, constants and state.
//!
//! One tick runs, in order: the placeholder floor contact, the grounded
//! phase (action resolution, acceleration, friction, slope factor,
//! top-speed cap, decomposition into world velocity) or the airborne
//! horizontal phase, then the airborne vertical phase (drag, gravity,
//! jump-release cap) or the jump trigger, and finally position
//! integration.  Every step is a function of plain values with an exact
//! contract, and [`update`] composes them in the tick order.

use vstd::prelude::*;
use crate::constants::{PlayerConstants, TUNING_LIMIT};
use crate::fixed::{fx_cap, fx_clamp, fx_mul, fx_tdiv, fx_tmod, mag, sgn, POS_LIMIT, VEL_LIMIT};
use crate::fixed::{cap_mag, fx_abs, fx_signum, mul_fx, mul_sign, sat_add};
use crate::general::{Direction, Position, PositionModel};
use crate::input::{Input, InputButton};
use crate::player::{PlayerAction, PlayerSpeed, SpeedModel};
use crate::state::{spec_set_ground, PlayerState};
use crate::trig::{cos_deg, cos_fx, sin_deg, sin_fx};

verus! {

/// Height of the placeholder flat floor, in fixed-point sub-units
/// (240 pixels): the stand-in for a real terrain oracle.
pub const FAKE_GROUND_Y: i64 = 240 * 65536;

/// Step 1, the placeholder floor contact: an airborne player that has
/// reached the floor height is snapped to it and attached at angle 0.
pub open spec fn spec_fallback(s: PlayerState, p: PositionModel, v: SpeedModel) -> (
    PlayerState,
    PositionModel,
    SpeedModel,
) {
    if !s.ground && p.y >= FAKE_GROUND_Y {
        let p1 = PositionModel { y: FAKE_GROUND_Y as int, ..p };
        let v1 = SpeedModel { angle: 0, ..v };
        let (s2, v2) = spec_set_ground(s, v1, true, true);
        (s2, p1, v2)
    } else {
        (s, p, v)
    }
}

/// Step 2, grounded action pre-resolution: standing still with only Up
/// or only Down held enters the looking-up or crouching pose, and the
/// poses release to the default action once neither key holds.
pub open spec fn spec_resolve_action(a: PlayerAction, gsp: int, up: bool, down: bool) -> PlayerAction {
    if gsp == 0 && up && !down {
        PlayerAction::LookingUp
    } else if gsp == 0 && !up && down {
        PlayerAction::Crouching
    } else if a == PlayerAction::Crouching || a == PlayerAction::LookingUp {
        PlayerAction::Default
    } else {
        a
    }
}

/// Step 3, grounded horizontal movement: holding exactly one direction
/// accelerates with it or, against the current motion, decelerates and
/// skids; the facing direction follows the held key.
pub open spec fn spec_ground_accel(
    s: PlayerState,
    c: PlayerConstants,
    v: SpeedModel,
    left: bool,
    right: bool,
) -> (PlayerState, SpeedModel) {
    if s.action == PlayerAction::Default || s.action == PlayerAction::Skidding {
        if !left && right {
            let (a1, g1) = if v.gsp < 0 {
                (PlayerAction::Skidding, v.gsp + c.dec)
            } else {
                (s.action, v.gsp + c.acc)
            };
            let a2 = if a1 == PlayerAction::Skidding && g1 >= 0 {
                PlayerAction::Default
            } else {
                a1
            };
            (
                PlayerState { action: a2, direction: Direction::Right, ..s },
                SpeedModel { gsp: g1, ..v },
            )
        } else if left && !right {
            let (a1, g1) = if v.gsp > 0 {
                (PlayerAction::Skidding, v.gsp - c.dec)
            } else {
                (s.action, v.gsp - c.acc)
            };
            let a2 = if a1 == PlayerAction::Skidding && g1 <= 0 {
                PlayerAction::Default
            } else {
                a1
            };
            (
                PlayerState { action: a2, direction: Direction::Left, ..s },
                SpeedModel { gsp: g1, ..v },
            )
        } else {
            (s, v)
        }
    } else {
        (s, v)
    }
}

/// Step 4, friction: with no direction held (or both), the ground speed
/// shrinks toward zero by up to `frc`, never crossing zero.
pub open spec fn spec_friction(gsp: int, frc: int) -> int {
    gsp - (if mag(gsp) <= frc {
        mag(gsp)
    } else {
        frc
    }) * sgn(gsp)
}

/// Step 6, the slope factor: above the minimum speed, gravity pulls the
/// ground speed along the incline, harder when rolling downhill and
/// softer when rolling uphill.
pub open spec fn spec_slope_factor(a: PlayerAction, c: PlayerConstants, gsp: int, angle: int) -> int {
    if mag(gsp) >= c.min_slp {
        let asin = sin_deg(angle);
        let k = if a == PlayerAction::Rolling {
            if sgn(gsp) == sgn(asin) {
                c.slprollup
            } else {
                c.slprolldown
            }
        } else {
            c.slp
        };
        gsp - fx_mul(asin, k as int)
    } else {
        gsp
    }
}

/// The whole grounded phase, steps 2 through 8: action resolution,
/// acceleration, friction, skid release, slope factor, top-speed cap
/// and decomposition of the ground speed into world velocity.
pub open spec fn spec_ground_phase(
    s: PlayerState,
    c: PlayerConstants,
    v: SpeedModel,
    up: bool,
    down: bool,
    left: bool,
    right: bool,
) -> (PlayerState, SpeedModel) {
    let a1 = spec_resolve_action(s.action, v.gsp, up, down);
    let (s2, v2) = spec_ground_accel(PlayerState { action: a1, ..s }, c, v, left, right);
    let g3 = if (!left && !right) || (left && right) {
        spec_friction(v2.gsp, c.frc as int)
    } else {
        v2.gsp
    };
    let a3 = if g3 == 0 && s2.action == PlayerAction::Skidding {
        PlayerAction::Default
    } else {
        s2.action
    };
    let g4 = spec_slope_factor(a3, c, g3, v.angle);
    let g5 = fx_cap(g4, c.top as int);
    let xsp = fx_mul(g5, cos_deg(v.angle));
    let ysp = fx_mul(g5, -sin_deg(v.angle));
    (
        PlayerState { action: a3, ..s2 },
        SpeedModel { xsp, ysp, gsp: g5, angle: v.angle },
    )
}

/// Step 9, airborne horizontal movement: holding exactly one direction
/// accelerates with it at the air rate; the facing direction follows
/// the held key.
pub open spec fn spec_air_accel(
    s: PlayerState,
    c: PlayerConstants,
    v: SpeedModel,
    left: bool,
    right: bool,
) -> (PlayerState, SpeedModel) {
    let xsp = if right && !left {
        v.xsp + c.air
    } else if left && !right {
        v.xsp - c.air
    } else {
        v.xsp
    };
    let dir = if !left && right {
        Direction::Right
    } else if left && !right {
        Direction::Left
    } else {
        s.direction
    };
    (PlayerState { direction: dir, ..s }, SpeedModel { xsp, ..v })
}

/// The air drag correction: the sub-eighth-pixel part of the horizontal
/// speed, shaved by a factor of 256.
pub open spec fn spec_air_drag(xsp: int) -> int {
    xsp - fx_tdiv(fx_tmod(xsp, 8192), 256)
}

/// Steps 10 and 12, airborne vertical movement: skidding is released
/// (it makes no sense in the air), drag applies while rising, the
/// horizontal speed is capped, gravity pulls down, and a released jump
/// button caps the rise for variable jump height.
pub open spec fn spec_air_vertical(
    s: PlayerState,
    c: PlayerConstants,
    v: SpeedModel,
    pressing_jump: bool,
) -> (PlayerState, SpeedModel) {
    let a = if s.action == PlayerAction::Skidding {
        PlayerAction::Default
    } else {
        s.action
    };
    let xsp1 = if v.ysp < 0 && v.ysp > c.minjmp {
        spec_air_drag(v.xsp)
    } else {
        v.xsp
    };
    let xsp2 = fx_cap(xsp1, c.top as int);
    let ysp1 = fx_clamp(v.ysp + c.grv, VEL_LIMIT as int);
    let ysp2 = if !pressing_jump && ysp1 < c.minjmp {
        c.minjmp as int
    } else {
        ysp1
    };
    (PlayerState { action: a, ..s }, SpeedModel { xsp: xsp2, ysp: ysp2, ..v })
}

/// Step 11, the jump trigger: on a rising edge of the jump button while
/// grounded, the player leaves the ground and receives the jump impulse
/// projected along the contact angle.
pub open spec fn spec_try_jump(
    s: PlayerState,
    c: PlayerConstants,
    v: SpeedModel,
    pressed_jump: bool,
) -> (PlayerState, SpeedModel) {
    if pressed_jump {
        let (s1, v1) = spec_set_ground(s, v, false, true);
        let s2 = PlayerState { action: PlayerAction::Jumping, ..s1 };
        let xsp = v1.xsp - fx_mul(c.jmp as int, sin_deg(v.angle));
        let ysp = v1.ysp - fx_mul(c.jmp as int, cos_deg(v.angle));
        (s2, SpeedModel { xsp, ysp, ..v1 })
    } else {
        (s, v)
    }
}

/// Step 13, position integration, saturated at the representable world
/// bounds.
pub open spec fn spec_integrate(p: PositionModel, v: SpeedModel) -> PositionModel {
    PositionModel {
        x: fx_clamp(p.x + v.xsp, POS_LIMIT as int),
        y: fx_clamp(p.y + v.ysp, POS_LIMIT as int),
    }
}

/// One whole tick of the movement integrator.
pub open spec fn spec_update(
    s: PlayerState,
    c: PlayerConstants,
    p: PositionModel,
    v: SpeedModel,
    inp: Input,
) -> (PlayerState, PositionModel, SpeedModel) {
    let up = inp.spec_pressing(InputButton::Up);
    let down = inp.spec_pressing(InputButton::Down);
    let left = inp.spec_pressing(InputButton::Left);
    let right = inp.spec_pressing(InputButton::Right);
    let (s1, p1, v1) = spec_fallback(s, p, v);
    let (s2, v2) = if s1.ground {
        spec_ground_phase(s1, c, v1, up, down, left, right)
    } else {
        spec_air_accel(s1, c, v1, left, right)
    };
    let (s3, v3) = if !s2.ground {
        spec_air_vertical(s2, c, v2, inp.spec_pressing(InputButton::A))
    } else {
        spec_try_jump(s2, c, v2, inp.spec_pressed(InputButton::A))
    };
    (s3, spec_integrate(p1, v3), v3)
}

/// Step 1: snap an airborne player that has reached the placeholder
/// floor onto it and attach at angle 0.
pub fn fallback_contact(state: &mut PlayerState, position: &mut Position, speed: &mut PlayerSpeed)
    requires
        old(speed)@.wf(),
        old(position)@.wf(),
    ensures
        (*final(state), final(position)@, final(speed)@) == spec_fallback(
            *old(state),
            old(position)@,
            old(speed)@,
        ),
        final(speed)@.wf(),
        final(position)@.wf(),
{
    if !state.get_ground() && position.y >= FAKE_GROUND_Y {
        position.y = FAKE_GROUND_Y;
        speed.angle = 0;
        state.set_ground(true, speed, true);
    }
}

/// Step 2: resolve the looking-up and crouching poses from the held
/// vertical keys while standing still.
pub fn resolve_action(state: &mut PlayerState, speed: &PlayerSpeed, up: bool, down: bool)
    ensures
        final(state).action == spec_resolve_action(old(state).action, speed@.gsp, up, down),
        final(state).ground == old(state).ground,
        final(state).direction == old(state).direction,
{
    state.action = if speed.gsp == 0 && up && !down {
        PlayerAction::LookingUp
    } else if speed.gsp == 0 && !up && down {
        PlayerAction::Crouching
    } else if state.action == PlayerAction::Crouching || state.action == PlayerAction::LookingUp {
        PlayerAction::Default
    } else {
        state.action
    };
}

/// Step 3: grounded acceleration, deceleration and skidding.
pub fn ground_accel(
    state: &mut PlayerState,
    speed: &mut PlayerSpeed,
    c: &PlayerConstants,
    left: bool,
    right: bool,
)
    requires
        c.wf(),
        mag(old(speed)@.gsp) <= VEL_LIMIT,
    ensures
        (*final(state), final(speed)@) == spec_ground_accel(*old(state), *c, old(speed)@, left, right),
        mag(final(speed)@.gsp) <= VEL_LIMIT + TUNING_LIMIT,
        final(speed).xsp == old(speed).xsp,
        final(speed).ysp == old(speed).ysp,
        final(speed).angle == old(speed).angle,
{
    if state.action == PlayerAction::Default || state.action == PlayerAction::Skidding {
        if !left && right {
            state.direction = Direction::Right;
            speed.gsp = speed.gsp + if speed.gsp < 0 {
                // Decelerate if moving left
                state.action = PlayerAction::Skidding;
                c.dec
            } else {
                // Accelerate otherwise
                c.acc
            };
            if state.action == PlayerAction::Skidding && speed.gsp >= 0 {
                state.action = PlayerAction::Default;
            }
        } else if left && !right {
            state.direction = Direction::Left;
            speed.gsp = speed.gsp - if speed.gsp > 0 {
                // Decelerate if moving right
                state.action = PlayerAction::Skidding;
                c.dec
            } else {
                // Accelerate otherwise
                c.acc
            };
            if state.action == PlayerAction::Skidding && speed.gsp <= 0 {
                state.action = PlayerAction::Default;
            }
        }
    }
}

/// Step 4: friction, when no direction (or both) is held.  The ground
/// speed shrinks by at most `frc` and never changes sign.
pub fn apply_friction(speed: &mut PlayerSpeed, c: &PlayerConstants, left: bool, right: bool)
    requires
        c.wf(),
        mag(old(speed)@.gsp) <= VEL_LIMIT + TUNING_LIMIT,
    ensures
        final(speed)@.gsp == (if (!left && !right) || (left && right) {
            spec_friction(old(speed)@.gsp, c.frc as int)
        } else {
            old(speed)@.gsp
        }),
        mag(final(speed)@.gsp) <= mag(old(speed)@.gsp),
        sgn(final(speed)@.gsp) == sgn(old(speed)@.gsp) || final(speed)@.gsp == 0,
        final(speed).xsp == old(speed).xsp,
        final(speed).ysp == old(speed).ysp,
        final(speed).angle == old(speed).angle,
{
    if (!left && !right) || (left && right) {
        let m: i64 = fx_abs(speed.gsp);
        let f: i64 = if m <= c.frc {
            m
        } else {
            c.frc
        };
        speed.gsp = speed.gsp - mul_sign(f, fx_signum(speed.gsp));
        proof {
            crate::fixed::lemma_mul_sign_cases(f as int, old(speed)@.gsp);
        }
    }
}

/// Step 5: release the skidding pose once the ground speed has reached
/// exactly zero.
pub fn clear_skid_on_stop(state: &mut PlayerState, speed: &PlayerSpeed)
    ensures
        final(state).action == (if speed@.gsp == 0 && old(state).action == PlayerAction::Skidding {
            PlayerAction::Default
        } else {
            old(state).action
        }),
        final(state).ground == old(state).ground,
        final(state).direction == old(state).direction,
{
    if speed.gsp == 0 && state.action == PlayerAction::Skidding {
        state.action = PlayerAction::Default;
    }
}

/// Step 6: the slope factor.
pub fn apply_slope_factor(state: &PlayerState, speed: &mut PlayerSpeed, c: &PlayerConstants)
    requires
        c.wf(),
        mag(old(speed)@.gsp) <= VEL_LIMIT + TUNING_LIMIT,
        0 <= old(speed)@.angle < 360,
    ensures
        final(speed)@.gsp == spec_slope_factor(state.action, *c, old(speed)@.gsp, old(speed)@.angle),
        mag(final(speed)@.gsp) <= VEL_LIMIT + 2 * TUNING_LIMIT,
        final(speed).xsp == old(speed).xsp,
        final(speed).ysp == old(speed).ysp,
        final(speed).angle == old(speed).angle,
{
    if fx_abs(speed.gsp) >= c.min_slp {
        let angle_sin: i64 = sin_fx(speed.angle);
        let k: i64 = if state.action == PlayerAction::Rolling {
            if fx_signum(speed.gsp) == fx_signum(angle_sin) {
                c.slprollup
            } else {
                c.slprolldown
            }
        } else {
            c.slp
        };
        proof {
            crate::trig::lemma_sin_deg_bounds(old(speed)@.angle);
            assert(mag(angle_sin as int) * mag(k as int) / 65536 <= mag(k as int))
                by (nonlinear_arith)
                requires
                    mag(angle_sin as int) <= 65536,
                    0 <= mag(k as int),
            ;
        }
        speed.gsp = speed.gsp - mul_fx(angle_sin, k);
    }
}

/// Step 7: the top-speed cap on the ground speed.  Afterwards the
/// ground speed's magnitude never exceeds `top`.
pub fn apply_top_speed(speed: &mut PlayerSpeed, c: &PlayerConstants)
    requires
        c.wf(),
        old(speed)@.gsp > i64::MIN,
    ensures
        final(speed)@.gsp == fx_cap(old(speed)@.gsp, c.top as int),
        mag(final(speed)@.gsp) <= c.top,
        final(speed).xsp == old(speed).xsp,
        final(speed).ysp == old(speed).ysp,
        final(speed).angle == old(speed).angle,
{
    speed.gsp = cap_mag(speed.gsp, c.top);
}

/// Step 8: decompose the ground speed into world velocity along the
/// contact angle.
pub fn decompose_speed(speed: &mut PlayerSpeed)
    requires
        mag(old(speed)@.gsp) <= VEL_LIMIT,
        0 <= old(speed)@.angle < 360,
    ensures
        final(speed)@.xsp == fx_mul(old(speed)@.gsp, cos_deg(old(speed)@.angle)),
        final(speed)@.ysp == fx_mul(old(speed)@.gsp, -sin_deg(old(speed)@.angle)),
        mag(final(speed)@.xsp) <= mag(old(speed)@.gsp),
        mag(final(speed)@.ysp) <= mag(old(speed)@.gsp),
        final(speed).gsp == old(speed).gsp,
        final(speed).angle == old(speed).angle,
{
    let angle_sin: i64 = sin_fx(speed.angle);
    let angle_cos: i64 = cos_fx(speed.angle);
    proof {
        crate::trig::lemma_sin_deg_bounds(old(speed)@.angle);
        crate::trig::lemma_cos_deg_bounds(old(speed)@.angle);
        let g = old(speed)@.gsp;
        assert(mag(g) * mag(angle_cos as int) / 65536 <= mag(g)) by (nonlinear_arith)
            requires
                0 <= mag(g),
                mag(angle_cos as int) <= 65536,
        ;
        assert(mag(g) * mag(-angle_sin as int) / 65536 <= mag(g)) by (nonlinear_arith)
            requires
                0 <= mag(g),
                mag(-angle_sin as int) <= 65536,
        ;
    }
    speed.xsp = mul_fx(speed.gsp, angle_cos);
    speed.ysp = mul_fx(speed.gsp, -angle_sin);
}

/// Step 9: airborne horizontal acceleration and facing.
pub fn air_accel(
    state: &mut PlayerState,
    speed: &mut PlayerSpeed,
    c: &PlayerConstants,
    left: bool,
    right: bool,
)
    requires
        c.wf(),
        mag(old(speed)@.xsp) <= VEL_LIMIT,
    ensures
        (*final(state), final(speed)@) == spec_air_accel(*old(state), *c, old(speed)@, left, right),
        mag(final(speed)@.xsp) <= VEL_LIMIT + TUNING_LIMIT,
        final(speed).ysp == old(speed).ysp,
        final(speed).gsp == old(speed).gsp,
        final(speed).angle == old(speed).angle,
{
    if right && !left {
        speed.xsp = speed.xsp + c.air;
    } else if left && !right {
        speed.xsp = speed.xsp - c.air;
    }

    // Air direction
    if !left && right {
        state.direction = Direction::Right;
    } else if left && !right {
        state.direction = Direction::Left;
    }
}

/// Steps 10 and 12: airborne vertical movement and the airborne skid
/// release.  Afterwards the horizontal speed's magnitude never exceeds
/// `top`.
pub fn air_vertical(
    state: &mut PlayerState,
    speed: &mut PlayerSpeed,
    c: &PlayerConstants,
    pressing_jump: bool,
)
    requires
        c.wf(),
        mag(old(speed)@.xsp) <= VEL_LIMIT + TUNING_LIMIT,
        mag(old(speed)@.ysp) <= VEL_LIMIT,
    ensures
        (*final(state), final(speed)@) == spec_air_vertical(
            *old(state),
            *c,
            old(speed)@,
            pressing_jump,
        ),
        mag(final(speed)@.xsp) <= c.top,
        mag(final(speed)@.ysp) <= VEL_LIMIT,
        final(speed).gsp == old(speed).gsp,
        final(speed).angle == old(speed).angle,
{
    // Skidding on air makes no sense at all
    if state.action == PlayerAction::Skidding {
        state.action = PlayerAction::Default;
    }

    // Apply air drag
    if speed.ysp < 0 && speed.ysp > c.minjmp {
        let m: u64 = fx_abs(speed.xsp) as u64 % 8192;
        let d: i64 = (m / 256) as i64;
        speed.xsp = speed.xsp - mul_sign(d, fx_signum(speed.xsp));
        proof {
            let x = old(speed)@.xsp;
            crate::fixed::lemma_mul_sign_cases(d as int, x);
            assert(m == mag(x) % 8192);
            if x >= 0 {
                assert(fx_tmod(x, 8192) == x % 8192);
            } else {
                assert(fx_tmod(x, 8192) == -((-x) % 8192));
            }
            assert(speed@.xsp == spec_air_drag(x));
        }
    }

    // Apply top speed
    speed.xsp = cap_mag(speed.xsp, c.top);

    // Apply gravity, saturated at the representable velocity range
    speed.ysp = sat_add(speed.ysp, c.grv, VEL_LIMIT);

    // Apply jump cap
    if !pressing_jump && speed.ysp < c.minjmp {
        speed.ysp = c.minjmp;
    }
}

/// Step 11: the jump trigger.
pub fn try_jump(
    state: &mut PlayerState,
    speed: &mut PlayerSpeed,
    c: &PlayerConstants,
    pressed_jump: bool,
)
    requires
        c.wf(),
        old(speed)@.wf(),
    ensures
        (*final(state), final(speed)@) == spec_try_jump(*old(state), *c, old(speed)@, pressed_jump),
        mag(final(speed)@.xsp) <= mag(old(speed)@.xsp) + TUNING_LIMIT,
        mag(final(speed)@.ysp) <= mag(old(speed)@.ysp) + TUNING_LIMIT,
        final(speed).gsp == old(speed).gsp,
        final(speed).angle == old(speed).angle,
{
    if pressed_jump {
        state.set_ground(false, speed, true);
        state.action = PlayerAction::Jumping;
        let angle_sin: i64 = sin_fx(speed.angle);
        let angle_cos: i64 = cos_fx(speed.angle);
        proof {
            crate::trig::lemma_sin_deg_bounds(old(speed)@.angle);
            crate::trig::lemma_cos_deg_bounds(old(speed)@.angle);
            assert(mag(c.jmp as int) * mag(angle_sin as int) / 65536 <= mag(c.jmp as int))
                by (nonlinear_arith)
                requires
                    0 <= mag(c.jmp as int),
                    mag(angle_sin as int) <= 65536,
            ;
            assert(mag(c.jmp as int) * mag(angle_cos as int) / 65536 <= mag(c.jmp as int))
                by (nonlinear_arith)
                requires
                    0 <= mag(c.jmp as int),
                    mag(angle_cos as int) <= 65536,
            ;
        }
        speed.xsp = speed.xsp - mul_fx(c.jmp, angle_sin);
        speed.ysp = speed.ysp - mul_fx(c.jmp, angle_cos);
    }
}

/// Step 13: integrate the world velocity into the position, saturated
/// at the representable world bounds.
pub fn integrate(position: &mut Position, speed: &PlayerSpeed)
    requires
        old(position)@.wf(),
        mag(speed@.xsp) <= VEL_LIMIT,
        mag(speed@.ysp) <= VEL_LIMIT,
    ensures
        final(position)@ == spec_integrate(old(position)@, speed@),
        final(position)@.wf(),
{
    position.x = sat_add(position.x, speed.xsp, POS_LIMIT);
    position.y = sat_add(position.y, speed.ysp, POS_LIMIT);
}

/// One tick of the movement integrator, in the order of the thirteen
/// steps.  The resulting state, position and speed are exactly
/// [`spec_update`] of the old ones.
pub fn update(
    state: &mut PlayerState,
    constants: &PlayerConstants,
    position: &mut Position,
    speed: &mut PlayerSpeed,
    input: &Input,
)
    requires
        constants.wf(),
        old(speed)@.wf(),
        old(position)@.wf(),
    ensures
        (*final(state), final(position)@, final(speed)@) == spec_update(
            *old(state),
            *constants,
            old(position)@,
            old(speed)@,
            *input,
        ),
        final(speed)@.wf(),
        final(position)@.wf(),
{
    let up = input.pressing(InputButton::Up);
    let down = input.pressing(InputButton::Down);
    let left = input.pressing(InputButton::Left);
    let right = input.pressing(InputButton::Right);

    // Fake ground. Replace once a real terrain oracle exists.
    fallback_contact(state, position, speed);

    // Horizontal movement
    if state.get_ground() {
        resolve_action(state, speed, up, down);
        ground_accel(state, speed, constants, left, right);
        apply_friction(speed, constants, left, right);
        clear_skid_on_stop(state, speed);
        apply_slope_factor(state, speed, constants);
        apply_top_speed(speed, constants);
        decompose_speed(speed);
    } else {
        air_accel(state, speed, constants, left, right);
    }

    // Vertical movement
    if !state.get_ground() {
        air_vertical(state, speed, constants, input.pressing(InputButton::A));
    } else {
        try_jump(state, speed, constants, input.pressed(InputButton::A));
    }

    // Transform position
    integrate(position, speed);
}


/// Friction never flips the sign of the ground speed within one tick:
/// it shrinks the magnitude and at most reaches zero exactly.
pub proof fn lemma_friction_keeps_sign(gsp: int, frc: int)
    requires
        frc >= 0,
    ensures
        mag(spec_friction(gsp, frc)) <= mag(gsp),
        spec_friction(gsp, frc) == 0 || sgn(spec_friction(gsp, frc)) == sgn(gsp),
{
    crate::fixed::lemma_mul_sign_cases(
        if mag(gsp) <= frc {
            mag(gsp)
        } else {
            frc
        },
        gsp,
    );
}

/// The top-speed caps hold at the end of a tick: a tick that ends
/// grounded leaves the ground speed within `top`, and a tick that ran
/// the airborne phase leaves the horizontal speed within `top`.
pub proof fn lemma_top_speed(
    s: PlayerState,
    c: PlayerConstants,
    p: PositionModel,
    v: SpeedModel,
    inp: Input,
)
    requires
        c.wf(),
        v.wf(),
        p.wf(),
    ensures
        ({
            let (s1, p1, v1) = spec_fallback(s, p, v);
            let (s3, p3, v3) = spec_update(s, c, p, v, inp);
            &&& (s3.ground ==> mag(v3.gsp) <= c.top)
            &&& (!s1.ground ==> mag(v3.xsp) <= c.top)
        }),
{
    let (s1, p1, v1) = spec_fallback(s, p, v);
    let (s3, p3, v3) = spec_update(s, c, p, v, inp);
    if s1.ground {
        let up = inp.spec_pressing(InputButton::Up);
        let down = inp.spec_pressing(InputButton::Down);
        let left = inp.spec_pressing(InputButton::Left);
        let right = inp.spec_pressing(InputButton::Right);
        let (s2, v2) = spec_ground_phase(s1, c, v1, up, down, left, right);
        crate::fixed::lemma_mul_sign_cases(c.top as int, v2.gsp);
        assert(mag(v2.gsp) <= c.top);
    } else {
        crate::fixed::lemma_mul_sign_cases(c.top as int, spec_air_drag(v1.xsp));
        crate::fixed::lemma_mul_sign_cases(c.top as int, v1.xsp);
    }
}

/// A jump can be triggered only while grounded, on a rising edge of the
/// jump button: a fresh jumping action implies the player stood on the
/// ground with the button freshly pressed, and a tick that starts and
/// stays airborne keeps the jumping action exactly as it was.
pub proof fn lemma_jump_needs_ground_and_edge(
    s: PlayerState,
    c: PlayerConstants,
    p: PositionModel,
    v: SpeedModel,
    inp: Input,
)
    requires
        c.wf(),
        v.wf(),
        p.wf(),
    ensures
        ({
            let (s1, p1, v1) = spec_fallback(s, p, v);
            let (s3, p3, v3) = spec_update(s, c, p, v, inp);
            &&& (s3.action == PlayerAction::Jumping && s.action != PlayerAction::Jumping
                ==> s1.ground && inp.spec_pressed(InputButton::A))
            &&& (!s1.ground ==> (s3.action == PlayerAction::Jumping <==> s.action
                == PlayerAction::Jumping))
        }),
{
}

/// Skidding is reachable only from the default action, while grounded
/// and decelerating against the held direction; and a skidding player
/// is always grounded, since entering the air releases the skid.
pub proof fn lemma_skid_provenance(
    s: PlayerState,
    c: PlayerConstants,
    p: PositionModel,
    v: SpeedModel,
    inp: Input,
)
    requires
        c.wf(),
        v.wf(),
        p.wf(),
    ensures
        ({
            let (s1, p1, v1) = spec_fallback(s, p, v);
            let (s3, p3, v3) = spec_update(s, c, p, v, inp);
            let a1 = spec_resolve_action(
                s1.action,
                v1.gsp,
                inp.spec_pressing(InputButton::Up),
                inp.spec_pressing(InputButton::Down),
            );
            &&& (s3.action == PlayerAction::Skidding ==> s3.ground)
            &&& (s3.action == PlayerAction::Skidding && s.action != PlayerAction::Skidding
                ==> s1.ground && a1 == PlayerAction::Default && ((inp.spec_pressing(
                InputButton::Right,
            ) && !inp.spec_pressing(InputButton::Left) && v1.gsp < 0) || (inp.spec_pressing(
                InputButton::Left,
            ) && !inp.spec_pressing(InputButton::Right) && v1.gsp > 0)))
        }),
{
}

/// The arithmetic behind running up to top speed on flat ground: a
/// grounded default-action player at angle 0 with a non-negative
/// ground speed, holding only Right, gains exactly `acc` per tick
/// until the cap at `top`, with the whole speed staying horizontal.
pub proof fn lemma_flat_ground_run(
    s: PlayerState,
    c: PlayerConstants,
    p: PositionModel,
    v: SpeedModel,
    inp: Input,
)
    requires
        c.wf(),
        v.wf(),
        p.wf(),
        s.ground,
        s.action == PlayerAction::Default,
        v.angle == 0,
        v.gsp >= 0,
        c.acc > 0,
        inp.spec_pressing(InputButton::Right),
        !inp.spec_pressing(InputButton::Left),
        !inp.spec_pressing(InputButton::Up),
        !inp.spec_pressing(InputButton::Down),
        !inp.spec_pressed(InputButton::A),
    ensures
        ({
            let (s3, p3, v3) = spec_update(s, c, p, v, inp);
            &&& v3.gsp == (if v.gsp + c.acc >= c.top {
                c.top as int
            } else {
                v.gsp + c.acc
            })
            &&& v3.xsp == v3.gsp
            &&& v3.ysp == 0
            &&& s3.ground
            &&& s3.action == PlayerAction::Default
        }),
{
    let g1 = v.gsp + c.acc;
    crate::fixed::lemma_fx_mul_unit(c.slp as int);
    crate::fixed::lemma_mul_sign_cases(c.top as int, g1);
    let g5 = fx_cap(g1, c.top as int);
    crate::fixed::lemma_fx_mul_unit(g5);
}

} // verus!
