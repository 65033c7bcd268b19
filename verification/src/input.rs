//! The input snapshot the movement core reads.
//!
//! The snapshot exposes level-triggered (`pressing`) and edge-triggered
//! (`pressed`) queries for each button.  Mapping keyboards, gamepads and
//! analog sticks onto these buttons is device plumbing and belongs to
//! the embedding program, which calls [`Input::set_button`] with plain
//! values.

use vstd::prelude::*;

verus! {

/// About 0.3 of a full stick deflection, in fixed-point units of the
/// deflection: below this a stick reads as centered.
pub const AXIS_DEAD_ZONE: i64 = 19661;

/// Which thumbstick axis an analog reading belongs to.
#[derive(Clone, Copy, Debug, PartialEq, Eq, Structural)]
pub enum StickAxis {
    Horizontal,
    Vertical,
}

/// The possible buttons of the game, regardless of the platform.
#[derive(Clone, Copy, Debug, PartialEq, Eq, Structural)]
pub enum InputButton {
    /// The debug button.
    Debug,
    /// The up button.
    Up,
    /// The down button.
    Down,
    /// The left button.
    Left,
    /// The right button.
    Right,
    /// The start button.
    Start,
    /// The select/back button.
    Back,
    /// The A button.
    A,
}

/// The state of every button at one instant.
#[derive(Clone, Copy, Debug, PartialEq, Eq, Structural)]
pub struct InputState {
    /// The state of the debug button.
    pub debug: bool,
    /// The state of the up button.
    pub up: bool,
    /// The state of the down button.
    pub down: bool,
    /// The state of the left button.
    pub left: bool,
    /// The state of the right button.
    pub right: bool,
    /// The state of the start button.
    pub start: bool,
    /// The state of the select/back button.
    pub back: bool,
    /// The state of the A button.
    pub a: bool,
}

/// The state of one button within a snapshot.
pub open spec fn button_held(s: InputState, btn: InputButton) -> bool {
    match btn {
        InputButton::Debug => s.debug,
        InputButton::Up => s.up,
        InputButton::Down => s.down,
        InputButton::Left => s.left,
        InputButton::Right => s.right,
        InputButton::Start => s.start,
        InputButton::Back => s.back,
        InputButton::A => s.a,
    }
}

/// The snapshot with every button released.
pub open spec fn all_released() -> InputState {
    InputState {
        debug: false,
        up: false,
        down: false,
        left: false,
        right: false,
        start: false,
        back: false,
        a: false,
    }
}

impl Default for InputState {
    /// Every button released.
    fn default() -> (r: Self)
        ensures
            r == all_released(),
    {
        InputState {
            debug: false,
            up: false,
            down: false,
            left: false,
            right: false,
            start: false,
            back: false,
            a: false,
        }
    }
}

/// The input system: the current snapshot and the one of the previous
/// frame, so that rising edges can be told from held buttons.
#[derive(Clone, Copy, Debug, PartialEq, Eq, Structural)]
pub struct Input {
    /// The snapshot of this frame.
    pub current: InputState,
    /// The snapshot of the previous frame.
    pub previous: InputState,
}

impl Default for Input {
    /// Both snapshots fully released.
    fn default() -> (r: Self)
        ensures
            r.current == all_released(),
            r.previous == all_released(),
    {
        Input { current: InputState::default(), previous: InputState::default() }
    }
}

impl Input {
    /// Whether `btn` is held in the current snapshot.
    pub open spec fn spec_pressing(self, btn: InputButton) -> bool {
        button_held(self.current, btn)
    }

    /// Whether `btn` went down this frame: held now, released before.
    pub open spec fn spec_pressed(self, btn: InputButton) -> bool {
        button_held(self.current, btn) && !button_held(self.previous, btn)
    }

    /// Roll the snapshots over; should be called once every frame, after
    /// the tick has read the input.
    pub fn post_update(&mut self)
        ensures
            final(self).previous == old(self).current,
            final(self).current == old(self).current,
    {
        self.previous = self.current;
    }

    /// Record the state of one button in the current snapshot.
    pub fn set_button(&mut self, btn: InputButton, state: bool)
        ensures
            button_held(final(self).current, btn) == state,
            forall|b: InputButton|
                b != btn ==> button_held(final(self).current, b) == button_held(
                    old(self).current,
                    b,
                ),
            final(self).previous == old(self).previous,
    {
        match btn {
            InputButton::Debug => self.current.debug = state,
            InputButton::Up => self.current.up = state,
            InputButton::Down => self.current.down = state,
            InputButton::Left => self.current.left = state,
            InputButton::Right => self.current.right = state,
            InputButton::Start => self.current.start = state,
            InputButton::Back => self.current.back = state,
            InputButton::A => self.current.a = state,
        }
    }

    /// Record an analog stick reading on the given axis, with the
    /// deflection in fixed-point units (positive meaning right or up).
    /// Inside the dead zone the axis releases both of its directions;
    /// outside it, the direction of the sign is pressed and the
    /// opposite one released.
    pub fn set_axis(&mut self, axis: StickAxis, value: i64)
        requires
            value > i64::MIN,
        ensures
            final(self).previous == old(self).previous,
            match axis {
                StickAxis::Horizontal => {
                    &&& final(self).current.right == (crate::fixed::mag(value as int)
                        >= AXIS_DEAD_ZONE && value > 0)
                    &&& final(self).current.left == (crate::fixed::mag(value as int)
                        >= AXIS_DEAD_ZONE && value <= 0)
                    &&& final(self).current == (InputState {
                        left: final(self).current.left,
                        right: final(self).current.right,
                        ..old(self).current
                    })
                },
                StickAxis::Vertical => {
                    &&& final(self).current.up == (crate::fixed::mag(value as int)
                        >= AXIS_DEAD_ZONE && value > 0)
                    &&& final(self).current.down == (crate::fixed::mag(value as int)
                        >= AXIS_DEAD_ZONE && value <= 0)
                    &&& final(self).current == (InputState {
                        up: final(self).current.up,
                        down: final(self).current.down,
                        ..old(self).current
                    })
                },
            },
    {
        let active: bool = crate::fixed::fx_abs(value) >= AXIS_DEAD_ZONE;
        match axis {
            StickAxis::Horizontal => {
                if !active {
                    self.current.left = false;
                    self.current.right = false;
                } else if value > 0 {
                    self.current.left = false;
                    self.current.right = true;
                } else {
                    self.current.left = true;
                    self.current.right = false;
                }
            },
            StickAxis::Vertical => {
                if !active {
                    self.current.up = false;
                    self.current.down = false;
                } else if value > 0 {
                    self.current.up = true;
                    self.current.down = false;
                } else {
                    self.current.up = false;
                    self.current.down = true;
                }
            },
        }
    }

    /// Checks if the given button is currently being pressed.
    pub fn pressing(&self, btn: InputButton) -> (r: bool)
        ensures
            r == self.spec_pressing(btn),
    {
        match btn {
            InputButton::Debug => self.current.debug,
            InputButton::Up => self.current.up,
            InputButton::Down => self.current.down,
            InputButton::Left => self.current.left,
            InputButton::Right => self.current.right,
            InputButton::Start => self.current.start,
            InputButton::Back => self.current.back,
            InputButton::A => self.current.a,
        }
    }

    /// Checks if the given button was tapped this frame.  A button is
    /// never tapped for more than one frame.
    pub fn pressed(&self, btn: InputButton) -> (r: bool)
        ensures
            r == self.spec_pressed(btn),
    {
        match btn {
            InputButton::Debug => self.current.debug && !self.previous.debug,
            InputButton::Up => self.current.up && !self.previous.up,
            InputButton::Down => self.current.down && !self.previous.down,
            InputButton::Left => self.current.left && !self.previous.left,
            InputButton::Right => self.current.right && !self.previous.right,
            InputButton::Start => self.current.start && !self.previous.start,
            InputButton::Back => self.current.back && !self.previous.back,
            InputButton::A => self.current.a && !self.previous.a,
        }
    }
}

} // verus!
