//! Core movement and camera logic for a Sonic-style 2D platformer.
//!
//! The crate covers the fixed-tick kinematic integrator that turns held
//! input and ground-contact angle into signed ground speed, the
//! ground-attachment transition that converts linear velocity into ground
//! speed on landing, the action state machine, and the camera controller
//! with its dead-zone and panning behaviours.
//!
//! All quantities are 16.16 fixed-point integers (see [`fixed`]): every
//! tuning constant of the movement system is an exact multiple of
//! 1/65536 of a pixel, so the fixed-point representation is exact where a
//! floating-point one would only be approximate.  Angles are whole
//! degrees, reduced mod 360, and the trigonometric helpers in [`trig`]
//! take degrees.
//!
//! Rendering, asset loading and input devices are left to the embedding
//! program, which talks to this crate through plain values.

pub mod camera;
pub mod constants;
pub mod draw_states;
pub mod draw_systems;
pub mod fixed;
pub mod general;
pub mod input;
pub mod level_editor;
pub mod map;
pub mod physics;
pub mod player;
pub mod screen_systems;
pub mod sensors;
pub mod state;
pub mod titlescreen;
pub mod trig;
