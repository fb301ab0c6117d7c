//! A minimal two-paddle ball game: the per-frame simulation core.
//!
//! The play field is a fixed grid of screen pixels, origin at the top left,
//! `y` increasing downward. Positions and per-axis speeds are signed pixel
//! counts. Rendering, asset loading and key polling belong to the frame
//! driver around this crate; the crate itself holds the state-transition
//! logic: paddle movement, ball integration, wall bounces, paddle-collision
//! reflection, scoring and reset.

use vstd::prelude::*;

pub mod controllers;
pub mod entity;
pub mod game;
pub mod geometry;
pub mod physics;

verus! {

/// Width of the play field in pixels, fixed for the process lifetime.
pub const SCREEN_WIDTH: i32 = 300;

/// Height of the play field in pixels, fixed for the process lifetime.
pub const SCREEN_HEIGHT: i32 = 240;

} // verus!
