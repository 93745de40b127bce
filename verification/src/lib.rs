//! Core simulation logic for a two-player ball-sport game: player movement
//! with easing and court clamping, aim smoothing and cone clamping, swing and
//! hit resolution with trajectory computation, the airborne jump reaction,
//! and rally outcome adjudication.
//!
//! All continuous quantities (positions, speeds, directions, durations) are
//! fixed-point integers with a scale of 1000 units per world unit.

use vstd::prelude::*;

pub mod aim;
pub mod ball;
pub mod court;
pub mod fixed;
pub mod jump;
pub mod movement;
pub mod player;
pub mod rally;
pub mod swing;
pub mod vec2;

verus! {

} // verus!
