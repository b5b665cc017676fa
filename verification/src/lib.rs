//! Locomotion and presentation state machine for a side-scrolling character.
//!
//! Each simulation tick converts held-key input and the previous tick's
//! ground-contact report into a requested displacement, hands that request to
//! an external physics mover, and then derives facing and animation state
//! from the displacement the mover actually resolved.  All quantities are
//! fixed-point integers: time in milliseconds, speeds in pixels per second,
//! displacements in millipixels (a speed times a millisecond count).

pub mod animation;
pub mod character;
pub mod config;
pub mod facing;
pub mod input;
pub mod jump;
pub mod laws;
pub mod tiles;

use vstd::prelude::*;

verus! {

/// Upper bound on the wall time of a single tick, in milliseconds.
/// One tick never spans more than a thousand seconds; every product of a
/// configured speed with a tick duration therefore fits comfortably in 64 bits.
pub const MAX_TICK_MS: u64 = 1_000_000;

} // verus!

