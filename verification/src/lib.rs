//! Split-screen two-player render pipeline core.
//!
//! The library models the per-frame render pipeline of a fixed two-viewport
//! renderer: a command buffer with per-player visibility rules, the camera
//! transform built from each player's pose, and the viewport render pass as
//! an ordered stream of backend operations whose matrix-stack discipline is
//! proved balanced. The graphics backend itself (window, GPU state, floating
//! point matrix expansion) sits outside the library and interprets the
//! operation stream.

pub mod camera;
pub mod chunk;
pub mod command;
pub mod components;
pub mod geometry;
pub mod machine;
pub mod pass;

use vstd::prelude::*;

verus! {

/// Fixed-point world scalar: one world unit is `COORD_SCALE` ticks.
pub const COORD_SCALE: i32 = 1000;

} // verus!
