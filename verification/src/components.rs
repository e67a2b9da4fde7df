//! Semantic input state handed in by the platform layer.
//!
//! Raw keyboard polling happens outside the library; once per frame the
//! platform fills one `PlayerInputInfo` per player with the semantic
//! actions that are currently active.

use vstd::prelude::*;

verus! {

/// One player's semantic input actions for the current frame.
#[derive(Clone, Copy, PartialEq, Eq, Structural, Default, Debug)]
pub struct PlayerInputInfo {
    pub view_up: bool,
    pub view_down: bool,
    pub view_left: bool,
    pub view_right: bool,
    pub fire_pressed: bool,
    pub fire_down: bool,
    pub move_forward: bool,
    pub move_backward: bool,
    pub move_left: bool,
    pub move_right: bool,
    pub jump_pressed: bool,
    pub jump_down: bool,
}

/// The two players' input state for the current frame.
#[derive(Clone, Copy, Default, Debug)]
pub struct GameInput {
    pub player: [PlayerInputInfo; 2],
}

} // verus!
