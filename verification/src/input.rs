//! Player input as the simulation sees it: one snapshot per seat and tick.

use vstd::prelude::*;
use crate::math::Vec2;

verus! {

/// The controls of one player on one tick.
#[derive(Clone, Copy, Debug, PartialEq, Eq)]
pub struct PlayerControl {
    /// Stick direction; each axis runs from minus one to one.
    pub move_direction: Vec2,
    /// Jump went down on this tick.
    pub jump_just_pressed: bool,
    /// Ragdoll went down on this tick.
    pub ragdoll_just_pressed: bool,
}

/// What one seat contributes to a tick.
#[derive(Clone, Copy, Debug, PartialEq, Eq)]
pub struct PlayerInput {
    /// Handle of the metadata of the character the player has chosen.
    pub selected_player: u32,
    pub control: PlayerControl,
}

/// The input of every seat, by seat index.
pub struct MatchInputs {
    pub players: Vec<PlayerInput>,
}

impl MatchInputs {
    /// The input of seat `idx`, if there is such a seat.
    pub open spec fn seat_spec(&self, idx: u32) -> Option<PlayerInput> {
        if (idx as int) < self.players@.len() {
            Some(self.players@[idx as int])
        } else {
            None
        }
    }

    /// The input of seat `idx`, if there is such a seat.
    pub fn seat(&self, idx: u32) -> (input: Option<PlayerInput>)
        ensures
            input == self.seat_spec(idx),
    {
        if (idx as usize) < self.players.len() {
            Some(self.players[idx as usize])
        } else {
            None
        }
    }
}

} // verus!
