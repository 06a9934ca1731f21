//! The two-state run/pause machine that gates the per-tick rules.

use vstd::prelude::*;

verus! {

/// Whether the per-tick rules run.
#[derive(Clone, Copy, Debug, PartialEq, Eq, Hash, Structural)]
pub enum GameState {
    Running,
    Paused,
}

impl GameState {
    /// The other state.
    pub open spec fn flipped(self) -> GameState {
        match self {
            GameState::Running => GameState::Paused,
            GameState::Paused => GameState::Running,
        }
    }
}

impl Default for GameState {
    /// A game starts running.
    fn default() -> (state: GameState)
        ensures
            state == GameState::Running,
    {
        GameState::Running
    }
}

/// One tick of the toggle: an edge-triggered press flips the state, anything
/// else leaves it alone.
pub fn toggle_game_state(current: GameState, just_pressed: bool) -> (next: GameState)
    ensures
        next == (if just_pressed { current.flipped() } else { current }),
{
    if just_pressed {
        match current {
            GameState::Running => GameState::Paused,
            GameState::Paused => GameState::Running,
        }
    } else {
        current
    }
}

} // verus!
