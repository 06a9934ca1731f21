//! What the rules ask the host to do.

use vstd::prelude::*;
use crate::components::Marker;
use crate::layout::Rect;

verus! {

/// One thing for the host to carry out. Effects come in the order in which
/// they are to happen.
#[derive(Clone, Copy, Debug, PartialEq, Eq, Structural)]
pub enum Effect {
    /// Create a static wall.
    SpawnWall { handle: u64, wall: Marker, area: Rect },
    /// Create the paddle, a kinematic body.
    SpawnPaddle { handle: u64, area: Rect },
    /// Create the text element that shows the score.
    SpawnScoreText { handle: u64 },
    /// Create a ball, a dynamic body, with its centre at `(x, y)`.
    SpawnBall { handle: u64, x: i32, y: i32 },
    /// Play the pluck sound once.
    PlaySound,
    /// Add `impulse` to the vertical velocity of a ball.
    Bounce { ball: u64, impulse: i32 },
    /// Write the score to the score text.
    ShowScore { score: u64 },
    /// Destroy a ball.
    Despawn { ball: u64 },
    /// Halt the physics.
    PausePhysics,
    /// Let the physics run again.
    ResumePhysics,
}

} // verus!
