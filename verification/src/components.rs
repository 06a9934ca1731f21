//! What the rules know of the entities on the playfield.

use vstd::prelude::*;

verus! {

/// A falling ball, as far as the rules care: how often the paddle has struck it.
#[derive(Clone, Copy, Debug, PartialEq, Eq, Structural)]
pub struct RedBall {
    pub collision_count: usize,
}

/// Tags of the entities that exist at most once.
#[derive(Clone, Copy, Debug, PartialEq, Eq, Hash, Structural)]
pub enum Marker {
    /// The paddle.
    BlueRectangle,
    Ceil,
    Floor,
    LeftWall,
    RightWall,
    /// The text element that shows the score.
    ScoreText,
}

impl Marker {
    /// Whether the tag names one of the four boundaries of the playfield.
    pub open spec fn is_wall(self) -> bool {
        self is Ceil || self is Floor || self is LeftWall || self is RightWall
    }
}

/// Two entities began to touch. The pair has no order.
#[derive(Clone, Copy, Debug, PartialEq, Eq, Structural)]
pub struct Collision(pub u64, pub u64);

impl Collision {
    /// Whether the event pairs exactly these two entities, either way round.
    pub open spec fn pairs(self, a: u64, b: u64) -> bool {
        (self.0 == a && self.1 == b) || (self.0 == b && self.1 == a)
    }
}

} // verus!
