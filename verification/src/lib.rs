//! Rules of a small arcade game: a paddle keeps falling balls in the air.
//!
//! The crate decides; a host performs. Each tick the host hands the session
//! what the physics, the keyboard and the window report, and gets back the
//! effects to carry out. Lengths are whole world units, time is nanoseconds.

use vstd::prelude::*;

pub mod components;
pub mod effects;
pub mod laws;
pub mod layout;
pub mod model;
pub mod score;
pub mod state;
pub mod systems;
pub mod timer;

pub use score::Score;
pub use state::GameState;
pub use systems::Session;
pub use timer::SpawnRedBallTimer;

verus! {

/// Radius of a ball.
pub const RED_BALL_RADIUS: i32 = 20;

/// Paddle contacts after which a ball scores and leaves.
pub const RED_BALL_COLLISION_COUNT: usize = 2;

/// The default spawn period, in nanoseconds.
pub const RED_BALL_SPAWN_TIME: u64 = 1_000_000_000;

/// Width of the paddle.
pub const BLUE_RECTANGLE_WIDTH: i32 = 350;

/// Height of the paddle.
pub const BLUE_RECTANGLE_HEIGHT: i32 = 20;

/// Thickness of the four walls.
pub const WALL_THICKNESS: i32 = 15;

/// Horizontal speed of the paddle while a movement key is held.
pub const LINEAR_VELOCITY: i32 = 800;

/// Upward velocity a ball gains from each paddle contact.
pub const BOUNCE_IMPULSE: i32 = 250;

/// Free space kept between a spawning ball and the walls around it.
pub const SPAWN_PADDING: i32 = 10;

/// Gap between the floor and the underside of the paddle.
pub const PADDLE_CLEARANCE: i32 = 10;

} // verus!
