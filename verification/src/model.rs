//! The mathematical picture of a session, and the rules as functions on it.
//!
//! Every executable function of the crate is specified against these
//! definitions, and the laws of the game are proved about them.

use vstd::prelude::*;
use crate::components::{Collision, Marker};
use crate::effects::Effect;
use crate::layout::{paddle_area, spawn_bounds, spawn_height, wall_area, Viewport};
use crate::state::GameState;
use crate::systems::TickInput;
use crate::timer::TimerView;
use crate::{BOUNCE_IMPULSE, LINEAR_VELOCITY, RED_BALL_COLLISION_COUNT};

verus! {

/// A session as the rules see it.
pub struct SessionView {
    /// Whether the per-tick rules run.
    pub state: GameState,
    /// Points awarded so far.
    pub score: nat,
    /// The spawn countdown.
    pub timer: TimerView,
    /// The handle the next entity will get. Handles are given out in
    /// increasing order and never again.
    pub next_handle: nat,
    pub blue_rectangle: Option<u64>,
    pub ceil: Option<u64>,
    pub floor: Option<u64>,
    pub left_wall: Option<u64>,
    pub right_wall: Option<u64>,
    pub score_text: Option<u64>,
    /// The live balls, each with the number of paddle contacts it has had.
    pub balls: Map<u64, nat>,
}

/// The velocity the paddle gets from the keys held and the walls touched:
/// leftwards unless the left wall is in the way, else rightwards unless the
/// right wall is in the way, else none.
pub open spec fn paddle_velocity(
    left_held: bool,
    right_held: bool,
    touching_left: bool,
    touching_right: bool,
    current: int,
) -> int {
    if left_held && !touching_left {
        -LINEAR_VELOCITY
    } else if right_held && !touching_right {
        LINEAR_VELOCITY as int
    } else if current != 0 {
        0
    } else {
        current
    }
}

/// Whether the effect creates the ball `handle` at the height `y`, somewhere
/// from `low` to `high`.
pub open spec fn spawns_ball(effect: Effect, handle: int, low: int, high: int, y: int) -> bool {
    effect matches Effect::SpawnBall { handle: h, x, y: at } && h == handle && low <= x <= high
        && at == y
}

/// What a press of the toggle key asks of the physics.
pub open spec fn toggle_effects(state: GameState, pressed: bool) -> Seq<Effect> {
    if !pressed {
        Seq::empty()
    } else {
        match state {
            GameState::Running => seq![Effect::PausePhysics],
            GameState::Paused => seq![Effect::ResumePhysics],
        }
    }
}

impl SessionView {
    /// The entity that carries the tag, if it exists.
    pub open spec fn single(self, marker: Marker) -> Option<u64> {
        match marker {
            Marker::BlueRectangle => self.blue_rectangle,
            Marker::Ceil => self.ceil,
            Marker::Floor => self.floor,
            Marker::LeftWall => self.left_wall,
            Marker::RightWall => self.right_wall,
            Marker::ScoreText => self.score_text,
        }
    }

    /// Whether the handle names a ball that exists.
    pub open spec fn live(self, handle: u64) -> bool {
        self.balls.contains_key(handle)
    }

    /// What holds of every session: the countdown is sound, every entity has a
    /// handle that was given out, no two entities share one, every live ball
    /// is short of the scoring threshold, and no more points were awarded than
    /// balls have left.
    pub open spec fn wf(self) -> bool {
        &&& self.timer.wf()
        &&& self.next_handle <= u64::MAX
        &&& self.balls.dom().finite()
        &&& self.score + self.balls.len() <= self.next_handle
        &&& forall|h: u64| #[trigger]
            self.balls.contains_key(h) ==> h < self.next_handle && self.balls[h]
                < RED_BALL_COLLISION_COUNT
        &&& forall|m: Marker| #[trigger]
            self.single(m) matches Some(h) ==> h < self.next_handle && !self.balls.contains_key(h)
        &&& forall|a: Marker, b: Marker|
            #![trigger self.single(a), self.single(b)]
            a != b && self.single(a) is Some ==> self.single(a) != self.single(b)
    }

    /// A session in which nothing has happened yet.
    pub open spec fn fresh(timer: TimerView) -> SessionView {
        SessionView {
            state: GameState::Running,
            score: 0,
            timer,
            next_handle: 0,
            blue_rectangle: None,
            ceil: None,
            floor: None,
            left_wall: None,
            right_wall: None,
            score_text: None,
            balls: Map::empty(),
        }
    }

    /// Whether history has only moved forward from `self` to `after`: the
    /// score and the contact counts have not gone down, and no ball that was
    /// gone has come back.
    pub open spec fn leads_to(self, after: SessionView) -> bool {
        &&& self.score <= after.score
        &&& self.next_handle <= after.next_handle
        &&& forall|h: u64|
            h < self.next_handle && #[trigger] after.balls.contains_key(h)
                ==> self.balls.contains_key(h) && self.balls[h] <= after.balls[h]
    }

    // ---------------------------------------------------------------- setup

    /// Creating the four walls. Nothing happens while the viewport is
    /// missing, once a wall exists, or when the handles have run out.
    pub open spec fn spawn_walls(self, viewport: Option<Viewport>) -> (SessionView, Seq<Effect>) {
        if viewport is Some && self.ceil is None && self.floor is None && self.left_wall is None
            && self.right_wall is None && self.next_handle + 4 <= u64::MAX {
            let v = viewport->0;
            let h = self.next_handle;
            (
                SessionView {
                    ceil: Some(h as u64),
                    floor: Some((h + 1) as u64),
                    left_wall: Some((h + 2) as u64),
                    right_wall: Some((h + 3) as u64),
                    next_handle: h + 4,
                    ..self
                },
                seq![
                    Effect::SpawnWall {
                        handle: h as u64,
                        wall: Marker::Ceil,
                        area: wall_area(Marker::Ceil, v)->0,
                    },
                    Effect::SpawnWall {
                        handle: (h + 1) as u64,
                        wall: Marker::Floor,
                        area: wall_area(Marker::Floor, v)->0,
                    },
                    Effect::SpawnWall {
                        handle: (h + 2) as u64,
                        wall: Marker::LeftWall,
                        area: wall_area(Marker::LeftWall, v)->0,
                    },
                    Effect::SpawnWall {
                        handle: (h + 3) as u64,
                        wall: Marker::RightWall,
                        area: wall_area(Marker::RightWall, v)->0,
                    },
                ],
            )
        } else {
            (self, Seq::empty())
        }
    }

    /// Creating the paddle. Nothing happens while the viewport is missing,
    /// once the paddle exists, or when the handles have run out.
    pub open spec fn spawn_blue_rectangle(self, viewport: Option<Viewport>) -> (
        SessionView,
        Seq<Effect>,
    ) {
        if viewport is Some && self.blue_rectangle is None && self.next_handle < u64::MAX {
            let h = self.next_handle;
            (
                SessionView { blue_rectangle: Some(h as u64), next_handle: h + 1, ..self },
                seq![Effect::SpawnPaddle { handle: h as u64, area: paddle_area(viewport->0) }],
            )
        } else {
            (self, Seq::empty())
        }
    }

    /// Creating the score text. Nothing happens once it exists, or when the
    /// handles have run out.
    pub open spec fn spawn_score_text(self) -> (SessionView, Seq<Effect>) {
        if self.score_text is None && self.next_handle < u64::MAX {
            let h = self.next_handle;
            (
                SessionView { score_text: Some(h as u64), next_handle: h + 1, ..self },
                seq![Effect::SpawnScoreText { handle: h as u64 }],
            )
        } else {
            (self, Seq::empty())
        }
    }

    // ------------------------------------------------------------ collisions

    /// The live ball that the event pairs with the entity tagged `marker`.
    pub open spec fn struck(self, marker: Marker, event: Collision) -> Option<u64> {
        match self.single(marker) {
            Some(s) => if event.0 == s && self.live(event.1) {
                Some(event.1)
            } else if event.1 == s && self.live(event.0) {
                Some(event.0)
            } else {
                None
            },
            None => None,
        }
    }

    /// The paddle-contact rule on one event. A live ball struck by the paddle
    /// bounces, with a sound, and counts the contact; at the threshold it
    /// scores a point and leaves.
    pub open spec fn paddle_contact(self, event: Collision) -> (SessionView, Seq<Effect>) {
        match self.struck(Marker::BlueRectangle, event) {
            Some(ball) => {
                let count = self.balls[ball] + 1;
                let bounce = seq![
                    Effect::PlaySound,
                    Effect::Bounce { ball, impulse: BOUNCE_IMPULSE },
                ];
                if count >= RED_BALL_COLLISION_COUNT {
                    let shown = if self.score_text is Some {
                        seq![Effect::ShowScore { score: (self.score + 1) as u64 }]
                    } else {
                        Seq::empty()
                    };
                    (
                        SessionView {
                            score: self.score + 1,
                            balls: self.balls.remove(ball),
                            ..self
                        },
                        bounce + shown + seq![Effect::Despawn { ball }],
                    )
                } else {
                    (SessionView { balls: self.balls.insert(ball, count), ..self }, bounce)
                }
            },
            None => (self, Seq::empty()),
        }
    }

    /// The floor-contact rule on one event. A live ball that reaches the floor
    /// leaves, and nothing else changes.
    pub open spec fn floor_contact(self, event: Collision) -> (SessionView, Seq<Effect>) {
        match self.struck(Marker::Floor, event) {
            Some(ball) => (
                SessionView { balls: self.balls.remove(ball), ..self },
                seq![Effect::Despawn { ball }],
            ),
            None => (self, Seq::empty()),
        }
    }

    /// Both rules on one event, the paddle's first.
    pub open spec fn collision(self, event: Collision) -> (SessionView, Seq<Effect>) {
        let (mid, bounced) = self.paddle_contact(event);
        let (end, dropped) = mid.floor_contact(event);
        (end, bounced + dropped)
    }

    /// A batch of events, taken in the order in which they arrived.
    pub open spec fn collisions(self, events: Seq<Collision>) -> (SessionView, Seq<Effect>)
        decreases events.len(),
    {
        if events.len() == 0 {
            (self, Seq::empty())
        } else {
            let (mid, done) = self.collisions(events.drop_last());
            let (end, more) = mid.collision(events.last());
            (end, done + more)
        }
    }

    // -------------------------------------------------------------- movement

    /// The paddle's new velocity. Without the paddle or one of the side walls
    /// the velocity stays as it is.
    pub open spec fn movement(
        self,
        left_held: bool,
        right_held: bool,
        contacts: Seq<u64>,
        current: int,
    ) -> int {
        if self.blue_rectangle is Some && self.left_wall is Some && self.right_wall is Some {
            paddle_velocity(
                left_held,
                right_held,
                contacts.contains(self.left_wall->0),
                contacts.contains(self.right_wall->0),
                current,
            )
        } else {
            current
        }
    }

    // -------------------------------------------------------------- spawning

    /// The session with `count` more balls, none of them struck yet.
    pub open spec fn with_new_balls(self, count: nat) -> SessionView {
        SessionView {
            next_handle: self.next_handle + count,
            balls: Map::new(
                |h: u64|
                    self.balls.contains_key(h) || self.next_handle <= h < self.next_handle + count,
                |h: u64| if self.balls.contains_key(h) { self.balls[h] } else { 0 },
            ),
            ..self
        }
    }

    /// How many balls a tick of `delta` nanoseconds brings: one for each
    /// firing of the countdown, as long as there are handles left.
    pub open spec fn spawn_count(self, delta: nat) -> nat {
        let fired = self.timer.firings(delta);
        let left = (u64::MAX - self.next_handle) as nat;
        if fired <= left {
            fired
        } else {
            left
        }
    }

    /// Whether `after` and `effects` are a possible outcome of the spawn
    /// scheduler. Where balls appear along the strip is up to chance; all else
    /// is fixed. Without a strip the tick is skipped and the countdown does
    /// not move.
    pub open spec fn spawn_tick(
        self,
        delta: nat,
        viewport: Option<Viewport>,
        after: SessionView,
        effects: Seq<Effect>,
    ) -> bool {
        match spawn_bounds(viewport) {
            Some((low, high)) => {
                let count = self.spawn_count(delta);
                &&& after == SessionView {
                    timer: self.timer.advanced(delta),
                    ..self.with_new_balls(count)
                }
                &&& effects.len() == count
                &&& forall|i: int|
                    0 <= i < count ==> spawns_ball(
                        #[trigger] effects[i],
                        self.next_handle + i,
                        low as int,
                        high as int,
                        spawn_height(viewport->0),
                    )
            },
            None => after == self && effects.len() == 0,
        }
    }

    // ------------------------------------------------------------------ tick

    /// The session after a press, or no press, of the toggle key.
    pub open spec fn toggled(self, pressed: bool) -> SessionView {
        SessionView { state: if pressed { self.state.flipped() } else { self.state }, ..self }
    }

    /// Whether `after`, `effects` and `velocity` are a possible outcome of one
    /// tick. A running session takes the collisions, moves the paddle and
    /// spawns, in this order; a paused one does none of it. The toggle key
    /// takes effect at the end of the tick, and its effect comes last.
    pub open spec fn tick(
        self,
        input: TickInput,
        after: SessionView,
        effects: Seq<Effect>,
        velocity: int,
    ) -> bool {
        let switch = toggle_effects(self.state, input.toggle_pressed);
        match self.state {
            GameState::Paused => {
                &&& after == self.toggled(input.toggle_pressed)
                &&& effects == switch
                &&& velocity == input.paddle_velocity
            },
            GameState::Running => {
                let (struck, bounced) = self.collisions(input.collisions@);
                &&& velocity == struck.movement(
                    input.left_held,
                    input.right_held,
                    input.paddle_contacts@,
                    input.paddle_velocity as int,
                )
                &&& bounced.len() + switch.len() <= effects.len()
                &&& effects.subrange(0, bounced.len() as int) == bounced
                &&& effects.subrange(effects.len() - switch.len(), effects.len() as int) == switch
                &&& struck.spawn_tick(
                    input.delta_nanos as nat,
                    input.viewport,
                    SessionView { state: self.state, ..after },
                    effects.subrange(bounced.len() as int, effects.len() - switch.len()),
                )
                &&& after.state == self.toggled(input.toggle_pressed).state
            },
        }
    }
}

} // verus!
