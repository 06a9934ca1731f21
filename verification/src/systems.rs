//! The session, which is the state of one game, and the systems that move it
//! on from tick to tick.

use rand::Rng;
use std::collections::HashMap;
use vstd::prelude::*;
use crate::components::{Collision, Marker, RedBall};
use crate::effects::Effect;
use crate::laws::{law_collisions_are_sound, law_history_moves_forward};
use crate::layout::{paddle, spawn_level, spawn_strip, wall, Viewport};
use crate::model::{spawns_ball, toggle_effects, SessionView};
use crate::score::Score;
use crate::state::{toggle_game_state, GameState};
use crate::timer::{SpawnRedBallTimer, TimerView};
use crate::{BOUNCE_IMPULSE, LINEAR_VELOCITY, RED_BALL_COLLISION_COUNT, RED_BALL_SPAWN_TIME};

verus! {

broadcast use vstd::std_specs::hash::group_hash_axioms;

/// One game from start to end: the run/pause state, the score, the spawn
/// countdown and the entities, each under a handle of its own.
#[derive(Debug)]
pub struct Session {
    state: GameState,
    score: Score,
    timer: SpawnRedBallTimer,
    next_handle: u64,
    blue_rectangle: Option<u64>,
    ceil: Option<u64>,
    floor: Option<u64>,
    left_wall: Option<u64>,
    right_wall: Option<u64>,
    score_text: Option<u64>,
    balls: HashMap<u64, RedBall>,
}

/// What the host reports at the start of a tick.
#[derive(Debug)]
pub struct TickInput {
    /// Time since the last tick, in nanoseconds.
    pub delta_nanos: u64,
    /// Whether the toggle key went down in this tick.
    pub toggle_pressed: bool,
    /// Whether the move-left key is held.
    pub left_held: bool,
    /// Whether the move-right key is held.
    pub right_held: bool,
    /// The paddle's horizontal velocity.
    pub paddle_velocity: i32,
    /// The entities that touch the paddle.
    pub paddle_contacts: Vec<u64>,
    /// The collisions that began since the last tick, in order of arrival.
    pub collisions: Vec<Collision>,
    /// The size of the window, once it is known.
    pub viewport: Option<Viewport>,
}

/// What the host is to do at the end of a tick.
#[derive(Debug)]
pub struct TickOutput {
    /// The effects to carry out, in order.
    pub effects: Vec<Effect>,
    /// The horizontal velocity to give the paddle.
    pub paddle_velocity: i32,
}

impl View for Session {
    type V = SessionView;

    closed spec fn view(&self) -> SessionView {
        SessionView {
            state: self.state,
            score: self.score@,
            timer: self.timer@,
            next_handle: self.next_handle as nat,
            blue_rectangle: self.blue_rectangle,
            ceil: self.ceil,
            floor: self.floor,
            left_wall: self.left_wall,
            right_wall: self.right_wall,
            score_text: self.score_text,
            balls: contact_counts(self.balls@),
        }
    }
}

/// The table of balls, each reduced to its number of paddle contacts.
spec fn contact_counts(table: Map<u64, RedBall>) -> Map<u64, nat> {
    Map::new(|h: u64| table.contains_key(h), |h: u64| table[h].collision_count as nat)
}

/// Reducing the table to its counts keeps the keys and follows insertion and
/// removal.
proof fn lemma_contact_counts(table: Map<u64, RedBall>, handle: u64, ball: RedBall)
    ensures
        contact_counts(table).dom() == table.dom(),
        contact_counts(table.insert(handle, ball)) == contact_counts(table).insert(
            handle,
            ball.collision_count as nat,
        ),
        contact_counts(table.remove(handle)) == contact_counts(table).remove(handle),
{
}

/// Draws a whole number from `low` to `high`, both included:
/// `rand::Rng::gen_range` on the generator of `rand::thread_rng`.
///
/// Trusted: the draw lies in the range. The call panics on an empty range,
/// which the precondition leaves out.
#[verifier::external_body]
fn random_between(low: i32, high: i32) -> (x: i32)
    requires
        low <= high,
    ensures
        low <= x <= high,
{
    rand::thread_rng().gen_range(low..=high)
}

impl Session {
    /// The table of balls in the picture has the keys of the table in memory.
    proof fn lemma_ball_table(&self)
        ensures
            self@.balls.dom() == self.balls@.dom(),
            self@.balls.dom().finite(),
            self@.balls.len() == self.balls@.len(),
    {
        lemma_contact_counts(self.balls@, 0, RedBall { collision_count: 0 });
    }

    /// A session in which nothing has happened yet, with the given countdown.
    pub fn new(timer: SpawnRedBallTimer) -> (session: Session)
        ensures
            session@ == SessionView::fresh(timer@),
            session@.wf(),
    {
        // Reading the period also tells that the countdown is sound.
        let _: u64 = timer.period_nanos();
        let session = Session {
            state: GameState::Running,
            score: Score::default(),
            timer,
            next_handle: 0,
            blue_rectangle: None,
            ceil: None,
            floor: None,
            left_wall: None,
            right_wall: None,
            score_text: None,
            balls: HashMap::new(),
        };
        proof {
            session.lemma_ball_table();
            assert(session@.balls =~= Map::empty());
        }
        session
    }

    /// Whether the per-tick rules run.
    pub fn state(&self) -> (state: GameState)
        ensures
            state == self@.state,
    {
        self.state
    }

    /// The score.
    pub fn score(&self) -> (score: &Score)
        ensures
            score@ == self@.score,
    {
        &self.score
    }

    /// The spawn countdown.
    pub fn timer(&self) -> (timer: &SpawnRedBallTimer)
        ensures
            timer@ == self@.timer,
    {
        &self.timer
    }

    /// The entity that carries the tag, if it exists.
    pub fn get_single(&self, marker: Marker) -> (handle: Option<u64>)
        ensures
            handle == self@.single(marker),
    {
        match marker {
            Marker::BlueRectangle => self.blue_rectangle,
            Marker::Ceil => self.ceil,
            Marker::Floor => self.floor,
            Marker::LeftWall => self.left_wall,
            Marker::RightWall => self.right_wall,
            Marker::ScoreText => self.score_text,
        }
    }

    /// The ball under the handle, if it is live.
    pub fn red_ball(&self, handle: u64) -> (ball: Option<RedBall>)
        ensures
            ball is Some <==> self@.live(handle),
            ball matches Some(b) ==> b.collision_count == self@.balls[handle],
    {
        match self.balls.get(&handle) {
            Some(ball) => Some(*ball),
            None => None,
        }
    }

    /// The number of live balls.
    pub fn ball_count(&self) -> (count: usize)
        ensures
            count == self@.balls.len(),
    {
        proof {
            self.lemma_ball_table();
        }
        self.balls.len()
    }
}

impl Default for Session {
    /// A fresh session with the default countdown.
    fn default() -> (session: Session)
        ensures
            session@ == SessionView::fresh(
                TimerView { period: RED_BALL_SPAWN_TIME as nat, elapsed: 0 },
            ),
            session@.wf(),
    {
        Session::new(SpawnRedBallTimer::default())
    }
}

/// Creates one ball at `(x, y)`, unless the handles have run out.
pub fn spawn_red_ball(session: &mut Session, x: i32, y: i32) -> (effect: Option<Effect>)
    requires
        old(session)@.wf(),
    ensures
        final(session)@.wf(),
        old(session)@.next_handle < u64::MAX ==> final(session)@ == old(session)@.with_new_balls(1)
            && effect == Some(
            Effect::SpawnBall { handle: old(session)@.next_handle as u64, x, y },
        ),
        old(session)@.next_handle >= u64::MAX ==> final(session)@ == old(session)@ && effect
            is None,
{
    if session.next_handle < u64::MAX {
        let handle = session.next_handle;
        let ball = RedBall { collision_count: 0 };
        proof {
            session.lemma_ball_table();
            lemma_contact_counts(session.balls@, handle, ball);
        }
        session.balls.insert(handle, ball);
        session.next_handle = handle + 1;
        proof {
            session.lemma_ball_table();
            assert(session@.balls =~= old(session)@.with_new_balls(1).balls);
            assert forall|m: Marker| #[trigger] session@.single(m) == old(session)@.single(m) by {}
        }
        Some(Effect::SpawnBall { handle, x, y })
    } else {
        None
    }
}

/// The spawn scheduler: advances the countdown and creates one ball for each
/// firing, somewhere along the spawn strip. Without a strip the tick is
/// skipped.
pub fn tick_to_spawn_red_ball(
    session: &mut Session,
    delta_nanos: u64,
    viewport: Option<Viewport>,
) -> (effects: Vec<Effect>)
    requires
        old(session)@.wf(),
    ensures
        final(session)@.wf(),
        old(session)@.spawn_tick(delta_nanos as nat, viewport, final(session)@, effects@),
{
    let mut effects: Vec<Effect> = Vec::new();
    match (spawn_strip(viewport), viewport) {
        (Some((low, high)), Some(v)) => {
            let y = spawn_level(v);
            let fired = session.timer.tick(delta_nanos);
            let ghost ticked = session@;
            assert forall|m: Marker| #[trigger] ticked.single(m) == old(session)@.single(m) by {}
            assert(ticked.with_new_balls(0).balls =~= ticked.balls);
            let mut made: u32 = 0;
            while made < fired && session.next_handle < u64::MAX
                invariant
                    made <= fired,
                    low <= high,
                    ticked.wf(),
                    session@.wf(),
                    session@ == ticked.with_new_balls(made as nat),
                    effects@.len() == made,
                    forall|i: int|
                        0 <= i < made ==> spawns_ball(
                            #[trigger] effects@[i],
                            ticked.next_handle + i,
                            low as int,
                            high as int,
                            y as int,
                        ),
                decreases fired - made,
            {
                let x = random_between(low, high);
                let effect = spawn_red_ball(session, x, y);
                effects.push(effect.unwrap());
                made = made + 1;
                proof {
                    assert(session@.balls =~= ticked.with_new_balls(made as nat).balls);
                }
            }
        },
        _ => {},
    }
    effects
}

/// Creates the four walls around the playfield. Nothing happens while the
/// viewport is missing, once a wall exists, or when the handles have run out.
pub fn spawn_walls(session: &mut Session, viewport: Option<Viewport>) -> (effects: Vec<Effect>)
    requires
        old(session)@.wf(),
    ensures
        final(session)@.wf(),
        final(session)@ == old(session)@.spawn_walls(viewport).0,
        effects@ == old(session)@.spawn_walls(viewport).1,
{
    let mut effects: Vec<Effect> = Vec::new();
    if let Some(v) = viewport {
        if session.ceil.is_none() && session.floor.is_none() && session.left_wall.is_none()
            && session.right_wall.is_none() && session.next_handle <= u64::MAX - 4 {
            let handle = session.next_handle;
            session.ceil = Some(handle);
            session.floor = Some(handle + 1);
            session.left_wall = Some(handle + 2);
            session.right_wall = Some(handle + 3);
            session.next_handle = handle + 4;
            effects.push(
                Effect::SpawnWall {
                    handle,
                    wall: Marker::Ceil,
                    area: wall(Marker::Ceil, v).unwrap(),
                },
            );
            effects.push(
                Effect::SpawnWall {
                    handle: handle + 1,
                    wall: Marker::Floor,
                    area: wall(Marker::Floor, v).unwrap(),
                },
            );
            effects.push(
                Effect::SpawnWall {
                    handle: handle + 2,
                    wall: Marker::LeftWall,
                    area: wall(Marker::LeftWall, v).unwrap(),
                },
            );
            effects.push(
                Effect::SpawnWall {
                    handle: handle + 3,
                    wall: Marker::RightWall,
                    area: wall(Marker::RightWall, v).unwrap(),
                },
            );
            proof {
                assert forall|m: Marker| !m.is_wall() implies #[trigger] session@.single(m)
                    == old(session)@.single(m) by {}
            }
        }
    }
    effects
}

/// Creates the paddle. Nothing happens while the viewport is missing, once
/// the paddle exists, or when the handles have run out.
pub fn spawn_blue_rectangle(session: &mut Session, viewport: Option<Viewport>) -> (effects: Vec<
    Effect,
>)
    requires
        old(session)@.wf(),
    ensures
        final(session)@.wf(),
        final(session)@ == old(session)@.spawn_blue_rectangle(viewport).0,
        effects@ == old(session)@.spawn_blue_rectangle(viewport).1,
{
    let mut effects: Vec<Effect> = Vec::new();
    if let Some(v) = viewport {
        if session.blue_rectangle.is_none() && session.next_handle < u64::MAX {
            let handle = session.next_handle;
            session.blue_rectangle = Some(handle);
            session.next_handle = handle + 1;
            effects.push(Effect::SpawnPaddle { handle, area: paddle(v) });
            proof {
                assert forall|m: Marker| m != Marker::BlueRectangle implies #[trigger] session@
                    .single(m) == old(session)@.single(m) by {}
            }
        }
    }
    effects
}

/// Creates the text element that shows the score. Nothing happens once it
/// exists, or when the handles have run out.
pub fn spawn_score_text(session: &mut Session) -> (effects: Vec<Effect>)
    requires
        old(session)@.wf(),
    ensures
        final(session)@.wf(),
        final(session)@ == old(session)@.spawn_score_text().0,
        effects@ == old(session)@.spawn_score_text().1,
{
    let mut effects: Vec<Effect> = Vec::new();
    if session.score_text.is_none() && session.next_handle < u64::MAX {
        let handle = session.next_handle;
        session.score_text = Some(handle);
        session.next_handle = handle + 1;
        effects.push(Effect::SpawnScoreText { handle });
        proof {
            assert forall|m: Marker| m != Marker::ScoreText implies #[trigger] session@.single(m)
                == old(session)@.single(m) by {}
        }
    }
    effects
}

/// The live ball that the event pairs with the entity tagged `marker`.
fn struck(session: &Session, marker: Marker, event: Collision) -> (ball: Option<u64>)
    ensures
        ball == session@.struck(marker, event),
{
    match session.get_single(marker) {
        Some(single) => {
            if event.0 == single && session.balls.contains_key(&event.1) {
                Some(event.1)
            } else if event.1 == single && session.balls.contains_key(&event.0) {
                Some(event.0)
            } else {
                None
            }
        },
        None => None,
    }
}

/// The paddle-contact rule on one event: a live ball struck by the paddle
/// bounces, with a sound, and counts the contact; at the threshold it scores a
/// point and leaves. Any other event changes nothing.
pub fn bouncing_red_ball(session: &mut Session, event: Collision) -> (effects: Vec<Effect>)
    requires
        old(session)@.wf(),
    ensures
        final(session)@.wf(),
        final(session)@ == old(session)@.paddle_contact(event).0,
        effects@ == old(session)@.paddle_contact(event).1,
{
    let mut effects: Vec<Effect> = Vec::new();
    if let Some(ball) = struck(session, Marker::BlueRectangle, event) {
        let count = session.balls.get(&ball).unwrap().collision_count + 1;
        effects.push(Effect::PlaySound);
        effects.push(Effect::Bounce { ball, impulse: BOUNCE_IMPULSE });
        proof {
            session.lemma_ball_table();
            lemma_contact_counts(session.balls@, ball, RedBall { collision_count: count });
        }
        if count >= RED_BALL_COLLISION_COUNT {
            session.balls.remove(&ball);
            session.score.increment();
            if session.score_text.is_some() {
                effects.push(Effect::ShowScore { score: session.score.value() });
            }
            effects.push(Effect::Despawn { ball });
        } else {
            session.balls.insert(ball, RedBall { collision_count: count });
        }
        proof {
            session.lemma_ball_table();
            assert forall|m: Marker| #[trigger] session@.single(m) == old(session)@.single(m) by {}
        }
    }
    effects
}

/// The floor-contact rule on one event: a live ball that reaches the floor
/// leaves. Any other event changes nothing.
pub fn despawn_red_ball(session: &mut Session, event: Collision) -> (effects: Vec<Effect>)
    requires
        old(session)@.wf(),
    ensures
        final(session)@.wf(),
        final(session)@ == old(session)@.floor_contact(event).0,
        effects@ == old(session)@.floor_contact(event).1,
{
    let mut effects: Vec<Effect> = Vec::new();
    if let Some(ball) = struck(session, Marker::Floor, event) {
        proof {
            session.lemma_ball_table();
            lemma_contact_counts(session.balls@, ball, RedBall { collision_count: 0 });
        }
        session.balls.remove(&ball);
        effects.push(Effect::Despawn { ball });
        proof {
            session.lemma_ball_table();
            assert forall|m: Marker| #[trigger] session@.single(m) == old(session)@.single(m) by {}
        }
    }
    effects
}

/// The collision rule engine: takes a batch of events in the order in which
/// they arrived and puts each through the paddle rule and the floor rule.
pub fn collision_rules(session: &mut Session, events: &Vec<Collision>) -> (effects: Vec<Effect>)
    requires
        old(session)@.wf(),
    ensures
        final(session)@.wf(),
        final(session)@ == old(session)@.collisions(events@).0,
        effects@ == old(session)@.collisions(events@).1,
{
    let mut effects: Vec<Effect> = Vec::new();
    let mut done: usize = 0;
    while done < events.len()
        invariant
            done <= events.len(),
            session@.wf(),
            session@ == old(session)@.collisions(events@.take(done as int)).0,
            effects@ == old(session)@.collisions(events@.take(done as int)).1,
        decreases events.len() - done,
    {
        let event = events[done];
        let mut bounced = bouncing_red_ball(session, event);
        let mut dropped = despawn_red_ball(session, event);
        effects.append(&mut bounced);
        effects.append(&mut dropped);
        proof {
            let next = events@.take(done + 1);
            assert(next.drop_last() =~= events@.take(done as int));
        }
        done = done + 1;
    }
    assert(events@.take(done as int) =~= events@);
    effects
}

/// Whether the handle is among the entities that touch the paddle.
fn touches(contacts: &Vec<u64>, handle: u64) -> (found: bool)
    ensures
        found == contacts@.contains(handle),
{
    let mut i: usize = 0;
    while i < contacts.len()
        invariant
            i <= contacts.len(),
            forall|j: int| 0 <= j < i ==> contacts@[j] != handle,
        decreases contacts.len() - i,
    {
        if contacts[i] == handle {
            return true;
        }
        i = i + 1;
    }
    false
}

/// The input-driven actuator: the paddle's new horizontal velocity, from the
/// keys held, the entities the paddle touches and its velocity so far.
/// Without the paddle or one of the side walls the velocity stays as it is.
pub fn blue_rectangle_movement(
    session: &Session,
    left_held: bool,
    right_held: bool,
    contacts: &Vec<u64>,
    velocity_x: i32,
) -> (velocity: i32)
    ensures
        velocity == session@.movement(left_held, right_held, contacts@, velocity_x as int),
{
    match (session.blue_rectangle, session.left_wall, session.right_wall) {
        (Some(_), Some(left_wall), Some(right_wall)) => {
            if left_held && !touches(contacts, left_wall) {
                -LINEAR_VELOCITY
            } else if right_held && !touches(contacts, right_wall) {
                LINEAR_VELOCITY
            } else if velocity_x != 0 {
                0
            } else {
                velocity_x
            }
        },
        _ => velocity_x,
    }
}

/// One tick of the game loop. While the session runs, the collision rule
/// engine, the actuator and the spawn scheduler take their turns; a paused
/// session stands still. A press of the toggle key then flips the state and
/// tells the physics to follow.
pub fn run_tick(session: &mut Session, input: &TickInput) -> (output: TickOutput)
    requires
        old(session)@.wf(),
    ensures
        final(session)@.wf(),
        old(session)@.tick(
            *input,
            final(session)@,
            output.effects@,
            output.paddle_velocity as int,
        ),
        old(session)@.leads_to(final(session)@),
{
    let was = session.state;
    let mut effects: Vec<Effect> = Vec::new();
    let mut velocity = input.paddle_velocity;
    let ghost mut first: Seq<Effect> = Seq::empty();
    let ghost mut second: Seq<Effect> = Seq::empty();
    if was == GameState::Running {
        let mut bounced = collision_rules(session, &input.collisions);
        velocity =
        blue_rectangle_movement(
            session,
            input.left_held,
            input.right_held,
            &input.paddle_contacts,
            input.paddle_velocity,
        );
        let mut fresh = tick_to_spawn_red_ball(session, input.delta_nanos, input.viewport);
        proof {
            law_collisions_are_sound(old(session)@, input.collisions@);
            first = bounced@;
            second = fresh@;
        }
        effects.append(&mut bounced);
        effects.append(&mut fresh);
    }
    let ghost ran = session@;
    session.state = toggle_game_state(was, input.toggle_pressed);
    if input.toggle_pressed {
        effects.push(
            match was {
                GameState::Running => Effect::PausePhysics,
                GameState::Paused => Effect::ResumePhysics,
            },
        );
    }
    proof {
        let switch = toggle_effects(was, input.toggle_pressed);
        assert(effects@.subrange(0, first.len() as int) =~= first);
        assert(effects@.subrange(effects@.len() - switch.len(), effects@.len() as int) =~= switch);
        law_history_moves_forward(old(session)@, *input, session@, effects@, velocity as int);
    }
    TickOutput { effects, paddle_velocity: velocity }
}

} // verus!
