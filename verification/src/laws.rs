//! Laws of the game, proved of the rules in the model.

use vstd::arithmetic::div_mod::{
    lemma_div_pos_is_pos, lemma_fundamental_div_mod, lemma_hoist_over_denominator, lemma_mod_bound,
    lemma_mod_multiples_vanish,
};
use vstd::prelude::*;
use crate::components::{Collision, Marker};
use crate::effects::Effect;
use crate::layout::{spawn_bounds, spawn_height, wall_area, Viewport};
use crate::model::{toggle_effects, SessionView};
use crate::state::GameState;
use crate::systems::TickInput;
use crate::timer::TimerView;
use crate::{RED_BALL_COLLISION_COUNT, RED_BALL_RADIUS, SPAWN_PADDING};

verus! {

/// Whether two sessions differ in nothing but the score and the balls.
pub open spec fn same_but_balls_and_score(before: SessionView, after: SessionView) -> bool {
    after == SessionView { score: after.score, balls: after.balls, ..before }
}

/// An event sets at most one rule going: the paddle and the floor are two
/// entities, and neither is a ball.
pub proof fn law_one_rule_per_event(s: SessionView, event: Collision)
    requires
        s.wf(),
    ensures
        s.struck(Marker::BlueRectangle, event) is None || s.struck(Marker::Floor, event) is None,
        s.struck(Marker::BlueRectangle, event) is Some ==> s.collision(event)
            == s.paddle_contact(event),
        s.struck(Marker::BlueRectangle, event) is None ==> s.collision(event) == s.floor_contact(
            event,
        ),
{
}

/// One event keeps a session sound and moves history forward: wherever a ball
/// is told to leave, it was live before and is gone after, and no event tells
/// two balls to leave, or one ball twice.
pub proof fn law_collision_is_sound(s: SessionView, event: Collision)
    requires
        s.wf(),
    ensures
        ({
            let (after, effects) = s.collision(event);
            &&& after.wf()
            &&& s.leads_to(after)
            &&& same_but_balls_and_score(s, after)
            &&& forall|h: u64| #[trigger] after.live(h) ==> s.live(h)
            &&& forall|i: int|
                0 <= i < effects.len() ==> (#[trigger] effects[i] matches Effect::Despawn { ball }
                    ==> s.live(ball) && !after.live(ball) && i == effects.len() - 1)
        }),
{
    law_one_rule_per_event(s, event);
    let after = s.collision(event).0;
    assert forall|m: Marker| #[trigger] after.single(m) == s.single(m) by {}
}

/// A batch of events keeps a session sound and moves history forward.
/// Wherever a ball is told to leave, it was live before the batch and is gone
/// after it.
pub proof fn law_collisions_are_sound(s: SessionView, events: Seq<Collision>)
    requires
        s.wf(),
    ensures
        ({
            let (after, effects) = s.collisions(events);
            &&& after.wf()
            &&& s.leads_to(after)
            &&& same_but_balls_and_score(s, after)
            &&& forall|h: u64| #[trigger] after.live(h) ==> s.live(h)
            &&& forall|i: int|
                0 <= i < effects.len() ==> (#[trigger] effects[i] matches Effect::Despawn { ball }
                    ==> s.live(ball) && !after.live(ball))
        }),
    decreases events.len(),
{
    if events.len() > 0 {
        law_collisions_are_sound(s, events.drop_last());
        law_collision_is_sound(s.collisions(events.drop_last()).0, events.last());
    }
}

/// No ball is told to leave twice in one batch, whatever the events.
pub proof fn law_no_ball_leaves_twice(
    s: SessionView,
    events: Seq<Collision>,
    i: int,
    j: int,
    ball: u64,
)
    requires
        s.wf(),
        0 <= i < j < s.collisions(events).1.len(),
        s.collisions(events).1[i] == (Effect::Despawn { ball }),
    ensures
        s.collisions(events).1[j] != (Effect::Despawn { ball }),
    decreases events.len(),
{
    if events.len() > 0 {
        let (mid, done) = s.collisions(events.drop_last());
        law_collisions_are_sound(s, events.drop_last());
        law_collision_is_sound(mid, events.last());
        if j < done.len() {
            law_no_ball_leaves_twice(s, events.drop_last(), i, j, ball);
        }
    }
}

/// A fresh ball that meets nothing but the paddle scores exactly once: the
/// score goes up by one with the contact that reaches the threshold, the ball
/// is gone from then on, and no other contact changes the score.
pub proof fn law_fresh_ball_scores_once(
    s: SessionView,
    paddle: u64,
    ball: u64,
    events: Seq<Collision>,
    k: int,
)
    requires
        s.wf(),
        s.blue_rectangle == Some(paddle),
        s.live(ball),
        s.balls[ball] == 0,
        forall|i: int| 0 <= i < events.len() ==> (#[trigger] events[i]).pairs(paddle, ball),
        0 <= k <= events.len(),
    ensures
        s.collisions(events.take(k)).0.score == s.score + if k >= RED_BALL_COLLISION_COUNT {
            1nat
        } else {
            0nat
        },
        s.collisions(events.take(k)).0.live(ball) <==> k < RED_BALL_COLLISION_COUNT,
        k < RED_BALL_COLLISION_COUNT ==> s.collisions(events.take(k)).0.balls[ball] == k,
    decreases k,
{
    if k > 0 {
        assert(events.take(k).drop_last() =~= events.take(k - 1));
        law_fresh_ball_scores_once(s, paddle, ball, events, k - 1);
        law_collisions_are_sound(s, events.take(k - 1));
        law_one_rule_per_event(s.collisions(events.take(k - 1)).0, events[k - 1]);
    }
}

/// A live ball that reaches the floor leaves, and the score stays as it is.
pub proof fn law_floor_contact_ends_ball(s: SessionView, floor: u64, ball: u64, event: Collision)
    requires
        s.wf(),
        s.floor == Some(floor),
        s.live(ball),
        event.pairs(floor, ball),
    ensures
        s.collision(event).0 == (SessionView { balls: s.balls.remove(ball), ..s }),
        s.collision(event).0.score == s.score,
        !s.collision(event).0.live(ball),
        s.collision(event).1 == seq![Effect::Despawn { ball }],
{
    law_one_rule_per_event(s, event);
}

/// Where the paddle and then the floor report the same ball in one batch, the
/// ball leaves exactly once and the score is what the paddle rule alone
/// makes it.
pub proof fn law_paddle_then_floor(
    s: SessionView,
    paddle: u64,
    floor: u64,
    ball: u64,
    events: Seq<Collision>,
)
    requires
        s.wf(),
        s.blue_rectangle == Some(paddle),
        s.floor == Some(floor),
        s.live(ball),
        events.len() == 2,
        events[0].pairs(paddle, ball),
        events[1].pairs(floor, ball),
    ensures
        ({
            let (after, effects) = s.collisions(events);
            let leave = Effect::Despawn { ball };
            &&& !after.live(ball)
            &&& after.score == s.paddle_contact(events[0]).0.score
            &&& exists|i: int|
                0 <= i < effects.len() && #[trigger] effects[i] == leave && forall|j: int|
                    0 <= j < effects.len() && j != i ==> effects[j] != leave
        }),
{
    let hit = events[0];
    let fall = events[1];
    let one = events.drop_last();
    assert(s.collisions(one.drop_last()) == (s, Seq::<Effect>::empty()));
    let (mid, first) = s.collision(hit);
    assert(s.collisions(one).1 =~= first);
    let effects = s.collisions(events).1;
    law_one_rule_per_event(s, hit);
    law_collision_is_sound(s, hit);
    law_one_rule_per_event(mid, fall);
    if mid.live(ball) {
        law_floor_contact_ends_ball(mid, floor, ball, fall);
        assert(effects[first.len() as int] == Effect::Despawn { ball });
    } else {
        assert(effects[first.len() - 1] == Effect::Despawn { ball });
    }
}

/// The session with more balls is sound as long as the handles last, and
/// history has moved forward.
pub proof fn law_new_balls_are_sound(s: SessionView, count: nat)
    requires
        s.wf(),
        s.next_handle + count <= u64::MAX,
    ensures
        s.with_new_balls(count).wf(),
        s.leads_to(s.with_new_balls(count)),
        s.with_new_balls(count).balls.len() == s.balls.len() + count,
    decreases count,
{
    let more = s.with_new_balls(count);
    assert forall|m: Marker| #[trigger] more.single(m) == s.single(m) by {}
    if count == 0 {
        assert(more.balls =~= s.balls);
    } else {
        let less = s.with_new_balls((count - 1) as nat);
        law_new_balls_are_sound(s, (count - 1) as nat);
        assert(more.balls =~= less.balls.insert((s.next_handle + count - 1) as u64, 0));
    }
}

/// Every outcome of a tick is a sound session, and history has moved forward:
/// the score and the contact counts have not gone down, and no ball that was
/// gone has come back.
pub proof fn law_history_moves_forward(
    s: SessionView,
    input: TickInput,
    after: SessionView,
    effects: Seq<Effect>,
    velocity: int,
)
    requires
        s.wf(),
        s.tick(input, after, effects, velocity),
    ensures
        after.wf(),
        s.leads_to(after),
{
    assert forall|m: Marker| #[trigger] s.toggled(input.toggle_pressed).single(m) == s.single(
        m,
    ) by {}
    match s.state {
        GameState::Paused => {},
        GameState::Running => {
            let struck = s.collisions(input.collisions@).0;
            law_collisions_are_sound(s, input.collisions@);
            let spawned = SessionView { state: s.state, ..after };
            assert forall|m: Marker| #[trigger] after.single(m) == spawned.single(m) by {}
            let delta = input.delta_nanos as nat;
            if spawn_bounds(input.viewport) is Some {
                law_new_balls_are_sound(struck, struck.spawn_count(delta));
                let grown = struck.with_new_balls(struck.spawn_count(delta));
                assert forall|m: Marker| #[trigger] spawned.single(m) == grown.single(m) by {}
            }
        },
    }
}

/// No time is lost between ticks: two ticks in a row leave the countdown
/// where one tick of their joint length leaves it, and fire as often between
/// them.
pub proof fn law_no_time_is_lost(timer: TimerView, first: nat, second: nat)
    requires
        timer.wf(),
        (timer.elapsed + first + second) / timer.period < 0x1_0000_0000,
    ensures
        timer.advanced(first).advanced(second) == timer.advanced(first + second),
        timer.firings(first) + timer.advanced(first).firings(second) == timer.firings(
            first + second,
        ),
{
    let p = timer.period as int;
    let x = (timer.elapsed + first) as int;
    lemma_fundamental_div_mod(x, p);
    lemma_mod_bound(x, p);
    lemma_div_pos_is_pos(x, p);
    lemma_div_pos_is_pos(x % p + second, p);
    lemma_hoist_over_denominator(x % p + second, x / p, timer.period);
    lemma_mod_multiples_vanish(x / p, x % p + second, p);
}

/// A paused session stands still: a tick leaves the score, the countdown and
/// every entity as they were, whatever the host reports. A press of the toggle
/// key lets it run again, and nothing else does.
pub proof fn law_paused_session_stands_still(
    s: SessionView,
    input: TickInput,
    after: SessionView,
    effects: Seq<Effect>,
    velocity: int,
)
    requires
        s.state == GameState::Paused,
        s.tick(input, after, effects, velocity),
    ensures
        after == (SessionView { state: after.state, ..s }),
        after.state == GameState::Running <==> input.toggle_pressed,
        velocity == input.paddle_velocity,
        effects == toggle_effects(GameState::Paused, input.toggle_pressed),
{
}

/// Two presses of the toggle key bring a session back to where it was.
pub proof fn law_two_toggles_restore(s: SessionView)
    ensures
        s.toggled(true).toggled(true) == s,
        s.toggled(false) == s,
{
}

/// Whether `states` is a run of ticks through a pause: each state follows from
/// the one before by a tick, and the toggle key is pressed in the last tick
/// and in no other.
pub open spec fn pause_until_resumed(
    states: Seq<SessionView>,
    inputs: Seq<TickInput>,
    effects: Seq<Seq<Effect>>,
    velocities: Seq<int>,
) -> bool {
    &&& inputs.len() > 0
    &&& states.len() == inputs.len() + 1
    &&& effects.len() == inputs.len()
    &&& velocities.len() == inputs.len()
    &&& states[0].state == GameState::Paused
    &&& forall|i: int|
        0 <= i < inputs.len() ==> states[i].tick(
            #[trigger] inputs[i],
            states[i + 1],
            effects[i],
            velocities[i],
        ) && (inputs[i].toggle_pressed <==> i == inputs.len() - 1)
}

/// From the moment a session pauses until the tick that lets it run again,
/// however many ticks pass and whatever they report, nothing moves: the
/// session comes back running with the countdown, the score and every entity
/// as they were when it paused.
pub proof fn law_pause_keeps_everything(
    states: Seq<SessionView>,
    inputs: Seq<TickInput>,
    effects: Seq<Seq<Effect>>,
    velocities: Seq<int>,
)
    requires
        pause_until_resumed(states, inputs, effects, velocities),
    ensures
        states.last() == (SessionView { state: GameState::Running, ..states[0] }),
        states.last().timer == states[0].timer,
{
    lemma_paused_prefix(states, inputs, effects, velocities, inputs.len() - 1);
    let last = inputs.len() - 1;
    assert(states[last].tick(inputs[last], states[last + 1], effects[last], velocities[last]));
}

/// While no tick has pressed the toggle key, a paused session is as it was.
proof fn lemma_paused_prefix(
    states: Seq<SessionView>,
    inputs: Seq<TickInput>,
    effects: Seq<Seq<Effect>>,
    velocities: Seq<int>,
    k: int,
)
    requires
        pause_until_resumed(states, inputs, effects, velocities),
        0 <= k < inputs.len(),
    ensures
        states[k] == states[0],
    decreases k,
{
    if k > 0 {
        lemma_paused_prefix(states, inputs, effects, velocities, k - 1);
        assert(states[k - 1].tick(inputs[k - 1], states[k], effects[k - 1], velocities[k - 1]));
    }
}

/// Balls appear clear of the walls: between the centre of a new ball and the
/// inner face of either side wall, and of the ceiling, lie the ball's radius
/// and the padding.
pub proof fn law_spawn_strip_clears_walls(viewport: Viewport, low: i32, high: i32)
    requires
        spawn_bounds(Some(viewport)) == Some((low, high)),
    ensures
        low <= high,
        low - RED_BALL_RADIUS - SPAWN_PADDING == wall_area(Marker::LeftWall, viewport)->0.right,
        high + RED_BALL_RADIUS + SPAWN_PADDING == wall_area(Marker::RightWall, viewport)->0.left,
        spawn_height(viewport) + RED_BALL_RADIUS + SPAWN_PADDING == wall_area(
            Marker::Ceil,
            viewport,
        )->0.bottom,
{
}

} // verus!
