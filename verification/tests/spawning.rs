use paddleball::components::{Marker, RedBall};
use paddleball::effects::Effect;
use paddleball::layout::{Rect, Viewport};
use paddleball::systems::{
    spawn_blue_rectangle, spawn_red_ball, spawn_score_text, spawn_walls, tick_to_spawn_red_ball,
};
use paddleball::{GameState, Session, SpawnRedBallTimer};

const WINDOW: Option<Viewport> = Some(Viewport { width: 1280, height: 720 });
const SECOND: u64 = 1_000_000_000;

#[test]
fn a_fresh_session_is_empty_and_runs() {
    let session = Session::default();
    assert_eq!(session.state(), GameState::Running);
    assert_eq!(session.score().value(), 0);
    assert_eq!(session.timer().period_nanos(), SECOND);
    assert_eq!(session.timer().elapsed_nanos(), 0);
    assert_eq!(session.ball_count(), 0);
    for marker in [
        Marker::BlueRectangle,
        Marker::Ceil,
        Marker::Floor,
        Marker::LeftWall,
        Marker::RightWall,
        Marker::ScoreText,
    ] {
        assert_eq!(session.get_single(marker), None);
    }
}

#[test]
fn a_session_takes_the_countdown_it_is_given() {
    let session = Session::new(SpawnRedBallTimer::new(250).unwrap());
    assert_eq!(session.timer().period_nanos(), 250);
}

#[test]
fn the_walls_are_made_together_each_with_its_area() {
    let mut session = Session::default();
    let effects = spawn_walls(&mut session, WINDOW);
    assert_eq!(
        effects,
        vec![
            Effect::SpawnWall {
                handle: 0,
                wall: Marker::Ceil,
                area: Rect { left: -640, bottom: 345, right: 640, top: 360 },
            },
            Effect::SpawnWall {
                handle: 1,
                wall: Marker::Floor,
                area: Rect { left: -640, bottom: -360, right: 640, top: -345 },
            },
            Effect::SpawnWall {
                handle: 2,
                wall: Marker::LeftWall,
                area: Rect { left: -640, bottom: -345, right: -625, top: 345 },
            },
            Effect::SpawnWall {
                handle: 3,
                wall: Marker::RightWall,
                area: Rect { left: 625, bottom: -345, right: 640, top: 345 },
            },
        ]
    );
    assert_eq!(session.get_single(Marker::Ceil), Some(0));
    assert_eq!(session.get_single(Marker::Floor), Some(1));
    assert_eq!(session.get_single(Marker::LeftWall), Some(2));
    assert_eq!(session.get_single(Marker::RightWall), Some(3));
}

#[test]
fn there_is_at_most_one_of_each_wall() {
    let mut session = Session::default();
    spawn_walls(&mut session, WINDOW);
    assert_eq!(spawn_walls(&mut session, WINDOW), vec![]);
    assert_eq!(session.get_single(Marker::Ceil), Some(0));
    let next = spawn_red_ball(&mut session, 0, 0);
    assert_eq!(next, Some(Effect::SpawnBall { handle: 4, x: 0, y: 0 }));
}

#[test]
fn the_walls_wait_for_the_viewport() {
    let mut session = Session::default();
    assert_eq!(spawn_walls(&mut session, None), vec![]);
    assert_eq!(session.get_single(Marker::Floor), None);
    assert_eq!(spawn_walls(&mut session, WINDOW).len(), 4);
}

#[test]
fn the_paddle_is_made_once() {
    let mut session = Session::default();
    assert_eq!(spawn_blue_rectangle(&mut session, None), vec![]);
    assert_eq!(
        spawn_blue_rectangle(&mut session, WINDOW),
        vec![Effect::SpawnPaddle {
            handle: 0,
            area: Rect { left: -175, bottom: -335, right: 175, top: -315 },
        }]
    );
    assert_eq!(spawn_blue_rectangle(&mut session, WINDOW), vec![]);
    assert_eq!(session.get_single(Marker::BlueRectangle), Some(0));
}

#[test]
fn the_score_text_is_made_once() {
    let mut session = Session::default();
    assert_eq!(spawn_score_text(&mut session), vec![Effect::SpawnScoreText { handle: 0 }]);
    assert_eq!(spawn_score_text(&mut session), vec![]);
    assert_eq!(session.get_single(Marker::ScoreText), Some(0));
}

#[test]
fn a_new_ball_has_met_nothing() {
    let mut session = Session::default();
    assert_eq!(
        spawn_red_ball(&mut session, -12, 315),
        Some(Effect::SpawnBall { handle: 0, x: -12, y: 315 })
    );
    assert_eq!(session.red_ball(0), Some(RedBall { collision_count: 0 }));
    assert_eq!(session.red_ball(1), None);
    assert_eq!(session.ball_count(), 1);
}

#[test]
fn one_and_a_half_periods_bring_one_ball() {
    let mut session = Session::default();
    let effects = tick_to_spawn_red_ball(&mut session, 1_500_000_000, WINDOW);
    assert_eq!(effects.len(), 1);
    match effects[0] {
        Effect::SpawnBall { handle, x, y } => {
            assert_eq!(handle, 0);
            assert!(-595 <= x && x <= 595);
            assert_eq!(y, 315);
        },
        other => panic!("not a ball: {:?}", other),
    }
    assert_eq!(session.timer().elapsed_nanos(), 500_000_000);
    assert_eq!(session.ball_count(), 1);
    assert_eq!(session.red_ball(0), Some(RedBall { collision_count: 0 }));
}

#[test]
fn two_periods_bring_two_balls() {
    let mut session = Session::default();
    let effects = tick_to_spawn_red_ball(&mut session, 2 * SECOND, WINDOW);
    assert_eq!(effects.len(), 2);
    assert_eq!(session.ball_count(), 2);
    assert_eq!(session.timer().elapsed_nanos(), 0);
    assert!(matches!(effects[0], Effect::SpawnBall { handle: 0, y: 315, .. }));
    assert!(matches!(effects[1], Effect::SpawnBall { handle: 1, y: 315, .. }));
}

#[test]
fn short_ticks_add_up_to_a_ball() {
    let mut session = Session::default();
    for _ in 0..3 {
        assert_eq!(tick_to_spawn_red_ball(&mut session, 300_000_000, WINDOW), vec![]);
    }
    assert_eq!(session.ball_count(), 0);
    assert_eq!(tick_to_spawn_red_ball(&mut session, 300_000_000, WINDOW).len(), 1);
    assert_eq!(session.timer().elapsed_nanos(), 200_000_000);
}

#[test]
fn without_a_viewport_the_tick_is_skipped_and_the_countdown_stands() {
    let mut session = Session::default();
    tick_to_spawn_red_ball(&mut session, 400_000_000, WINDOW);
    assert_eq!(tick_to_spawn_red_ball(&mut session, 5 * SECOND, None), vec![]);
    assert_eq!(session.timer().elapsed_nanos(), 400_000_000);
    assert_eq!(session.ball_count(), 0);
    assert_eq!(tick_to_spawn_red_ball(&mut session, 600_000_000, WINDOW).len(), 1);
}

#[test]
fn in_a_viewport_too_narrow_for_a_ball_the_tick_is_skipped() {
    let mut session = Session::default();
    let narrow = Some(Viewport { width: 80, height: 720 });
    assert_eq!(tick_to_spawn_red_ball(&mut session, 5 * SECOND, narrow), vec![]);
    assert_eq!(session.timer().elapsed_nanos(), 0);
    assert_eq!(session.ball_count(), 0);
}

#[test]
fn in_the_narrowest_strip_every_ball_appears_in_the_middle() {
    let mut session = Session::default();
    let narrow = Some(Viewport { width: 90, height: 200 });
    let effects = tick_to_spawn_red_ball(&mut session, 3 * SECOND, narrow);
    assert_eq!(
        effects,
        vec![
            Effect::SpawnBall { handle: 0, x: 0, y: 55 },
            Effect::SpawnBall { handle: 1, x: 0, y: 55 },
            Effect::SpawnBall { handle: 2, x: 0, y: 55 },
        ]
    );
}

#[test]
fn balls_appear_all_along_the_strip() {
    let mut session = Session::new(SpawnRedBallTimer::new(1).unwrap());
    let effects = tick_to_spawn_red_ball(&mut session, 400, WINDOW);
    assert_eq!(effects.len(), 400);
    let mut least = i32::MAX;
    let mut greatest = i32::MIN;
    for (i, effect) in effects.iter().enumerate() {
        match *effect {
            Effect::SpawnBall { handle, x, y } => {
                assert_eq!(handle, i as u64);
                assert_eq!(y, 315);
                assert!(-595 <= x && x <= 595);
                least = least.min(x);
                greatest = greatest.max(x);
            },
            other => panic!("not a ball: {:?}", other),
        }
    }
    assert!(least < -300, "no ball in the left quarter: {}", least);
    assert!(greatest > 300, "no ball in the right quarter: {}", greatest);
    assert_eq!(session.ball_count(), 400);
}

#[test]
fn handles_are_given_out_once() {
    let mut session = Session::default();
    spawn_walls(&mut session, WINDOW);
    spawn_blue_rectangle(&mut session, WINDOW);
    spawn_score_text(&mut session);
    let effects = tick_to_spawn_red_ball(&mut session, 3 * SECOND, WINDOW);
    let handles: Vec<u64> = effects
        .iter()
        .map(|e| match *e {
            Effect::SpawnBall { handle, .. } => handle,
            other => panic!("not a ball: {:?}", other),
        })
        .collect();
    assert_eq!(handles, vec![6, 7, 8]);
}
