//! Tests of the tick pipeline: motion, eat detection and scoring, target
//! spawning and respawn bounds, and the single-tick life of the eaten
//! signal.

use pursuit::eat::eat_food;
use pursuit::motion::update_motion;
use pursuit::respawn::{listen_eat, spawn_food, update_food};
use pursuit::state::{Agent, Controller, EatEvent, GameState};
use pursuit::tick::tick;
use pursuit::vec2::Vec2;

fn agent_at(px: i64, py: i64, vx: i64, vy: i64, prev: Option<i64>) -> Agent {
    Agent {
        position: Vec2 { x: px, y: py },
        velocity: Vec2 { x: vx, y: vy },
        ctl: Controller { p_gain: 60, i_acc: 0, i_gain: 1000, d_gain: 800, prev_err: prev },
    }
}

#[test]
fn motion_adds_velocity_once() {
    let mut a = agent_at(10, 20, 5, -7, None);
    update_motion(&mut a);
    assert_eq!(a.position, Vec2 { x: 15, y: 13 });
    assert_eq!(a.velocity, Vec2 { x: 5, y: -7 });
}

#[test]
fn fresh_agent_defaults() {
    let a = Agent::new();
    assert_eq!(a.position, Vec2 { x: 0, y: 0 });
    assert_eq!(a.velocity, Vec2 { x: 0, y: 0 });
    assert_eq!(a.ctl.p_gain, 60);
    assert_eq!(a.ctl.i_gain, 1000);
    assert_eq!(a.ctl.i_acc, 0);
    assert_eq!(a.ctl.d_gain, 800);
    assert_eq!(a.ctl.prev_err, None);
}

#[test]
fn eat_within_radius_scores_once() {
    let mut st = GameState { score: 0, target_position: Some(Vec2 { x: 5000, y: 0 }) };
    let signal = eat_food(Vec2 { x: 0, y: 0 }, &mut st);
    assert_eq!(signal, Some(EatEvent));
    assert_eq!(st.score, 1);
    assert_eq!(st.target_position, Some(Vec2 { x: 5000, y: 0 }));
}

#[test]
fn eat_is_strict_at_the_radius() {
    // exactly 10.0 away: no eat; 9.999 away: eat
    let mut st = GameState { score: 0, target_position: Some(Vec2 { x: 10_000, y: 0 }) };
    assert_eq!(eat_food(Vec2 { x: 0, y: 0 }, &mut st), None);
    assert_eq!(st.score, 0);
    st.target_position = Some(Vec2 { x: 9_999, y: 0 });
    assert_eq!(eat_food(Vec2 { x: 0, y: 0 }, &mut st), Some(EatEvent));
    assert_eq!(st.score, 1);
}

#[test]
fn eat_without_target_is_noop() {
    let mut st = GameState { score: 3, target_position: None };
    assert_eq!(eat_food(Vec2 { x: 0, y: 0 }, &mut st), None);
    assert_eq!(st.score, 3);
    assert_eq!(st.target_position, None);
}

#[test]
fn eat_far_away_is_noop() {
    let mut st = GameState { score: 5, target_position: Some(Vec2 { x: 500_000, y: 0 }) };
    assert_eq!(eat_food(Vec2 { x: 0, y: 0 }, &mut st), None);
    assert_eq!(st.score, 5);
}

#[test]
fn initial_spawn_within_wide_bounds() {
    for _ in 0..200 {
        let mut st = GameState { score: 0, target_position: None };
        let t = spawn_food(&mut st);
        assert!(-300_000 <= t.x && t.x < 300_000);
        assert!(-300_000 <= t.y && t.y < 300_000);
        assert_eq!(st.target_position, Some(t));
        assert_eq!(st.score, 0);
    }
}

#[test]
fn respawn_within_narrow_bounds_after_eats() {
    let mut st = GameState { score: 0, target_position: Some(Vec2 { x: 250_000, y: 250_000 }) };
    let mut t = Vec2 { x: 250_000, y: 250_000 };
    for _ in 0..200 {
        listen_eat(&mut t, &mut st, Some(EatEvent));
        assert!(-200_000 <= t.x && t.x < 200_000);
        assert!(-200_000 <= t.y && t.y < 200_000);
        assert_eq!(st.target_position, Some(t));
    }
}

#[test]
fn no_signal_no_respawn() {
    let mut st = GameState { score: 2, target_position: Some(Vec2 { x: 111, y: 222 }) };
    let mut t = Vec2 { x: 111, y: 222 };
    listen_eat(&mut t, &mut st, None);
    assert_eq!(t, Vec2 { x: 111, y: 222 });
    assert_eq!(st.target_position, Some(Vec2 { x: 111, y: 222 }));
    assert_eq!(st.score, 2);
}

#[test]
fn update_food_reflects_target() {
    let mut st = GameState { score: 9, target_position: None };
    update_food(&Vec2 { x: -5, y: 8 }, &mut st);
    assert_eq!(st.target_position, Some(Vec2 { x: -5, y: 8 }));
    assert_eq!(st.score, 9);
}

#[test]
fn tick_eats_scores_and_respawns() {
    // agent starts on top of a near target: the tick scores exactly once,
    // the controller runs with the signal, and the target respawns within
    // the narrow bounds
    let mut a = agent_at(0, 0, 0, 0, None);
    let mut t = Vec2 { x: 5000, y: 0 };
    let mut st = GameState { score: 0, target_position: Some(t) };
    let reported = tick(&mut a, &mut t, &mut st);
    assert_eq!(st.score, 1);
    assert_eq!(reported, 1);
    assert!(-200_000 <= t.x && t.x < 200_000);
    assert!(-200_000 <= t.y && t.y < 200_000);
    assert_eq!(st.target_position, Some(t));
    // distance 5.0: p-response 0.3, velocity (0.015, 0)
    assert_eq!(a.velocity, Vec2 { x: 15, y: 0 });
    // the signal left no pending reset: the memory holds the measured distance
    assert_eq!(a.ctl.prev_err, Some(5000));
}

#[test]
fn tick_without_eat_changes_no_target() {
    let mut a = agent_at(0, 0, 0, 0, None);
    let mut t = Vec2 { x: 100_000, y: 0 };
    let mut st = GameState { score: 0, target_position: Some(t) };
    let reported = tick(&mut a, &mut t, &mut st);
    assert_eq!(st.score, 0);
    assert_eq!(reported, 0);
    assert_eq!(t, Vec2 { x: 100_000, y: 0 });
    assert_eq!(st.target_position, Some(t));
    assert_eq!(a.velocity, Vec2 { x: 300, y: 0 });
}

#[test]
fn score_is_monotone_over_ticks() {
    let mut a = Agent::new();
    let mut st = GameState { score: 0, target_position: None };
    let mut t = spawn_food(&mut st);
    let mut last = 0u32;
    for _ in 0..50 {
        let reported = tick(&mut a, &mut t, &mut st);
        assert!(reported >= last);
        assert!(reported <= last + 1);
        last = reported;
    }
}

#[test]
fn signal_not_observable_next_tick() {
    // tick 1 eats; tick 2 must start with no pending signal: its controller
    // keeps (indeed overwrites) the derivative memory instead of clearing it
    let mut a = agent_at(0, 0, 0, 0, None);
    let mut t = Vec2 { x: 0, y: 0 };
    let mut st = GameState { score: 0, target_position: Some(t) };
    let reported = tick(&mut a, &mut t, &mut st);
    assert_eq!(reported, 1);
    // the eaten tick stored the distance it measured, not an empty memory
    assert_eq!(a.ctl.prev_err, Some(0));
    let score_before = st.score;
    let prev_before = a.ctl.prev_err;
    let second = tick(&mut a, &mut t, &mut st);
    // whether or not tick 2 eats is up to the random respawn, but tick 1's
    // signal is gone: the memory after tick 2 is the distance tick 2
    // measured, never the cleared value of a stale signal
    assert!(a.ctl.prev_err.is_some());
    assert!(second == score_before || second == score_before + 1);
    assert!(prev_before.is_some());
}
