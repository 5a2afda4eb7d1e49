//! Behavioural tests of the pursuit controller: damping, the PD formula,
//! the signal-driven derivative reset, the zero-distance edge case and the
//! one-sided velocity clamp. All values are fixed-point thousandths.

use pursuit::controller::controller;
use pursuit::state::{Agent, Controller, EatEvent, GameState};
use pursuit::vec2::Vec2;

fn agent_at(px: i64, py: i64, vx: i64, vy: i64, prev: Option<i64>) -> Agent {
    Agent {
        position: Vec2 { x: px, y: py },
        velocity: Vec2 { x: vx, y: vy },
        ctl: Controller { p_gain: 60, i_acc: 0, i_gain: 1000, d_gain: 800, prev_err: prev },
    }
}

#[test]
fn damping_only_without_target() {
    // with no target, one controller run multiplies both velocity components
    // by 0.9 and leaves the memory untouched
    let mut a = agent_at(7, -3, 900, -500, Some(123));
    controller(&mut a, None, None);
    assert_eq!(a.velocity.x, 810);
    assert_eq!(a.velocity.y, -450);
    assert_eq!(a.ctl.prev_err, Some(123));
    assert_eq!(a.position, Vec2 { x: 7, y: -3 });
    assert_eq!(a.ctl.p_gain, 60);
    assert_eq!(a.ctl.d_gain, 800);
}

#[test]
fn damping_only_keeps_empty_memory() {
    let mut a = agent_at(0, 0, 1000, 1000, None);
    controller(&mut a, None, None);
    assert_eq!(a.velocity, Vec2 { x: 900, y: 900 });
    assert_eq!(a.ctl.prev_err, None);
}

#[test]
fn pd_formula_exact() {
    // agent at (0,0), target at (100,0), fresh memory, velocity (0,0):
    // distance 100.0, p-response 6.0, d-response 0, direction (-0.05, 0),
    // velocity -= dir * response, so the result is exactly (0.3, 0.0)
    let mut a = agent_at(0, 0, 0, 0, None);
    controller(&mut a, Some(Vec2 { x: 100_000, y: 0 }), None);
    assert_eq!(a.velocity.x, 300);
    assert_eq!(a.velocity.y, 0);
    assert_eq!(a.ctl.prev_err, Some(100_000));
}

#[test]
fn signal_resets_derivative_memory() {
    // with the signal raised, stale memory must not contribute: the outcome
    // equals the fresh-memory run of the same configuration
    let mut stale = agent_at(0, 0, 0, 0, Some(77_777));
    controller(&mut stale, Some(Vec2 { x: 100_000, y: 0 }), Some(EatEvent));
    assert_eq!(stale.velocity.x, 300);
    assert_eq!(stale.velocity.y, 0);
    assert_eq!(stale.ctl.prev_err, Some(100_000));
}

#[test]
fn derivative_term_without_signal() {
    // the same stale memory, no signal: the derivative term kicks in
    // d-response = (100.0 - 0.0) * 0.8 = 80.0, response 86.0,
    // velocity.x = 0 - (-0.05 * 86.0) = 4.3
    let mut a = agent_at(0, 0, 0, 0, Some(0));
    controller(&mut a, Some(Vec2 { x: 100_000, y: 0 }), None);
    assert_eq!(a.velocity.x, 4300);
    assert_eq!(a.velocity.y, 0);
}

#[test]
fn velocity_clamped_exactly_at_upper_bound() {
    // a deliberately large response: distance 1000.0 with stale memory 0
    // gives raw velocity 43.0, clamped to exactly 10.0
    let mut a = agent_at(0, 0, 0, 0, Some(0));
    controller(&mut a, Some(Vec2 { x: 1_000_000, y: 0 }), None);
    assert_eq!(a.velocity.x, 10_000);
    assert_eq!(a.velocity.y, 0);
    assert_eq!(a.ctl.prev_err, Some(1_000_000));
}

#[test]
fn no_lower_velocity_clamp() {
    // the mirrored configuration drives the agent hard in the negative
    // direction; there is no lower clamp, so -43.0 stands
    let mut a = agent_at(1_000_000, 0, 0, 0, Some(0));
    controller(&mut a, Some(Vec2 { x: 0, y: 0 }), None);
    assert_eq!(a.velocity.x, -43_000);
    assert_eq!(a.velocity.y, 0);
}

#[test]
fn zero_distance_contributes_nothing() {
    // agent exactly on the target: the direction is undefined and must act
    // as zero contribution; damping still applies and the memory becomes 0.0
    let mut a = agent_at(400, -250, 100, 200, Some(500));
    controller(&mut a, Some(Vec2 { x: 400, y: -250 }), None);
    assert_eq!(a.velocity, Vec2 { x: 90, y: 180 });
    assert_eq!(a.ctl.prev_err, Some(0));
}

#[test]
fn inert_integral_state_untouched() {
    let mut a = agent_at(0, 0, 0, 0, None);
    a.ctl.i_acc = 0;
    controller(&mut a, Some(Vec2 { x: 100_000, y: 0 }), Some(EatEvent));
    assert_eq!(a.ctl.i_acc, 0);
    assert_eq!(a.ctl.i_gain, 1000);
}

#[test]
fn reporter_reads_score() {
    let st = GameState { score: 42, target_position: None };
    assert_eq!(st.current_score(), 42);
}
