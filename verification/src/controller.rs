//! The pursuit controller: every tick it damps the agent's velocity, consumes
//! the eaten signal (clearing the derivative memory), and, when a target is
//! known, steers toward it with a damped proportional-derivative law whose
//! output is clamped from above.

use vstd::prelude::*;
use crate::fixed::{lemma_abs_mul_le, lemma_tdiv_abs_le, mul_div, tdiv, SCALE};
use crate::params::{DAMP_DEN, DAMP_NUM, PURSUIT_SCALE, VEL_LIMIT, VEL_MAX};
use crate::state::{Agent, Controller, EatEvent};
use crate::vec2::{distance, distance_between, lemma_distance_dominates, Vec2};

verus! {

/// One application of the exponential damping: the component times 0.9 on
/// the fixed-point grid.
pub open spec fn damped(v: int) -> int {
    tdiv(v * DAMP_NUM, DAMP_DEN as int)
}

/// The derivative memory once the signal is consumed: a raised signal clears
/// it, so a fresh pursuit begins.
pub open spec fn memory_after_signal(prev: Option<i64>, signal: bool) -> Option<i64> {
    if signal {
        Option::None
    } else {
        prev
    }
}

/// One component of the pursuit direction: the error component over the
/// distance, scaled by 0.05. At distance zero the direction is undefined and
/// contributes nothing.
pub open spec fn dir_component(delta: int, dist: int) -> int {
    if dist == 0 {
        0
    } else {
        tdiv(delta * PURSUIT_SCALE, dist)
    }
}

/// Proportional response: distance times the proportional gain.
pub open spec fn p_response(dist: int, p_gain: int) -> int {
    tdiv(dist * p_gain, SCALE as int)
}

/// Derivative response: the change of the distance since the previous run,
/// times the derivative gain; zero without history.
pub open spec fn d_response(dist: int, prev: Option<i64>, d_gain: int) -> int {
    match prev {
        Option::Some(p) => tdiv((dist - p) * d_gain, SCALE as int),
        Option::None => 0,
    }
}

/// The scalar response of the control law for agent `a` chasing target `t`:
/// proportional plus derivative term, the derivative memory first filtered
/// through the signal.
pub open spec fn response(a: Agent, t: Vec2, signal: bool) -> int {
    let d = distance(a.position, t);
    p_response(d, a.ctl.p_gain as int) + d_response(
        d,
        memory_after_signal(a.ctl.prev_err, signal),
        a.ctl.d_gain as int,
    )
}

/// The upper velocity clamp; there is no lower clamp.
pub open spec fn clamp_high(v: int) -> int {
    if v > VEL_MAX {
        VEL_MAX as int
    } else {
        v
    }
}

/// One velocity component after a full pursuit update: damping, minus the
/// direction component times the response, clamped from above.
pub open spec fn pursuit_velocity(v: int, delta: int, dist: int, resp: int) -> int {
    clamp_high(damped(v) - tdiv(dir_component(delta, dist) * resp, SCALE as int))
}

/// Both velocity components after one controller run: with a target, the
/// pursuit update; without one, damping alone.
pub open spec fn velocity_after(a: Agent, target: Option<Vec2>, signal: bool) -> (int, int) {
    match target {
        Option::Some(t) => {
            let d = distance(a.position, t);
            let resp = response(a, t, signal);
            (
                pursuit_velocity(a.velocity.x as int, a.position.x - t.x, d, resp),
                pursuit_velocity(a.velocity.y as int, a.position.y - t.y, d, resp),
            )
        },
        Option::None => (damped(a.velocity.x as int), damped(a.velocity.y as int)),
    }
}

/// The derivative memory after one controller run: with a target, the
/// distance just measured; without one, whatever the signal left.
pub open spec fn memory_after(a: Agent, target: Option<Vec2>, signal: bool) -> Option<i64> {
    match target {
        Option::Some(t) => Option::Some(distance(a.position, t) as i64),
        Option::None => memory_after_signal(a.ctl.prev_err, signal),
    }
}

/// One run of the pursuit controller.
///
/// In order: damp the velocity by 0.9 per axis; on a raised signal forget
/// the derivative memory; then, if a target is known, steer by the PD law
/// and clamp each velocity component to at most `VEL_MAX`. The position and
/// the gains are untouched; the run cannot fail.
pub fn controller(agent: &mut Agent, target_position: Option<Vec2>, signal: Option<EatEvent>)
    requires
        old(agent).wf(),
        old(agent).position.in_range(),
        match target_position {
            Option::Some(t) => t.in_range(),
            Option::None => true,
        },
    ensures
        final(agent).position == old(agent).position,
        final(agent).ctl.p_gain == old(agent).ctl.p_gain,
        final(agent).ctl.i_gain == old(agent).ctl.i_gain,
        final(agent).ctl.i_acc == old(agent).ctl.i_acc,
        final(agent).ctl.d_gain == old(agent).ctl.d_gain,
        final(agent).velocity.x as int == velocity_after(
            *old(agent),
            target_position,
            signal is Some,
        ).0,
        final(agent).velocity.y as int == velocity_after(
            *old(agent),
            target_position,
            signal is Some,
        ).1,
        final(agent).ctl.prev_err == memory_after(*old(agent), target_position, signal is Some),
        final(agent).wf(),
        target_position is Some ==> final(agent).velocity.x <= VEL_MAX
            && final(agent).velocity.y <= VEL_MAX,
        target_position is None && signal is None ==> final(agent).ctl == old(agent).ctl
            && final(agent).velocity.x as int == damped(old(agent).velocity.x as int)
            && final(agent).velocity.y as int == damped(old(agent).velocity.y as int),
{
    let vx = agent.velocity.x;
    let vy = agent.velocity.y;
    proof {
        lemma_abs_mul_le(vx as int, DAMP_NUM as int, VEL_LIMIT as int, DAMP_NUM as int);
        lemma_abs_mul_le(vy as int, DAMP_NUM as int, VEL_LIMIT as int, DAMP_NUM as int);
    }
    let v1x = mul_div(vx, DAMP_NUM, DAMP_DEN);
    let v1y = mul_div(vy, DAMP_NUM, DAMP_DEN);
    proof {
        lemma_tdiv_abs_le(vx as int * DAMP_NUM, DAMP_DEN as int, 2_250_000_000);
        lemma_tdiv_abs_le(vy as int * DAMP_NUM, DAMP_DEN as int, 2_250_000_000);
    }
    let prev0: Option<i64> = if signal.is_some() {
        None
    } else {
        agent.ctl.prev_err
    };
    match target_position {
        None => {
            agent.velocity = Vec2 { x: v1x, y: v1y };
            agent.ctl = Controller { prev_err: prev0, ..agent.ctl };
        },
        Some(t) => {
            let dist = distance_between(agent.position, t);
            proof {
                lemma_distance_dominates(agent.position, t);
            }
            let dx = agent.position.x - t.x;
            let dy = agent.position.y - t.y;
            proof {
                lemma_abs_mul_le(dx as int, PURSUIT_SCALE as int, 2_000_000_000, PURSUIT_SCALE as int);
                lemma_abs_mul_le(dy as int, PURSUIT_SCALE as int, 2_000_000_000, PURSUIT_SCALE as int);
            }
            let dirx = if dist == 0 {
                0
            } else {
                mul_div(dx, PURSUIT_SCALE, dist)
            };
            let diry = if dist == 0 {
                0
            } else {
                mul_div(dy, PURSUIT_SCALE, dist)
            };
            proof {
                if dist != 0 {
                    lemma_tdiv_abs_le(dx as int * PURSUIT_SCALE, dist as int, PURSUIT_SCALE as int);
                    lemma_tdiv_abs_le(dy as int * PURSUIT_SCALE, dist as int, PURSUIT_SCALE as int);
                }
            }
            proof {
                lemma_abs_mul_le(dist as int, agent.ctl.p_gain as int, 3_000_000_000, 60);
            }
            let p_resp = mul_div(dist, agent.ctl.p_gain, SCALE);
            proof {
                lemma_tdiv_abs_le(dist as int * agent.ctl.p_gain, SCALE as int, 180_000_000);
            }
            let d_resp = match prev0 {
                Some(p) => {
                    proof {
                        lemma_abs_mul_le(
                            (dist - p) as int,
                            agent.ctl.d_gain as int,
                            6_000_000_000,
                            800,
                        );
                    }
                    let dr = mul_div(dist - p, agent.ctl.d_gain, SCALE);
                    proof {
                        lemma_tdiv_abs_le(
                            (dist - p) as int * agent.ctl.d_gain,
                            SCALE as int,
                            4_800_000_000,
                        );
                    }
                    dr
                },
                None => 0,
            };
            let resp = p_resp + d_resp;
            proof {
                lemma_abs_mul_le(dirx as int, resp as int, 50, 4_980_000_000);
                lemma_abs_mul_le(diry as int, resp as int, 50, 4_980_000_000);
            }
            let dvx = mul_div(dirx, resp, SCALE);
            let dvy = mul_div(diry, resp, SCALE);
            proof {
                lemma_tdiv_abs_le(dirx as int * resp as int, SCALE as int, 249_000_000);
                lemma_tdiv_abs_le(diry as int * resp as int, SCALE as int, 249_000_000);
            }
            let nvx = v1x - dvx;
            let nvy = v1y - dvy;
            let cvx = if nvx > VEL_MAX {
                VEL_MAX
            } else {
                nvx
            };
            let cvy = if nvy > VEL_MAX {
                VEL_MAX
            } else {
                nvy
            };
            agent.velocity = Vec2 { x: cvx, y: cvy };
            agent.ctl = Controller { prev_err: Some(dist), ..agent.ctl };
        },
    }
}

/// Law: for any controller run with a target present, whatever the raw
/// response was, the post-clamp velocity components never exceed the upper
/// bound. There is no corresponding lower bound.
pub proof fn lemma_velocity_clamped(a: Agent, t: Vec2, signal: bool)
    ensures
        velocity_after(a, Option::Some(t), signal).0 <= VEL_MAX,
        velocity_after(a, Option::Some(t), signal).1 <= VEL_MAX,
{
}

/// Law: a raised signal resets the derivative memory, so the controller's
/// outcome does not depend on whatever `previous_error` held before.
pub proof fn lemma_signal_resets_derivative(a1: Agent, a2: Agent, target: Option<Vec2>)
    requires
        a1.position == a2.position,
        a1.velocity == a2.velocity,
        a1.ctl.p_gain == a2.ctl.p_gain,
        a1.ctl.d_gain == a2.ctl.d_gain,
    ensures
        velocity_after(a1, target, true) == velocity_after(a2, target, true),
        memory_after(a1, target, true) == memory_after(a2, target, true),
{
}

/// Law (signal locality): the detector raises the signal only when a target
/// is present, and with a target present the memory the controller stores
/// for later ticks is the measured distance whether or not the signal was
/// raised. No other state records the signal, so a signal raised in one tick
/// is not observable in the next.
pub proof fn lemma_signal_locality(a: Agent, t: Vec2)
    ensures
        memory_after(a, Option::Some(t), true) == memory_after(a, Option::Some(t), false),
{
}

} // verus!
