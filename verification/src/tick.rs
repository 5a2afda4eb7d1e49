//! One simulation tick: the fixed phase sequence motion → eat detection →
//! {controller, respawner} → score report. The eaten signal is a local of
//! the tick: produced by the detector, handed to its two consumers, gone
//! when the tick ends.

use vstd::prelude::*;
use crate::controller::{controller, memory_after, velocity_after};
use crate::eat::{eat_food, eats};
use crate::fixed::iabs;
use crate::motion::{moved_position, update_motion};
use crate::params::{COORD_LIMIT, RESPAWN_MAX, RESPAWN_MIN};
use crate::respawn::listen_eat;
use crate::state::{Agent, GameState};
use crate::vec2::Vec2;

verus! {

/// The agent as the controller sees it within a tick: already moved, with
/// velocity and memory still as the tick began.
pub open spec fn agent_after_motion(a: Agent) -> Agent {
    Agent { position: moved_position(a), velocity: a.velocity, ctl: a.ctl }
}

/// Whether the tick's detector fires: after the motion step the agent is
/// strictly within the eat radius of the target.
pub open spec fn eat_happens(a: Agent, t: Vec2) -> bool {
    eats(moved_position(a), t)
}

/// One full tick, in the required order: the motion integrator moves the
/// agent; the eat detector compares positions, and on a hit bumps the score
/// and raises the signal; the controller and the respawner both consume that
/// signal; the score reporter reads the result. The signal lives only inside
/// this call: it is not stored, so the next tick starts clean.
pub fn tick(agent: &mut Agent, target: &mut Vec2, state: &mut GameState) -> (reported: u32)
    requires
        old(agent).wf(),
        iabs(old(agent).position.x + old(agent).velocity.x) <= COORD_LIMIT,
        iabs(old(agent).position.y + old(agent).velocity.y) <= COORD_LIMIT,
        old(state).target_position == Some(*old(target)),
        old(target).in_range(),
        old(state).score < u32::MAX,
    ensures
        final(agent).position == moved_position(*old(agent)),
        final(agent).velocity.x as int == velocity_after(
            agent_after_motion(*old(agent)),
            Some(*old(target)),
            eat_happens(*old(agent), *old(target)),
        ).0,
        final(agent).velocity.y as int == velocity_after(
            agent_after_motion(*old(agent)),
            Some(*old(target)),
            eat_happens(*old(agent), *old(target)),
        ).1,
        final(agent).ctl.prev_err == memory_after(
            agent_after_motion(*old(agent)),
            Some(*old(target)),
            eat_happens(*old(agent), *old(target)),
        ),
        final(agent).ctl.p_gain == old(agent).ctl.p_gain,
        final(agent).ctl.i_gain == old(agent).ctl.i_gain,
        final(agent).ctl.i_acc == old(agent).ctl.i_acc,
        final(agent).ctl.d_gain == old(agent).ctl.d_gain,
        final(agent).wf(),
        final(state).score == old(state).score + (if eat_happens(*old(agent), *old(target)) {
            1int
        } else {
            0int
        }),
        old(state).score <= final(state).score <= old(state).score + 1,
        eat_happens(*old(agent), *old(target)) ==> {
            &&& RESPAWN_MIN <= final(target).x < RESPAWN_MAX
            &&& RESPAWN_MIN <= final(target).y < RESPAWN_MAX
            &&& final(state).target_position == Some(*final(target))
        },
        !eat_happens(*old(agent), *old(target)) ==> *final(target) == *old(target)
            && final(state).target_position == Some(*old(target)),
        final(target).in_range(),
        reported == final(state).score,
{
    update_motion(agent);
    let signal = eat_food(agent.position, state);
    controller(agent, state.target_position, signal);
    listen_eat(target, state, signal);
    state.current_score()
}

} // verus!
