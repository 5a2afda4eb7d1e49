//! Motion integration: the agent advances by its current velocity once per
//! tick.

use vstd::prelude::*;
use crate::state::Agent;
use crate::vec2::Vec2;

verus! {

/// Where the agent stands after one motion step: position plus velocity,
/// per axis.
pub open spec fn moved_position(a: Agent) -> Vec2 {
    Vec2 {
        x: (a.position.x + a.velocity.x) as i64,
        y: (a.position.y + a.velocity.y) as i64,
    }
}

/// Add the velocity to the position, per axis, once. No bounds checking and
/// no collision: velocity and controller memory are untouched.
pub fn update_motion(agent: &mut Agent)
    requires
        i64::MIN <= old(agent).position.x + old(agent).velocity.x <= i64::MAX,
        i64::MIN <= old(agent).position.y + old(agent).velocity.y <= i64::MAX,
    ensures
        final(agent).position == moved_position(*old(agent)),
        final(agent).velocity == old(agent).velocity,
        final(agent).ctl == old(agent).ctl,
{
    agent.position = Vec2 {
        x: agent.position.x + agent.velocity.x,
        y: agent.position.y + agent.velocity.y,
    };
}

} // verus!
