//! Eat detection: when the agent is strictly closer to the target than the
//! eat radius, the score rises by one and the eaten signal is raised for the
//! rest of the tick.

use vstd::prelude::*;
use crate::params::EAT_RADIUS;
use crate::state::{EatEvent, GameState};
use crate::vec2::{distance, distance_between, Vec2};

verus! {

/// Whether the agent at `agent_position` eats a target at `t`: Euclidean
/// distance strictly below the eat radius.
pub open spec fn eats(agent_position: Vec2, t: Vec2) -> bool {
    distance(agent_position, t) < EAT_RADIUS
}

/// Compare the agent's position with the target's. With no target yet, a
/// no-op. Within the eat radius, the score rises by exactly one and the
/// signal is raised; otherwise nothing changes. The signal is raised at most
/// once per tick, however close the agent is.
pub fn eat_food(agent_position: Vec2, state: &mut GameState) -> (signal: Option<EatEvent>)
    requires
        agent_position.in_range(),
        old(state).target_in_range(),
        old(state).score < u32::MAX,
    ensures
        match old(state).target_position {
            Option::Some(t) => {
                &&& (signal is Some) == eats(agent_position, t)
                &&& final(state).score == old(state).score + (if signal is Some {
                    1int
                } else {
                    0int
                })
            },
            Option::None => signal is None && final(state).score == old(state).score,
        },
        final(state).target_position == old(state).target_position,
        final(state).score >= old(state).score,
{
    match state.target_position {
        Some(t) => {
            let d = distance_between(agent_position, t);
            if d < EAT_RADIUS {
                state.score = state.score + 1;
                Some(EatEvent)
            } else {
                None
            }
        },
        None => None,
    }
}

} // verus!
