//! Target spawning: the initial spawn at startup and the respawn that
//! consumes the eaten signal, both placing the target uniformly at random
//! and recording the new position in the shared state.

use vstd::prelude::*;
use rand::Rng;
use crate::params::{RESPAWN_MAX, RESPAWN_MIN, SPAWN_MAX, SPAWN_MIN};
use crate::state::{EatEvent, GameState};
use crate::vec2::Vec2;

verus! {

/// Relies on rand's `Rng::gen_range` on an `i64` range `lo..hi`: the sample
/// is uniform in `[lo, hi)`, and the call panics only on an empty range.
#[verifier::external_body]
fn random_in(lo: i64, hi: i64) -> (r: i64)
    requires
        lo < hi,
    ensures
        lo <= r < hi,
{
    rand::thread_rng().gen_range(lo..hi)
}

/// The startup spawn: place the target with each coordinate drawn uniformly
/// from [-300.0, 300.0) — a deliberately wider range than in-game respawns —
/// and record it in the shared state. The score is untouched.
pub fn spawn_food(state: &mut GameState) -> (t: Vec2)
    ensures
        SPAWN_MIN <= t.x < SPAWN_MAX,
        SPAWN_MIN <= t.y < SPAWN_MAX,
        t.in_range(),
        final(state).target_position == Some(t),
        final(state).score == old(state).score,
{
    let x = random_in(SPAWN_MIN, SPAWN_MAX);
    let y = random_in(SPAWN_MIN, SPAWN_MAX);
    let t = Vec2 { x, y };
    state.target_position = Some(t);
    t
}

/// The respawner: if the eaten signal was raised this tick, move the target
/// to a fresh position with each coordinate drawn uniformly from
/// [-200.0, 200.0) and record it in the shared state; without a signal, a
/// no-op. The score is untouched either way.
pub fn listen_eat(target: &mut Vec2, state: &mut GameState, signal: Option<EatEvent>)
    ensures
        signal is Some ==> {
            &&& RESPAWN_MIN <= final(target).x < RESPAWN_MAX
            &&& RESPAWN_MIN <= final(target).y < RESPAWN_MAX
            &&& final(target).in_range()
            &&& final(state).target_position == Some(*final(target))
        },
        signal is None ==> *final(target) == *old(target) && *final(state) == *old(state),
        final(state).score == old(state).score,
{
    if signal.is_some() {
        let x = random_in(RESPAWN_MIN, RESPAWN_MAX);
        let y = random_in(RESPAWN_MIN, RESPAWN_MAX);
        let t = Vec2 { x, y };
        *target = t;
        state.target_position = Some(t);
    }
}

/// Reflect the target's position into the shared state, keeping the two in
/// step whenever the target has moved by other means. The score is
/// untouched.
pub fn update_food(target: &Vec2, state: &mut GameState)
    ensures
        final(state).target_position == Some(*target),
        final(state).score == old(state).score,
{
    state.target_position = Some(*target);
}

} // verus!
