//! The data model: the single agent with its controller memory, the shared
//! simulation state (score and target position), and the one-tick eaten
//! signal.

use vstd::prelude::*;
use crate::params::{D_GAIN, I_GAIN, P_GAIN, PREV_LIMIT, VEL_LIMIT};
use crate::fixed::iabs;
use crate::vec2::Vec2;

verus! {

/// Controller memory of the pursuit law: the gains and the previous error
/// (distance) used for the derivative term. The integral gain and
/// accumulator are carried but never read or written by the control law:
/// present-but-inert state.
#[derive(Clone, Copy, PartialEq, Eq, Debug)]
pub struct Controller {
    pub p_gain: i64,
    pub i_acc: i64,
    pub i_gain: i64,
    pub d_gain: i64,
    pub prev_err: Option<i64>,
}

impl Controller {
    /// The gains are the fixed constants of the design; they are not
    /// runtime-configurable.
    pub open spec fn standard_gains(self) -> bool {
        &&& self.p_gain == P_GAIN
        &&& self.i_gain == I_GAIN
        &&& self.d_gain == D_GAIN
    }

    /// The stored previous error is a distance: non-negative and below the
    /// machine bound.
    pub open spec fn memory_in_range(self) -> bool {
        match self.prev_err {
            Option::Some(p) => 0 <= p <= PREV_LIMIT,
            Option::None => true,
        }
    }
}

/// The single pursuing agent: position, velocity and controller memory.
/// Exactly one exists for the lifetime of the simulation.
#[derive(Clone, Copy, PartialEq, Eq, Debug)]
pub struct Agent {
    pub position: Vec2,
    pub velocity: Vec2,
    pub ctl: Controller,
}

impl Agent {
    /// Well-formedness preserved by every tick: standard gains, a stored
    /// error within its bound, and velocity components within the bound that
    /// damping keeps stable.
    pub open spec fn wf(self) -> bool {
        &&& self.ctl.standard_gains()
        &&& self.ctl.memory_in_range()
        &&& iabs(self.velocity.x as int) <= VEL_LIMIT
        &&& iabs(self.velocity.y as int) <= VEL_LIMIT
    }

    /// A fresh agent at the origin, at rest, with the standard gains and no
    /// derivative history.
    pub fn new() -> (a: Agent)
        ensures
            a.position == (Vec2 { x: 0, y: 0 }),
            a.velocity == (Vec2 { x: 0, y: 0 }),
            a.ctl.p_gain == P_GAIN,
            a.ctl.i_gain == I_GAIN,
            a.ctl.i_acc == 0,
            a.ctl.d_gain == D_GAIN,
            a.ctl.prev_err is None,
            a.wf(),
            a.position.in_range(),
    {
        Agent {
            position: Vec2 { x: 0, y: 0 },
            velocity: Vec2 { x: 0, y: 0 },
            ctl: Controller {
                p_gain: P_GAIN,
                i_acc: 0,
                i_gain: I_GAIN,
                d_gain: D_GAIN,
                prev_err: None,
            },
        }
    }
}

/// Zero-payload marker raised when the agent reaches the target; it lives
/// for a single tick and is never stored.
#[derive(Clone, Copy, PartialEq, Eq, Debug)]
pub struct EatEvent;

/// Shared simulation state: the running score and the target's current
/// position. The position is `None` only before the first spawn and `Some`
/// ever after.
#[derive(Clone, Copy, PartialEq, Eq, Debug)]
pub struct GameState {
    pub score: u32,
    pub target_position: Option<Vec2>,
}

impl GameState {
    /// A known target position is within the machine coordinate bound.
    pub open spec fn target_in_range(self) -> bool {
        match self.target_position {
            Option::Some(t) => t.in_range(),
            Option::None => true,
        }
    }

    /// The state before the first spawn: no score, no target yet.
    pub fn new() -> (s: GameState)
        ensures
            s.score == 0,
            s.target_position is None,
    {
        GameState { score: 0, target_position: None }
    }

    /// The score reporter: the current score, for the presentation layer.
    pub fn current_score(&self) -> (s: u32)
        ensures
            s == self.score,
    {
        self.score
    }
}

} // verus!
