//! The fixed constants of the simulation, all in fixed-point thousandths:
//! controller gains, the damping factor, the eat radius, the velocity clamp
//! and the spawn ranges, plus the machine bounds under which the arithmetic
//! of a tick is proved free of overflow.

use vstd::prelude::*;

verus! {

/// Proportional gain of the pursuit controller: 0.06.
pub const P_GAIN: i64 = 60;

/// Integral gain: 1.0. Carried in the controller memory but never read by
/// the control law (present but inert).
pub const I_GAIN: i64 = 1000;

/// Derivative gain of the pursuit controller: 0.8.
pub const D_GAIN: i64 = 800;

/// Exponential damping of the velocity, applied every controller run:
/// both components are multiplied by DAMP_NUM / DAMP_DEN = 0.9.
pub const DAMP_NUM: i64 = 9;

/// Denominator of the damping factor.
pub const DAMP_DEN: i64 = 10;

/// The pursuit direction is the normalized error vector scaled by 0.05.
pub const PURSUIT_SCALE: i64 = 50;

/// Upper clamp on each velocity component after a pursuit update: 10.0.
/// There is no corresponding lower clamp.
pub const VEL_MAX: i64 = 10_000;

/// The agent eats the target when their Euclidean distance is strictly
/// below 10.0.
pub const EAT_RADIUS: i64 = 10_000;

/// The very first target spawn draws each coordinate uniformly from
/// [SPAWN_MIN, SPAWN_MAX), that is [-300.0, 300.0).
pub const SPAWN_MIN: i64 = -300_000;

/// Upper bound of the initial spawn range.
pub const SPAWN_MAX: i64 = 300_000;

/// A respawn after an eat draws each coordinate uniformly from
/// [RESPAWN_MIN, RESPAWN_MAX), that is [-200.0, 200.0): a deliberately
/// narrower range than the initial spawn.
pub const RESPAWN_MIN: i64 = -200_000;

/// Upper bound of the respawn range.
pub const RESPAWN_MAX: i64 = 200_000;

/// Machine bound on coordinate magnitudes (a million units): within it the
/// squared-distance computation of a tick stays inside 64 bits.
pub const COORD_LIMIT: i64 = 1_000_000_000;

/// Machine bound on velocity-component magnitudes. It is preserved by the
/// controller: damping shrinks the velocity by a tenth, which outweighs the
/// largest possible pursuit response under COORD_LIMIT.
pub const VEL_LIMIT: i64 = 2_500_000_000;

/// Machine bound on the stored derivative memory. Any distance between two
/// in-range points is below it, so the controller re-establishes it.
pub const PREV_LIMIT: i64 = 3_000_000_000;

} // verus!
