use vstd::prelude::*;

verus! {

/// Factor applied to a validated input direction to obtain the player's
/// velocity, in world units per tick.
pub const PLAYER_SPEED: i64 = 8;

/// Horizontal half-extent of the play area, in fixed-point coordinates
/// (312 world units).
pub const BOUND_X: i64 = 312000;

/// Vertical half-extent of the play area, in fixed-point coordinates
/// (232 world units).
pub const BOUND_Y: i64 = 232000;

/// Per-axis distance below which an enemy touches the player, in fixed-point
/// coordinates (30 world units).
pub const COLLIDE_DIST: i64 = 30000;

/// Largest per-axis input magnitude the anti-cheat rule accepts, in
/// fixed-point coordinates (1.1 world units).
pub const CHEAT_LIMIT: i64 = 1100;

/// A session whose idle counter passes this many ticks terminates itself.
pub const IDLE_LIMIT: u64 = 60;

/// A live player whose frame counter passes this value earns the reward
/// packet.
pub const WIN_FRAME: u64 = 300;

} // verus!
