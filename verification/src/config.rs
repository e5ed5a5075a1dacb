use vstd::prelude::*;

verus! {

/// Number of scaled sub-units per world unit. Positions, velocities and
/// gap extents are all stored in these sub-units so the physics is exact.
pub const SCALE: i64 = 10;

/// Duration of one fixed simulation tick, in milliseconds.
pub const TICK_MS: u64 = 75;

/// Gravity acceleration per tick (0.1 world units, scaled).
pub const GRAVITY: i64 = 1;

/// Hard cap on downward velocity (2.0 world units per tick, scaled).
pub const TERMINAL_VELOCITY: i64 = 20;

/// Velocity set by a flap impulse (-2.0 world units per tick, scaled);
/// negative values move the player towards the top of the playfield.
pub const FLAP_VELOCITY: i64 = -20;

/// Width of the playfield in world units; also the horizontal spacing
/// at which each new obstacle is placed ahead of the player.
pub const SCREEN_WIDTH: u64 = 80;

/// Height of the playfield (50.0 world units, scaled). Falling below it
/// ends the session.
pub const SCREEN_HEIGHT: i64 = 500;

/// Player spawn position: horizontal offset in world units.
pub const PLAYER_START_X: u64 = 5;

/// Player spawn position: vertical offset (25.0 world units, scaled).
pub const PLAYER_START_Y: i64 = 250;

/// Lowest vertical coordinate a gap center may take (10.0 units, scaled);
/// inclusive.
pub const GAP_CENTER_MIN: i64 = 100;

/// Highest vertical coordinate a gap center may take (50.0 units, scaled);
/// exclusive.
pub const GAP_CENTER_MAX: i64 = 500;

/// Gap extent of the very first obstacle (20.0 world units, scaled).
pub const BASE_GAP_SIZE: i64 = 200;

/// Smallest gap extent ever generated (2.0 world units, scaled); the
/// difficulty scaling floors here so a run never becomes unwinnable.
pub const MIN_GAP_SIZE: i64 = 20;

/// Length of the cyclic animation of the player sprite.
pub const ANIMATION_FRAMES: usize = 6;

} // verus!
