//! Fixed numeric parameters of the game world.
//!
//! Every distance is a whole number of world units, so the whole rule set
//! lives in integer arithmetic. Velocities and accelerations are per second;
//! the two repeating timers (wing animation, pipe cadence) count
//! milliseconds.

use vstd::prelude::*;

verus! {

// Window dimensions.
pub const SIZE_X: i64 = 800;
pub const SIZE_Y: i64 = 600;

// Pipe generation: the shortest pipe allowed on either edge, and the
// vertical opening the bird flies through.
pub const MIN_PIPE_SIZE: i64 = 50;
pub const GAP_SIZE: i64 = 200;

// Pipe sprite, in texture pixels, and the scale it is drawn at.
pub const PIPE_SCALE: i64 = 5;
pub const PIPE_TEX_HEIGHT: i64 = 92;
pub const PIPE_TEX_WIDTH: i64 = 14;

// Bird sprite.
pub const BIRD_SCALE: i64 = 3;
pub const BIRD_TEX_HEIGHT: i64 = 12;
pub const BIRD_TEX_WIDTH: i64 = 16;

// Physics, in world units per second (squared, for gravity).
pub const GRAVITY: i64 = -1600;
pub const JUMP_SPEED: i64 = 600;
pub const FORWARD_SPEED: i64 = 450;

// Derived extents used by the collision tests:
// BIRD_RADIUS = BIRD_TEX_HEIGHT * BIRD_SCALE / 2,
// PIPE_HALF_WIDTH = PIPE_TEX_WIDTH / 2 * PIPE_SCALE,
// PIPE_HEIGHT = PIPE_TEX_HEIGHT * PIPE_SCALE.
pub const BIRD_RADIUS: i64 = 18;
pub const PIPE_HALF_WIDTH: i64 = 35;
pub const PIPE_HEIGHT: i64 = 460;

// The camera leads the bird by a fixed horizontal offset.
pub const CAMERA_LEAD: i64 = 150;

// Timer periods, in milliseconds: one wing-flap frame every 75 ms, one
// pipe pair every 650 ms of simulated time.
pub const ANIMATION_PERIOD_MS: u64 = 75;
pub const PIPE_PERIOD_MS: u64 = 650;

} // verus!
