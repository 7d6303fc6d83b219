//! The fixed dimensions and tuning of the game.
use vstd::prelude::*;

verus! {

/// Width of the play field, in columns.
pub const SCREEN_WIDTH: i32 = 40;

/// Height of the play field, in rows.
pub const SCREEN_HEIGHT: i32 = 25;

/// Sub-row units per row: vertical positions and speeds count tenths of a row.
pub const ROW_SCALE: i32 = 10;

/// Time between two physics steps, in microseconds (60 ms).
pub const FRAME_DURATION_US: u64 = 60_000;

/// Speed added by one physics step while falling, in tenths of a row (0.4 rows).
pub const GRAVITY: i32 = 4;

/// Gravity is only added while the speed is at most this (2.0 rows per step).
pub const MAX_GRAVITY: i32 = 20;

/// Upward speed set by a flap, in tenths of a row (2.5 rows per step).
pub const JUMP_FORCE: i32 = 25;

/// Columns the player advances in one physics step.
pub const HORIZONTAL_VELOCITY: i32 = 1;

/// Number of frames in the player's flapping animation.
pub const PLAYER_FRAME_COUNT: usize = 6;

/// Column at which a new game places the player.
pub const PLAYER_START_X: i32 = 5;

/// Vertical position at which a new game places the player (row 12).
pub const PLAYER_START_Y: i32 = 120;

/// Lowest row a gap may be centred on.
pub const GAP_MIN: i32 = 10;

/// Rows a gap centre stays below this (exclusive upper bound).
pub const GAP_MAX: i32 = SCREEN_HEIGHT - 10;

/// Gap height for a score of zero; each point of score narrows it by one row.
pub const GAP_START_SIZE: i32 = 20;

/// The narrowest gap.
pub const GAP_MIN_SIZE: i32 = 2;

} // verus!
