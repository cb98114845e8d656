//! World-scale constants and the shared facing/contact direction type.
//!
//! The fixed-point scale is 60 subunits per world unit; every constant below
//! is already expressed in subunits (per frame, where it is a speed).

use vstd::prelude::*;

verus! {

/// Subunits in one world unit.
pub const SUBUNITS: i64 = 60;

/// Side length of one square tile: 16 world units.
pub const TILE_SIZE: i64 = 960;

/// World width in world units times `SUBUNITS` (211 tiles of 16 units).
pub const MAP_WIDTH: i64 = 202560;

/// Top edge of the tile grid: 14 tiles of 16 units.
pub const MAP_HEIGHT: i64 = 13440;

/// Gravity ramp factor for the player: each airborne frame adds
/// `fall_timer * PLAYER_GRAVITY` subunits of downward pull, up to `GRAVITY_CAP`.
pub const PLAYER_GRAVITY: i64 = 10;

/// Gravity ramp factor for enemies.
pub const ENEMY_GRAVITY: i64 = 5;

/// Largest downward pull a single frame may add: 5 world units.
pub const GRAVITY_CAP: i64 = 300;

/// Airborne-frame count past which ticking the ramp timer changes nothing;
/// both gravity tiers reach `GRAVITY_CAP` well before this.
pub const RAMP_LIMIT: u32 = 3600;

/// Horizontal walk speed of the player: 2 world units per frame.
pub const PLAYER_SPEED: i64 = 120;

/// Horizontal patrol speed of an enemy: 1 world unit per frame.
pub const ENEMY_SPEED: i64 = 60;

/// Length of the jump impulse window in frames.
pub const JUMP_WINDOW: i64 = 10;

/// Subunits added per remaining impulse frame: half a world unit.
pub const JUMP_STEP: i64 = 30;

/// Upward start of the one-shot death-drop effect: 10 world units.
pub const DEATH_POP: i64 = 600;

/// Per-frame decay of the death-drop velocity: half a world unit.
pub const DEATH_DECAY: i64 = 30;

/// Death-drop velocity floor: minus 5 world units.
pub const DEATH_FLOOR: i64 = -300;

/// Per-frame sinking step once the death-drop floor is reached: 5 world units.
pub const DEATH_SINK: i64 = 300;

/// Frames an enemy shows its death pose before it is removed.
pub const ENEMY_DEATH_FRAMES: u32 = 30;

/// A facing or contact side in world space (y grows upward).
#[derive(PartialEq, Eq, Structural, Clone, Copy, Debug)]
pub enum Direction {
    Bottom,
    Top,
    Left,
    Right,
}

} // verus!
