//! Global constants of the simulation.
//!
//! All distances are measured in subpixels ([`SUBPIXEL`] subunits per pixel)
//! and all per-tick rates in subpixels per tick, so that the physics is exact
//! integer arithmetic at 60 ticks per second. Animation timing is measured in
//! quarter-ticks ([`TIME_UNITS_PER_TICK`] units per tick).

use vstd::prelude::*;

verus! {

/// Fixed-point scale: subpixels per pixel.
pub const SUBPIXEL: i64 = 120;

/// Side of one grid tile, in pixels.
pub const MARIO_SPRITE_BLOCK_SIZE: usize = 16;

/// Side of one grid tile, in subpixels.
pub const TILE_SUB: i64 = 1920;

/// Physics ticks per second.
pub const TICKS_PER_SECOND: i64 = 60;

/// Downward acceleration of 16 pixels per second, as subpixels per tick.
pub const GRAVITY_PER_TICK: i64 = 32;

/// Horizontal friction while airborne: 1 pixel per second, as subpixels per tick.
pub const FRICTION_AIR_PER_TICK: i64 = 2;

/// Horizontal friction while grounded: 2 pixels per second, as subpixels per tick.
pub const FRICTION_GROUND_PER_TICK: i64 = 4;

/// The player's horizontal speed cap: 2.8 pixels per tick, in subpixels.
pub const MAX_VELOCITY_X: i64 = 336;

/// Horizontal impulse per tick of held input: 3 pixels per second, as subpixels per tick.
pub const ACCELERATION_PER_TICK: i64 = 6;

/// Upward boost per tick of held jump: 12 pixels per second, as subpixels per tick.
pub const JUMP_BOOST_PER_TICK: i64 = 24;

/// Initial upward speed of a jump: 3 pixels per tick, in subpixels.
pub const JUMP_VELOCITY: i64 = 360;

/// Upward speed given to the player after stomping an enemy: 3 pixels per tick.
pub const STOMP_BOUNCE_VELOCITY: i64 = 360;

/// Walking speed of a goomba and of a loose power-up: 1 pixel per tick.
pub const WALK_SPEED: i64 = 120;

/// A goomba's nominal top speed, used to scale its walk animation: 2 pixels per tick.
pub const GOOMBA_MAX_SPEED: i64 = 240;

/// How long the world stays frozen after the player is hit: 2 seconds of ticks.
pub const FROZEN_TICKS: u32 = 120;

/// Animation time units per physics tick (quarter-ticks).
pub const TIME_UNITS_PER_TICK: i64 = 4;

/// Base duration of one animation frame at speed factor 1: 5 ticks, in quarter-ticks.
pub const ANIM_FRAME_UNITS: i64 = 20;

/// Duration of the player's growth overlay: half a second, in quarter-ticks.
pub const GROWTH_OVERLAY_UNITS: i64 = 120;

/// Minimum horizontal speed at which an entity counts as running, not idle.
pub const RUN_ANIM_MIN_SPEED: i64 = 12;

/// Minimum horizontal speed at which an airborne player shows the running jump.
pub const RUN_JUMP_MIN_SPEED: i64 = 300;

/// Saturation bound for coordinates, in subpixels.
pub const POS_LIMIT: i64 = 0x100_0000_0000;

/// Saturation bound for velocities, in subpixels per tick.
pub const VEL_LIMIT: i64 = 0x4000_0000;

/// Largest width or height of a well-formed entity, in pixels.
pub const DIM_LIMIT: usize = 0x10_0000;

/// Largest pixel coordinate a constructor accepts.
pub const MAX_PX: usize = 0x4000_0000;

/// Saturation bound for the elapsed-time counter of an animation.
pub const TIME_LIMIT: i64 = 0x40_0000_0000;

/// Largest denominator accepted for an animation speed factor.
pub const SPEED_DEN_LIMIT: i64 = 0x1_0000_0000;

/// Sprite shown by a power-up block after it has been used up.
pub const SPRITE_PLAIN_BLOCK: u32 = 10;

/// Sprite of the player standing still.
pub const SPRITE_MARIO_STAND: u32 = 256;
/// First frame of the player's running cycle.
pub const SPRITE_MARIO_RUN1: u32 = 257;
/// Second frame of the player's running cycle.
pub const SPRITE_MARIO_RUN2: u32 = 258;
/// Sprite of the player jumping in place.
pub const SPRITE_MARIO_JUMP: u32 = 259;
/// Sprite of the player turning against its motion.
pub const SPRITE_MARIO_TURN: u32 = 260;
/// Sprite of the player jumping with horizontal momentum.
pub const SPRITE_MARIO_JUMP_RUN: u32 = 261;

/// First frame of a goomba's walking cycle.
pub const SPRITE_GOOMBA_1: u32 = 272;
/// Second frame of a goomba's walking cycle.
pub const SPRITE_GOOMBA_2: u32 = 273;
/// Third frame of a goomba's walking cycle.
pub const SPRITE_GOOMBA_3: u32 = 274;

/// Sprite of a loose power-up mushroom.
pub const SPRITE_MUSHROOM: u32 = 280;

/// Width of the whole level, in pixels.
pub const WORLD_WIDTH: usize = 3392;

/// Height of the whole level, in pixels.
pub const WORLD_HEIGHT: usize = 224;

/// Width of the camera's view, in pixels.
pub const CAMERA_WIDTH: usize = 600;

/// The player's starting position, in pixels.
pub const PLAYER_START_X: usize = 48;
/// The player's starting position, in pixels.
pub const PLAYER_START_Y: usize = 176;

/// A world's extent, in pixels.
pub struct WorldDimensions {
    pub width: usize,
    pub height: usize,
}

/// The extent of the standard level, in pixels.
pub fn mario_world_size() -> (d: WorldDimensions)
    ensures
        d.width == WORLD_WIDTH,
        d.height == WORLD_HEIGHT,
{
    WorldDimensions { width: WORLD_WIDTH, height: WORLD_HEIGHT }
}

} // verus!
