//! A fixed-timestep, tile-grid-indexed 2D entity simulation.
//!
//! The world advances player, enemy, power-up and block entities once per
//! physics tick, resolves axis-aligned collisions between them, and emits
//! discrete gameplay events that drive removal, transformation, spawning and
//! the game-state machine.
//!
//! All geometry is fixed-point: positions and velocities are measured in
//! subpixels ([`config::SUBPIXEL`] subunits per pixel), and all animation
//! timing in quarter-ticks, so that every physics rule is exact integer
//! arithmetic. Coordinates saturate at [`config::POS_LIMIT`] and velocities
//! at [`config::VEL_LIMIT`], far beyond anything a playable level reaches.
//! Rendering, audio and input polling are external collaborators: the
//! library exposes plain positions, sprite identifiers and events for them.

pub mod config;
pub mod geom;
pub mod entity;
pub mod collision;
pub mod animation;
pub mod lifecycle;
pub mod actors;
pub mod level;
pub mod world;
