//! Collision detection and combat resolution engine for a local multiplayer
//! arena shooter.
//!
//! Every simulation step the engine determines which movable shapes overlap,
//! classifies the side of contact, and applies type-specific combat effects
//! (damage, status effects, reflection, area damage) together with the
//! per-actor state machine (health, invulnerability, stun, blocked movement)
//! and its cooldown-timer lifecycle.
//!
//! All coordinates are fixed-point integers: hundredths of one world unit.
//! All durations are milliseconds of elapsed real time.
//!
//! The `geometry` module holds the overlap test with side classification;
//! `game_utils` and `game_objects` the data model; `collision` the four
//! overlap passes of a simulation step together with the per-hit state
//! transitions; and `engine` the step state, projectile kinematics, the
//! cooldown-timer registry and the remaining per-frame systems.

pub mod game_objects;
pub mod game_utils;
pub mod collision;
pub mod engine;
pub mod geometry;
mod rng;

use vstd::prelude::*;

verus! {

/// Largest magnitude a fixed-point coordinate may take.
pub const COORD_LIMIT: i64 = 1_000_000_000;

/// Bound on the coordinates of entities that are inflated for contact
/// queries or advanced by a tick, leaving room below `COORD_LIMIT`.
pub const PLAY_LIMIT: i64 = 999_000_000;

/// Wall-contact queries inflate the actor rectangle by this margin on every
/// side (1.15 world units), so blocking is detected slightly before visual
/// overlap.
pub const WALL_CONTACT_MARGIN: i64 = 115;

/// Half of an actor's square side (actors are 50 units wide).
pub const PLAYER_HALF: i64 = 2500;

/// An actor's full square side, in fixed-point units.
pub const PLAYER_SIZE: i64 = 5000;

/// Base movement speed of an actor (2.5 units per tick).
pub const PLAYER_SPEED: i64 = 250;

/// Half of a projectile's square side (projectiles are 30 units wide).
pub const BULLET_HALF: i64 = 1500;

/// Half of a power-up pickup's square side (pickups are 40 units wide).
pub const POWERUP_HALF: i64 = 2000;

/// A projectile spawns offset from the firing actor's center by this much
/// along each non-neutral facing axis (41 units).
pub const BULLET_SPAWN_OFFSET: i64 = 4100;

/// Arena edges: the inner faces of the four boundary walls.
pub const WALL_LEFT: i64 = -80000;

pub const WALL_RIGHT: i64 = 80000;

pub const WALL_BOTTOM: i64 = -50000;

pub const WALL_TOP: i64 = 50000;

/// Power-up placement keeps this distance from the arena edges (15 units).
pub const POWERUP_PLACE_MARGIN: i64 = 1500;

pub const POWERUP_MIN_X: i64 = WALL_LEFT + POWERUP_PLACE_MARGIN;

pub const POWERUP_MAX_X: i64 = WALL_RIGHT - POWERUP_PLACE_MARGIN;

pub const POWERUP_MIN_Y: i64 = WALL_BOTTOM + POWERUP_PLACE_MARGIN;

pub const POWERUP_MAX_Y: i64 = WALL_TOP - POWERUP_PLACE_MARGIN;

/// Rejection sampling for power-up placement gives up after this many draws
/// and falls back to a default safe location instead of looping forever.
pub const MAX_PLACEMENT_ATTEMPTS: u32 = 100;

/// Duration of the invulnerability window armed by a non-lethal damaging hit.
pub const INVULNERABLE_MS: u64 = 2000;

/// Duration of the stun window armed by an Ice hit.
pub const STUN_MS: u64 = 2000;

/// Duration of the fire-rate window armed by a normal shot.
pub const SHOOT_COOLDOWN_MS: u64 = 200;

/// Period of the invulnerability blink toggle.
pub const BLINK_MS: u64 = 200;

/// Length of one animation frame of an area effect.
pub const EXPLOSION_FRAME_MS: u64 = 50;

/// Number of animation frames an area effect lives beyond its first.
pub const EXPLOSION_FRAMES: u32 = 2;

/// Half-extent of the square damage zone of an area effect (50 units).
pub const EXPLOSION_RADIUS: i64 = 5000;

/// Health every actor starts with.
pub const INITIAL_LIFES: u32 = 3;

/// Wall contacts a Bouncy projectile survives before it is destroyed.
pub const BOUNCE_BUDGET: u32 = 4;

/// Per-tick speeds of the four projectile types.
pub const NORMAL_BULLET_SPEED: i64 = 1000;

pub const ICE_BULLET_SPEED: i64 = 2000;

pub const EXPLOSIVE_BULLET_SPEED: i64 = 600;

pub const BOUNCY_BULLET_SPEED: i64 = 1500;

/// Largest per-tick speed any projectile may carry, used to bound kinematics.
pub const MAX_BULLET_SPEED: i64 = 10000;

} // verus!
