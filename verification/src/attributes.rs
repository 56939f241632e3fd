//! The attribute records that are attached to the entities of a game beside
//! a formation. They are plain data: the simulation that owns the entities
//! reads and writes them. Lengths are in grid steps, as everywhere.

use vstd::prelude::*;
use vstd::std_specs::convert::FromSpecImpl;

verus! {

/// Velocity of an entity, in grid steps per second along each axis.
#[derive(Clone, Copy, Debug, PartialEq, Eq)]
pub struct Velocity {
    pub x: i64,
    pub y: i64,
}

/// Marks an entity that moves by its velocity.
#[derive(Clone, Copy, Debug, PartialEq, Eq)]
pub struct Movable {
    /// Whether the entity is removed once it has left the viewport.
    pub auto_despawn: bool,
}

/// Marks a projectile.
#[derive(Clone, Copy, Debug, PartialEq, Eq)]
pub struct Laser;

/// Extent of an entity's sprite along each axis.
#[derive(Clone, Copy, Debug, PartialEq, Eq)]
pub struct SpriteSize(pub (i64, i64));

impl From<(i64, i64)> for SpriteSize {
    /// The size with the given width and height.
    fn from(val: (i64, i64)) -> (size: Self) {
        SpriteSize(val)
    }
}

impl FromSpecImpl<(i64, i64)> for SpriteSize {
    open spec fn obeys_from_spec() -> bool {
        true
    }

    open spec fn from_spec(val: (i64, i64)) -> Self {
        SpriteSize(val)
    }
}

/// Marks the player's ship.
#[derive(Clone, Copy, Debug, PartialEq, Eq)]
pub struct Player;

/// Marks a projectile fired by the player.
#[derive(Clone, Copy, Debug, PartialEq, Eq)]
pub struct FromPlayer;

/// Marks an enemy unit.
#[derive(Clone, Copy, Debug, PartialEq, Eq)]
pub struct Enemy;

/// Marks a projectile fired by an enemy.
#[derive(Clone, Copy, Debug, PartialEq, Eq)]
pub struct FromEnemy;

/// Marks a running explosion.
#[derive(Clone, Copy, Debug, PartialEq, Eq)]
pub struct Explosion;

/// A place at which an explosion is to be started.
#[derive(Clone, Copy, Debug, PartialEq, Eq)]
pub struct ExplosionToSpawn(pub (i64, i64, i64));

/// Time between two frames of an explosion, in milliseconds.
pub const EXPLOSION_FRAME_MILLIS: u32 = 50;

/// The countdown that paces the frames of an explosion.
#[derive(Clone, Copy, Debug, PartialEq, Eq)]
pub struct ExplosionTimer {
    /// Time from the start of a countdown to its end, in milliseconds.
    pub period_millis: u32,
    /// Whether the countdown starts again each time it ends.
    pub repeating: bool,
}

impl Default for ExplosionTimer {
    /// A countdown of one frame's time that repeats until it is removed.
    fn default() -> (timer: Self)
        ensures
            timer.period_millis == EXPLOSION_FRAME_MILLIS,
            timer.repeating,
    {
        ExplosionTimer { period_millis: EXPLOSION_FRAME_MILLIS, repeating: true }
    }
}

} // verus!
