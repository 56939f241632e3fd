//! Flight formations for waves of enemy units.
//!
//! A [`FormationMaker`] hands out one [`Formation`] per spawned unit. Units of
//! one wave share a formation; when a wave is full the maker draws the
//! geometry of the next one at random, inside bounds given by the viewport.
//!
//! All lengths are whole numbers of grid steps (see [`grid`]), so every
//! contract in this crate is a statement about integers.

pub mod attributes;
pub mod formation;
pub mod grid;
pub mod maker;
pub mod random;

pub use attributes::{
    Enemy, Explosion, ExplosionTimer, ExplosionToSpawn, FromEnemy, FromPlayer, Laser, Movable,
    Player, SpriteSize, Velocity, EXPLOSION_FRAME_MILLIS,
};
pub use formation::{Draws, Formation, BASE_SPEED, RADIUS_X_MAX, RADIUS_X_MIN, RADIUS_Y};
pub use grid::{steps, WinSize, PIVOT_INSET, SPAWN_MARGIN, STEPS_PER_PIXEL};
pub use maker::{FormationMaker, FORMATION_MEMBERS_MAX};
