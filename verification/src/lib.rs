//! Simulation core of a top-down action game: facing derivation, health and
//! damage resolution with critical hits, experience and leveling, player and
//! enemy state machines, and projectile lifecycle.
//!
//! All world quantities (coordinates, health, damage, energy, experience) are
//! held in thousandths of their display unit, so that every rule of the
//! simulation is exact integer arithmetic.

use vstd::prelude::*;

pub mod abilities;
pub mod damage;
pub mod enemy;
pub mod entities;
pub mod exp;
pub mod geometry;
pub mod player;
pub mod world;

verus! {

/// Width of one spatial tile, in milli-pixels.
pub const TILE_SIZE: i64 = 64_000;

} // verus!
