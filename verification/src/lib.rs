//! Grid-based dungeon crawler simulation: a tile map, cardinal movement
//! math, and a fixed-order pipeline of systems over an entity world.

pub mod components;
pub mod controller;
pub mod events;
pub mod fixed;
pub mod map;
pub mod movement;
pub mod scene;
pub mod systems;
pub mod vector;
pub mod violation;
pub mod world;

use vstd::prelude::*;

verus! {

/// World units that one cell of the grid spans.
pub const TILE_SIZE: i64 = 65536;

} // verus!
