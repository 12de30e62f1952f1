//! Verified core of a 2D game simulation layer.

pub mod broad_phase;
pub mod collision_map;
pub mod color;
pub mod commands;
pub mod entity;
pub mod errors;
pub mod physics;
pub mod resolve;
pub mod sorts;
pub mod tile_walk;
pub mod types;
pub mod world;
