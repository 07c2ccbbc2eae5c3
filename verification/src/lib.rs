//! Simulation substrate for a terminal-rendered, tile-based world: terrain
//! synthesis over fixed-point noise samples, a scrollable viewport, player
//! movement gated by terrain passability, a time-expiring entity registry,
//! and the decision logic of the control/render loops.

pub mod ecs_entities;
pub mod ecs_systems;
pub mod flock;
pub mod orchestrator;
pub mod player;
pub mod tile;

pub use tile::TileStyle;
