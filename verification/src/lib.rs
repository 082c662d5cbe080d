//! Core gameplay logic for a small 2D platformer: spawn configuration
//! chosen from level-editor data, walking between speed thresholds, patrol
//! waypoint cycling, ground-sensor bookkeeping, level selection by world
//! bounds, and damage events.
//!
//! The engine (rendering, physics simulation, asset loading) lives outside
//! this crate; everything here works on plain values and is verified.

pub mod components;
pub mod damage;
pub mod ground;
pub mod items;
pub mod level;
pub mod movement;
pub mod patrol;
pub mod spawn;
