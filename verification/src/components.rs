//! Marker components and small state components attached to game entities.

use vstd::prelude::*;

verus! {

/// Marker for the player character.
#[derive(Copy, Clone, Eq, PartialEq, Debug, Default)]
pub struct Player;

/// Marker for a solid wall tile.
#[derive(Copy, Clone, Eq, PartialEq, Debug, Default)]
pub struct Wall;

/// Marker for a patrolling enemy.
#[derive(Copy, Clone, Eq, PartialEq, Debug, Default)]
pub struct Enemy;

/// Whether the entity currently stands on ground.
#[derive(Clone, Debug, Default)]
pub struct GroundDetection {
    pub on_ground: bool,
}

/// Whether the entity is currently falling.
#[derive(Clone, Debug, Default)]
pub struct FallDetection {
    pub is_falling: bool,
}

/// A body is falling when it is airborne and its vertical velocity points
/// downward. Velocities are in fixed-point sub-pixel units per frame.
pub fn update_fall_detection(fall: &mut FallDetection, on_ground: bool, vertical_velocity: i64)
    ensures
        final(fall).is_falling == (!on_ground && vertical_velocity < 0),
{
    fall.is_falling = !on_ground && vertical_velocity < 0;
}

} // verus!
