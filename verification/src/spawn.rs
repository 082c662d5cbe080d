//! Physics configuration chosen for each entity or tile the level loader
//! spawns. The level editor hands every spawned entity an identifier string
//! and every tile an integer grid value; these functions decide, from that
//! alone, which collider, body and sensor the entity gets. The host engine
//! then builds its own physics objects from the returned plain values.

use vstd::prelude::*;

verus! {

/// Half-extents of an axis-aligned box collider, in whole pixels.
#[derive(Copy, Clone, Eq, PartialEq, Debug)]
pub struct CuboidDims {
    pub half_width: u32,
    pub half_height: u32,
}

/// The collider shape an entity is given, if any beyond the engine default.
#[derive(Copy, Clone, Eq, PartialEq, Debug)]
pub enum ShapeConfig {
    /// Leave the engine's default collider in place.
    EngineDefault,
    /// An axis-aligned box with the given half-extents.
    Cuboid(CuboidDims),
}

/// How the physics engine should move the body.
#[derive(Copy, Clone, Eq, PartialEq, Debug)]
pub enum BodyKind {
    /// Fully simulated: pushed by gravity and contacts.
    Dynamic,
    /// Moved only by the velocity the game sets on it.
    KinematicVelocityBased,
}

/// The physics setup of a solid (non-sensor) entity.
#[derive(Copy, Clone, Eq, PartialEq, Debug)]
pub struct ColliderConfig {
    pub shape: ShapeConfig,
    pub body: BodyKind,
    /// Zero friction, combined with the surface by taking the minimum.
    pub frictionless: bool,
    /// Rotation is locked so the body never tips over.
    pub rotation_locked: bool,
}

/// The setup of an intersection sensor (no contact forces).
#[derive(Copy, Clone, Eq, PartialEq, Debug)]
pub struct SensorConfig {
    pub shape: ShapeConfig,
    /// Whether the engine should report collision events for the sensor.
    pub collision_events: bool,
    pub rotation_locked: bool,
}

/// The player: a dynamic, frictionless, rotation-locked box of 6 x 14
/// half-extent pixels.
pub open spec fn player_collider_config() -> ColliderConfig {
    ColliderConfig {
        shape: ShapeConfig::Cuboid(CuboidDims { half_width: 6, half_height: 14 }),
        body: BodyKind::Dynamic,
        frictionless: true,
        rotation_locked: true,
    }
}

/// An enemy: a velocity-driven, rotation-locked box of 5 x 5 half-extent
/// pixels.
pub open spec fn enemy_collider_config() -> ColliderConfig {
    ColliderConfig {
        shape: ShapeConfig::Cuboid(CuboidDims { half_width: 5, half_height: 5 }),
        body: BodyKind::KinematicVelocityBased,
        frictionless: false,
        rotation_locked: true,
    }
}

/// Anything unrecognized keeps the engine defaults throughout.
pub open spec fn default_collider_config() -> ColliderConfig {
    ColliderConfig {
        shape: ShapeConfig::EngineDefault,
        body: BodyKind::Dynamic,
        frictionless: false,
        rotation_locked: false,
    }
}

/// The collider an entity gets, decided by its identifier in the level file.
pub open spec fn spec_collider_config(identifier: Seq<char>) -> ColliderConfig {
    if identifier == "Player"@ {
        player_collider_config()
    } else if identifier == "Enemy"@ {
        enemy_collider_config()
    } else {
        default_collider_config()
    }
}

/// Decide the physics setup of an entity spawned by the level loader.
pub fn collider_config(identifier: &String) -> (c: ColliderConfig)
    ensures
        c == spec_collider_config(identifier@),
{
    let player: String = "Player".to_owned();
    let enemy: String = "Enemy".to_owned();
    if *identifier == player {
        ColliderConfig {
            shape: ShapeConfig::Cuboid(CuboidDims { half_width: 6, half_height: 14 }),
            body: BodyKind::Dynamic,
            frictionless: true,
            rotation_locked: true,
        }
    } else if *identifier == enemy {
        ColliderConfig {
            shape: ShapeConfig::Cuboid(CuboidDims { half_width: 5, half_height: 5 }),
            body: BodyKind::KinematicVelocityBased,
            frictionless: false,
            rotation_locked: true,
        }
    } else {
        ColliderConfig {
            shape: ShapeConfig::EngineDefault,
            body: BodyKind::Dynamic,
            frictionless: false,
            rotation_locked: false,
        }
    }
}

/// A sensor that reports nothing: the engine defaults.
pub open spec fn default_sensor_config() -> SensorConfig {
    SensorConfig {
        shape: ShapeConfig::EngineDefault,
        collision_events: false,
        rotation_locked: false,
    }
}

/// A ladder tile: an 8 x 8 half-extent sensor that reports collision events.
pub open spec fn ladder_sensor_config() -> SensorConfig {
    SensorConfig {
        shape: ShapeConfig::Cuboid(CuboidDims { half_width: 8, half_height: 8 }),
        collision_events: true,
        rotation_locked: true,
    }
}

/// The sensor a tile gets, decided by its integer grid value. Value 2 marks
/// a ladder; every other value gets no sensor.
pub open spec fn spec_sensor_config_for_cell(cell_value: int) -> SensorConfig {
    if cell_value == 2 {
        ladder_sensor_config()
    } else {
        default_sensor_config()
    }
}

/// Decide the sensor setup of a tile from its integer grid value.
pub fn sensor_config_for_cell(cell_value: i32) -> (s: SensorConfig)
    ensures
        s == spec_sensor_config_for_cell(cell_value as int),
{
    if cell_value == 2 {
        SensorConfig {
            shape: ShapeConfig::Cuboid(CuboidDims { half_width: 8, half_height: 8 }),
            collision_events: true,
            rotation_locked: true,
        }
    } else {
        SensorConfig {
            shape: ShapeConfig::EngineDefault,
            collision_events: false,
            rotation_locked: false,
        }
    }
}

/// The attack area: a 6 x 14 half-extent sensor that reports collision
/// events, matching the player's own collider.
pub open spec fn attack_area_sensor_config() -> SensorConfig {
    SensorConfig {
        shape: ShapeConfig::Cuboid(CuboidDims { half_width: 6, half_height: 14 }),
        collision_events: true,
        rotation_locked: true,
    }
}

/// The sensor an entity gets, decided by its identifier in the level file.
pub open spec fn spec_sensor_config_for_entity(identifier: Seq<char>) -> SensorConfig {
    if identifier == "AttackArea"@ {
        attack_area_sensor_config()
    } else {
        default_sensor_config()
    }
}

/// Decide the sensor setup of an entity spawned by the level loader.
pub fn sensor_config_for_entity(identifier: &String) -> (s: SensorConfig)
    ensures
        s == spec_sensor_config_for_entity(identifier@),
{
    let attack_area: String = "AttackArea".to_owned();
    if *identifier == attack_area {
        SensorConfig {
            shape: ShapeConfig::Cuboid(CuboidDims { half_width: 6, half_height: 14 }),
            collision_events: true,
            rotation_locked: true,
        }
    } else {
        SensorConfig {
            shape: ShapeConfig::EngineDefault,
            collision_events: false,
            rotation_locked: false,
        }
    }
}

} // verus!
