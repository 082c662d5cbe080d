use platformer::spawn::{
    collider_config, sensor_config_for_cell, sensor_config_for_entity, BodyKind, ColliderConfig,
    CuboidDims, SensorConfig, ShapeConfig,
};

#[test]
fn player_collider() {
    let c = collider_config(&String::from("Player"));
    assert_eq!(
        c,
        ColliderConfig {
            shape: ShapeConfig::Cuboid(CuboidDims { half_width: 6, half_height: 14 }),
            body: BodyKind::Dynamic,
            frictionless: true,
            rotation_locked: true,
        }
    );
}

#[test]
fn enemy_collider() {
    let c = collider_config(&String::from("Enemy"));
    assert_eq!(
        c,
        ColliderConfig {
            shape: ShapeConfig::Cuboid(CuboidDims { half_width: 5, half_height: 5 }),
            body: BodyKind::KinematicVelocityBased,
            frictionless: false,
            rotation_locked: true,
        }
    );
}

#[test]
fn unrecognized_collider_keeps_engine_defaults() {
    for name in ["Skeleton", "", "player", "Enemy "] {
        let c = collider_config(&String::from(name));
        assert_eq!(
            c,
            ColliderConfig {
                shape: ShapeConfig::EngineDefault,
                body: BodyKind::Dynamic,
                frictionless: false,
                rotation_locked: false,
            }
        );
    }
}

#[test]
fn ladder_cell_gets_sensor() {
    let s = sensor_config_for_cell(2);
    assert_eq!(
        s,
        SensorConfig {
            shape: ShapeConfig::Cuboid(CuboidDims { half_width: 8, half_height: 8 }),
            collision_events: true,
            rotation_locked: true,
        }
    );
}

#[test]
fn other_cells_get_no_sensor() {
    for value in [0, 1, 3, -2, i32::MAX, i32::MIN] {
        let s = sensor_config_for_cell(value);
        assert_eq!(
            s,
            SensorConfig {
                shape: ShapeConfig::EngineDefault,
                collision_events: false,
                rotation_locked: false,
            }
        );
    }
}

#[test]
fn attack_area_sensor() {
    let s = sensor_config_for_entity(&String::from("AttackArea"));
    assert_eq!(
        s,
        SensorConfig {
            shape: ShapeConfig::Cuboid(CuboidDims { half_width: 6, half_height: 14 }),
            collision_events: true,
            rotation_locked: true,
        }
    );
}

#[test]
fn other_entities_get_no_sensor() {
    for name in ["Player", "Enemy", "attackarea", ""] {
        let s = sensor_config_for_entity(&String::from(name));
        assert_eq!(
            s,
            SensorConfig {
                shape: ShapeConfig::EngineDefault,
                collision_events: false,
                rotation_locked: false,
            }
        );
    }
}
