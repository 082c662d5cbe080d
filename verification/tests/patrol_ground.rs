use platformer::components::{update_fall_detection, FallDetection, GroundDetection};
use platformer::ground::{update_on_ground, GroundSensor};
use platformer::patrol::{Patrol, PatrolPoint};

#[test]
fn patrol_route_starts_at_spawn_heading_to_second_point() {
    let spawn = PatrolPoint { x: 0, y: 0 };
    let rest = vec![PatrolPoint { x: 160, y: 0 }, PatrolPoint { x: 320, y: 0 }];
    let p = Patrol::from_points(spawn, rest);
    assert_eq!(
        p.points,
        vec![
            PatrolPoint { x: 0, y: 0 },
            PatrolPoint { x: 160, y: 0 },
            PatrolPoint { x: 320, y: 0 },
        ]
    );
    assert_eq!(p.index, 1);
    assert!(p.forward);
    assert_eq!(p.target(), PatrolPoint { x: 160, y: 0 });
}

#[test]
fn patrol_ping_pongs_over_three_points() {
    let spawn = PatrolPoint { x: 0, y: 0 };
    let rest = vec![PatrolPoint { x: 160, y: 0 }, PatrolPoint { x: 320, y: 0 }];
    let mut p = Patrol::from_points(spawn, rest);
    let expected: [(usize, bool); 6] =
        [(2, true), (1, false), (0, false), (1, true), (2, true), (1, false)];
    for (index, forward) in expected {
        p.advance();
        assert_eq!(p.index, index);
        assert_eq!(p.forward, forward);
    }
    assert_eq!(p.points.len(), 3);
}

#[test]
fn patrol_flips_between_two_points() {
    let spawn = PatrolPoint { x: 5, y: -7 };
    let rest = vec![PatrolPoint { x: 5, y: 9 }];
    let mut p = Patrol::from_points(spawn, rest);
    assert_eq!(p.target(), PatrolPoint { x: 5, y: 9 });
    p.advance();
    assert_eq!((p.index, p.forward), (0, false));
    assert_eq!(p.target(), PatrolPoint { x: 5, y: -7 });
    p.advance();
    assert_eq!((p.index, p.forward), (1, true));
}

#[test]
fn ground_sensor_tracks_intersections() {
    let mut sensor = GroundSensor::new(42);
    assert_eq!(sensor.ground_detection_entity, 42);
    assert!(!sensor.intersects_any());
    sensor.ground_started(7);
    sensor.ground_started(9);
    sensor.ground_started(7);
    assert!(sensor.is_intersecting(7));
    assert!(sensor.is_intersecting(9));
    assert!(!sensor.is_intersecting(8));
    sensor.ground_stopped(7);
    assert!(!sensor.is_intersecting(7));
    assert!(sensor.is_intersecting(9));
    sensor.ground_stopped(9);
    assert!(!sensor.intersects_any());
    assert_eq!(sensor.ground_detection_entity, 42);
}

#[test]
fn duplicate_start_needs_one_stop() {
    let mut sensor = GroundSensor::new(1);
    sensor.ground_started(5);
    sensor.ground_started(5);
    sensor.ground_stopped(5);
    assert!(!sensor.is_intersecting(5));
}

#[test]
fn on_ground_follows_the_sensor() {
    let mut sensor = GroundSensor::new(3);
    let mut detection = GroundDetection { on_ground: false };
    update_on_ground(&mut detection, &sensor);
    assert!(!detection.on_ground);
    sensor.ground_started(11);
    update_on_ground(&mut detection, &sensor);
    assert!(detection.on_ground);
    sensor.ground_stopped(11);
    update_on_ground(&mut detection, &sensor);
    assert!(!detection.on_ground);
}

#[test]
fn falling_means_airborne_and_moving_down() {
    let mut fall = FallDetection { is_falling: false };
    update_fall_detection(&mut fall, false, -30);
    assert!(fall.is_falling);
    update_fall_detection(&mut fall, true, -30);
    assert!(!fall.is_falling);
    update_fall_detection(&mut fall, false, 12);
    assert!(!fall.is_falling);
    update_fall_detection(&mut fall, false, 0);
    assert!(!fall.is_falling);
}
