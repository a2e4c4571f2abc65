use birb::physics::{
    apply_gravity, calculate_position_from_velocity, gravity_system, integrate, Acceleration,
    Vec3, Velocity, GRAVITY_FACTOR, POSITION_UNIT, VELOCITY_UNIT,
};
use birb::world::{Entity, Transform, World};

fn falling(vy: i64) -> Entity {
    Entity {
        transform: Some(Transform { translation: Vec3::new(0, 0, 0), rotation: 0 }),
        velocity: Some(Velocity(Vec3::new(300 * VELOCITY_UNIT, vy, 0))),
        acceleration: Some(Acceleration(Vec3::new(0, -300, 0))),
        ..Entity::empty()
    }
}

#[test]
fn units_are_powers_of_a_million() {
    assert_eq!(VELOCITY_UNIT, 1_000_000);
    assert_eq!(POSITION_UNIT, VELOCITY_UNIT * 1_000_000);
    assert_eq!(GRAVITY_FACTOR, 3);
}

#[test]
fn gravity_adds_three_times_acceleration_times_dt() {
    let v = Velocity(Vec3::new(300_000_000, 0, 0));
    let a = Acceleration(Vec3::new(0, -300, 0));
    assert_eq!(apply_gravity(v, a, 16_667), Some(Velocity(Vec3::new(300_000_000, -15_000_300, 0))));
}

#[test]
fn gravity_acts_on_every_component() {
    let v = Velocity(Vec3::new(1, 2, 3));
    let a = Acceleration(Vec3::new(10, -20, 30));
    assert_eq!(apply_gravity(v, a, 1_000_000), Some(Velocity(Vec3::new(30_000_001, -59_999_998, 90_000_003))));
}

#[test]
fn gravity_over_no_time_changes_nothing() {
    let v = Velocity(Vec3::new(7, -8, 9));
    let a = Acceleration(Vec3::new(0, -300, 0));
    assert_eq!(apply_gravity(v, a, 0), Some(v));
}

#[test]
fn downward_velocity_grows_with_the_time_step() {
    let v = Velocity(Vec3::new(0, 400 * VELOCITY_UNIT, 0));
    let a = Acceleration(Vec3::new(0, -300, 0));
    let mut last = v.0.y;
    for dt in [1u32, 10, 1_000, 16_667, 1_000_000, u32::MAX] {
        let next = apply_gravity(v, a, dt).unwrap().0.y;
        assert!(next < last);
        last = next;
    }
    assert_eq!(last, 400_000_000 - 300 * 3 * (u32::MAX as i64));
}

#[test]
fn gravity_that_leaves_the_range_is_refused() {
    let a = Acceleration(Vec3::new(0, -300, 0));
    assert_eq!(apply_gravity(Velocity(Vec3::new(0, i64::MIN + 899, 0)), a, 1), None);
    assert_eq!(
        apply_gravity(Velocity(Vec3::new(0, i64::MIN + 900, 0)), a, 1),
        Some(Velocity(Vec3::new(0, i64::MIN, 0)))
    );
    let up = Acceleration(Vec3::new(i64::MAX, 0, 0));
    assert_eq!(apply_gravity(Velocity(Vec3::new(0, 0, 0)), up, u32::MAX), None);
}

#[test]
fn integrate_adds_velocity_times_dt() {
    let p = Vec3::new(0, 0, 0);
    let v = Velocity(Vec3::new(300_000_000, -15_000_300, 0));
    assert_eq!(integrate(p, v, 16_667), Some(Vec3::new(5_000_100_000_000, -250_010_000_100, 0)));
}

#[test]
fn integrate_takes_each_axis_alone() {
    let p = Vec3::new(10, 20, 30);
    let v = Velocity(Vec3::new(1, -2, 3));
    assert_eq!(integrate(p, v, 5), Some(Vec3::new(15, 10, 45)));
}

#[test]
fn integrate_over_no_time_is_the_identity() {
    for p in [Vec3::new(0, 0, 0), Vec3::new(i64::MAX, i64::MIN, -1)] {
        let v = Velocity(Vec3::new(i64::MAX, i64::MIN, 12345));
        assert_eq!(integrate(p, v, 0), Some(p));
    }
}

#[test]
fn integrate_that_leaves_the_range_is_refused() {
    let v = Velocity(Vec3::new(1, 0, 0));
    assert_eq!(integrate(Vec3::new(i64::MAX - 4, 0, 0), v, 5), None);
    assert_eq!(integrate(Vec3::new(i64::MAX - 5, 0, 0), v, 5), Some(Vec3::new(i64::MAX, 0, 0)));
    let w = Velocity(Vec3::new(0, 0, i64::MIN));
    assert_eq!(integrate(Vec3::new(0, 0, 0), w, 2), None);
}

#[test]
fn gravity_system_steps_entities_with_velocity_and_acceleration() {
    let mut world = World::new();
    let body = world.spawn(falling(0));
    let still = world.spawn(Entity {
        velocity: Some(Velocity(Vec3::new(1, 1, 1))),
        ..Entity::empty()
    });
    let gone = world.spawn(falling(5));
    world.despawn(gone);
    assert!(gravity_system(&mut world, 1_000_000));
    assert_eq!(world.get(body).unwrap().velocity, Some(Velocity(Vec3::new(300_000_000, -900_000_000, 0))));
    assert_eq!(world.get(body).unwrap().transform, falling(0).transform);
    assert_eq!(world.get(still).unwrap().velocity, Some(Velocity(Vec3::new(1, 1, 1))));
    assert_eq!(world.get(gone), None);
    assert_eq!(world.len(), 3);
}

#[test]
fn gravity_system_steps_each_entity_whose_own_step_fits() {
    let mut world = World::new();
    let fits = world.spawn(falling(0));
    let refused = world.spawn(falling(i64::MIN));
    let also_fits = world.spawn(falling(7));
    assert!(!gravity_system(&mut world, 1));
    assert_eq!(world.get(fits).unwrap().velocity, Some(Velocity(Vec3::new(300_000_000, -900, 0))));
    assert_eq!(world.get(refused), Some(falling(i64::MIN)));
    assert_eq!(world.get(also_fits).unwrap().velocity, Some(Velocity(Vec3::new(300_000_000, -893, 0))));
    assert_eq!(world.len(), 3);
}

#[test]
fn gravity_system_without_entities_applies() {
    let mut world = World::new();
    assert!(gravity_system(&mut world, u32::MAX));
    assert_eq!(world, World::new());
}

#[test]
fn position_system_moves_entities_with_transform_and_velocity() {
    let mut world = World::new();
    let body = world.spawn(falling(-15_000_300));
    let fixed = world.spawn(Entity {
        transform: Some(Transform { translation: Vec3::new(4, 5, 6), rotation: 7 }),
        ..Entity::empty()
    });
    assert!(calculate_position_from_velocity(&mut world, 16_667));
    assert_eq!(
        world.get(body).unwrap().transform,
        Some(Transform { translation: Vec3::new(5_000_100_000_000, -250_010_000_100, 0), rotation: 0 })
    );
    assert_eq!(world.get(body).unwrap().velocity, falling(-15_000_300).velocity);
    assert_eq!(
        world.get(fixed).unwrap().transform,
        Some(Transform { translation: Vec3::new(4, 5, 6), rotation: 7 })
    );
}

#[test]
fn position_system_moves_each_entity_whose_own_step_fits() {
    let mut world = World::new();
    let fits = world.spawn(falling(-5));
    let stuck = Entity {
        transform: Some(Transform { translation: Vec3::new(i64::MAX, 0, 0), rotation: 0 }),
        velocity: Some(Velocity(Vec3::new(1, 0, 0))),
        ..Entity::empty()
    };
    let refused = world.spawn(stuck);
    assert!(!calculate_position_from_velocity(&mut world, 2));
    assert_eq!(
        world.get(fits).unwrap().transform,
        Some(Transform { translation: Vec3::new(600_000_000, -10, 0), rotation: 0 })
    );
    assert_eq!(world.get(refused), Some(stuck));
    let before = world.clone();
    assert!(calculate_position_from_velocity(&mut world, 0));
    assert_eq!(world, before);
}
