use birb::birb::ANGLE_UNIT;
use birb::frame::{frame, FrameInput, FrameReport};
use birb::physics::{Vec3, Velocity, POSITION_UNIT};
use birb::pipes::{Pipe, PipePosition, PipeSpawnConfig, SpawnTimer, PIPE_SPACING};
use birb::world::{setup, Entity, Game, Transform, Window, World, CAMERA_DEPTH};

const U: i64 = POSITION_UNIT;

fn session() -> (World, Game, PipeSpawnConfig) {
    let mut world = World::new();
    let mut game = Game::default();
    setup(&mut world, &mut game);
    (world, game, PipeSpawnConfig::default())
}

fn input(dt: u32, jump: bool) -> FrameInput {
    FrameInput { dt, jump, window: Some(Window { width: 1280 * U, height: 800 * U }) }
}

#[test]
fn a_frame_without_input_lets_the_character_fall() {
    let (mut world, game, mut config) = session();
    let report = frame(&mut world, &game, &mut config, input(16_667, false));
    assert_eq!(report, FrameReport { accelerated: true, moved: true, spawned: false });
    let birb = world.get(1).unwrap();
    assert_eq!(birb.velocity, Some(Velocity(Vec3::new(300_000_000, -15_000_300, 0))));
    assert_eq!(
        birb.transform,
        Some(Transform {
            translation: Vec3::new(5_000_100_000_000, -250_010_000_100, 0),
            rotation: -115_000_300,
        })
    );
    assert_eq!(
        world.get(0).unwrap().transform,
        Some(Transform { translation: Vec3::new(5_000_100_000_000, 0, CAMERA_DEPTH), rotation: 0 })
    );
    assert_eq!(config.timer, SpawnTimer { elapsed: 16_667, just_finished: false });
    assert_eq!(world.len(), 2);
}

#[test]
fn a_jump_is_integrated_in_its_own_frame() {
    let (mut world, game, mut config) = session();
    frame(&mut world, &game, &mut config, input(1_000_000, false));
    let report = frame(&mut world, &game, &mut config, input(10_000, true));
    assert_eq!(report, FrameReport { accelerated: true, moved: true, spawned: false });
    let birb = world.get(1).unwrap();
    assert_eq!(birb.velocity, Some(Velocity(Vec3::new(300_000_000, 391_000_000, 0))));
    let t = birb.transform.unwrap();
    assert_eq!(t.translation.y, -900_000_000 * 1_000_000 + 391_000_000 * 10_000);
    assert_eq!(t.translation.x, 300_000_000 * 1_010_000);
    assert_eq!(t.rotation, 29 * ANGLE_UNIT + ANGLE_UNIT / 10);
}

#[test]
fn a_frame_of_no_time_moves_nothing() {
    let (mut world, game, mut config) = session();
    let before = world.clone();
    let report = frame(&mut world, &game, &mut config, input(0, false));
    assert_eq!(report, FrameReport { accelerated: true, moved: true, spawned: false });
    let mut tilted = before.get(1).unwrap();
    tilted.transform = Some(Transform { translation: Vec3::new(0, 0, 0), rotation: -10 * ANGLE_UNIT });
    assert_eq!(world.get(0), before.get(0));
    assert_eq!(world.get(1), Some(tilted));
}

#[test]
fn a_pair_appears_when_the_timer_finishes() {
    let (mut world, game, mut config) = session();
    let mut spawned_in = Vec::new();
    for n in 0..200 {
        let report = frame(&mut world, &game, &mut config, input(16_000, n % 50 == 0));
        assert!(report.accelerated && report.moved);
        if report.spawned {
            spawned_in.push(n);
        }
    }
    assert_eq!(spawned_in, vec![99, 199]);
    assert_eq!(world.len(), 6);
    let camera_x_at_first = 300_000_000 * 16_000 * 100;
    let top = world.get(2).unwrap();
    let bottom = world.get(3).unwrap();
    assert_eq!(top.pipe, Some(Pipe::new(PipePosition::Top)));
    assert_eq!(bottom.pipe, Some(Pipe::new(PipePosition::Bottom)));
    assert_eq!(top.transform.unwrap().translation.x, camera_x_at_first + 690 * U);
    assert_eq!(top.size.unwrap().height + bottom.size.unwrap().height + PIPE_SPACING, 800 * U);
}

#[test]
fn obstacles_behind_the_camera_are_removed_by_the_frame() {
    let (mut world, game, mut config) = session();
    let pipe = |x: i64| Entity {
        transform: Some(Transform { translation: Vec3::new(x, 0, 0), rotation: 0 }),
        pipe: Some(Pipe::new(PipePosition::Bottom)),
        ..Entity::empty()
    };
    let camera_x_after = 300_000_000 * 10_000;
    let stays = world.spawn(pipe(camera_x_after - 690 * U));
    let leaves = world.spawn(pipe(camera_x_after - 690 * U - 1));
    frame(&mut world, &game, &mut config, input(10_000, false));
    assert_eq!(world.get(stays), Some(pipe(camera_x_after - 690 * U)));
    assert_eq!(world.get(leaves), None);
    assert_eq!(world.len(), 4);
}

#[test]
fn a_frame_without_window_spawns_and_removes_nothing() {
    let (mut world, game, mut config) = session();
    let far_left = world.spawn(Entity {
        transform: Some(Transform { translation: Vec3::new(-100_000 * U, 0, 0), rotation: 0 }),
        pipe: Some(Pipe::new(PipePosition::Top)),
        ..Entity::empty()
    });
    let report =
        frame(&mut world, &game, &mut config, FrameInput { dt: 1_600_000, jump: false, window: None });
    assert_eq!(report, FrameReport { accelerated: true, moved: true, spawned: false });
    assert!(config.timer.just_finished);
    assert!(world.get(far_left).is_some());
    assert_eq!(world.len(), 3);
}

#[test]
fn a_step_that_cannot_be_taken_is_reported() {
    let (mut world, game, mut config) = session();
    let mut birb = world.get(1).unwrap();
    birb.transform = Some(Transform { translation: Vec3::new(i64::MAX, 0, 0), rotation: 0 });
    world.despawn(1);
    let id = world.spawn(birb);
    let report = frame(&mut world, &game, &mut config, input(1_000, false));
    assert_eq!(report, FrameReport { accelerated: true, moved: false, spawned: false });
    let after = world.get(id).unwrap();
    assert_eq!(after.velocity, Some(Velocity(Vec3::new(300_000_000, -900_000, 0))));
    assert_eq!(after.transform.unwrap().translation, Vec3::new(i64::MAX, 0, 0));
}
