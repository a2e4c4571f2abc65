//! The entities of a session and what is attached to them.
//!
//! Entities live in numbered slots. A slot's number never changes and is
//! never given to another entity, so a number held elsewhere either finds
//! the entity it was given for or finds nothing.
use vstd::prelude::*;
use crate::birb::Birb;
use crate::physics::{Acceleration, Vec3, Velocity, POSITION_UNIT, VELOCITY_UNIT};
use crate::pipes::Pipe;

verus! {

/// Where an entity is and how far it is tilted about the depth axis.
#[derive(Clone, Copy, Debug, PartialEq, Eq, Structural)]
pub struct Transform {
    /// In position units.
    pub translation: Vec3,
    /// In angle units, counter-clockwise.
    pub rotation: i64,
}

/// A solid axis-aligned box round an entity's position, in position units.
#[derive(Clone, Copy, Debug, PartialEq, Eq, Structural)]
pub struct Collider {
    pub half_width: i64,
    pub half_height: i64,
}

/// Width and height of the rectangle an entity is drawn as, in position
/// units.
#[derive(Clone, Copy, Debug, PartialEq, Eq, Structural)]
pub struct Size {
    pub width: i64,
    pub height: i64,
}

/// The visible area's width and height, in position units.
#[derive(Clone, Copy, Debug, PartialEq, Eq, Structural)]
pub struct Window {
    pub width: i64,
    pub height: i64,
}

/// Marks the entity through which the scene is seen.
#[derive(Clone, Copy, Debug, PartialEq, Eq, Structural)]
pub struct Camera;

/// One entity: each attribute is there or not, independently of the others.
#[derive(Clone, Copy, Debug, PartialEq, Eq)]
pub struct Entity {
    pub transform: Option<Transform>,
    pub velocity: Option<Velocity>,
    pub acceleration: Option<Acceleration>,
    pub collider: Option<Collider>,
    pub size: Option<Size>,
    pub birb: Option<Birb>,
    pub camera: Option<Camera>,
    pub pipe: Option<Pipe>,
}

impl Entity {
    /// An entity with nothing attached.
    pub fn empty() -> (e: Entity)
        ensures
            e == Entity::spec_empty(),
    {
        Entity {
            transform: None,
            velocity: None,
            acceleration: None,
            collider: None,
            size: None,
            birb: None,
            camera: None,
            pipe: None,
        }
    }

    pub open spec fn spec_empty() -> Entity {
        Entity {
            transform: None,
            velocity: None,
            acceleration: None,
            collider: None,
            size: None,
            birb: None,
            camera: None,
            pipe: None,
        }
    }
}

/// All entities, by slot. An empty slot is an entity that was removed.
#[derive(Clone, Debug, PartialEq, Eq)]
pub struct World {
    pub slots: Vec<Option<Entity>>,
}

impl View for World {
    type V = Seq<Option<Entity>>;

    open spec fn view(&self) -> Seq<Option<Entity>> {
        self.slots@
    }
}

impl World {
    /// The entity in slot `id`, if the slot exists and is filled.
    pub open spec fn spec_get(self, id: usize) -> Option<Entity> {
        if id < self@.len() {
            self@[id as int]
        } else {
            None
        }
    }

    pub fn new() -> (w: World)
        ensures
            w@ == Seq::<Option<Entity>>::empty(),
    {
        World { slots: Vec::new() }
    }

    /// Number of slots, filled or not.
    pub fn len(&self) -> (n: usize)
        ensures
            n == self@.len(),
    {
        self.slots.len()
    }

    pub fn get(&self, id: usize) -> (e: Option<Entity>)
        ensures
            e == self.spec_get(id),
    {
        if id < self.slots.len() {
            self.slots[id]
        } else {
            None
        }
    }

    /// Puts `e` in a new slot and returns the slot's number.
    pub fn spawn(&mut self, e: Entity) -> (id: usize)
        ensures
            id == old(self)@.len(),
            final(self)@ == old(self)@.push(Some(e)),
    {
        let id = self.slots.len();
        self.slots.push(Some(e));
        id
    }

    /// Empties slot `id`. Nothing happens where there is no such slot.
    pub fn despawn(&mut self, id: usize)
        ensures
            final(self)@ == (if id < old(self)@.len() {
                old(self)@.update(id as int, None)
            } else {
                old(self)@
            }),
    {
        if id < self.slots.len() {
            self.slots.set(id, None);
        }
    }
}

/// The transform of the camera that `game` refers to: there is one where
/// the reference is set, its slot is filled, and the entity in it is a camera
/// with a transform.
pub open spec fn spec_camera_transform(world: Seq<Option<Entity>>, game: Game) -> Option<
    Transform,
> {
    match game.camera {
        Some(id) => if id < world.len() {
            match world[id as int] {
                Some(e) => if e.camera.is_some() {
                    e.transform
                } else {
                    None
                },
                None => None,
            }
        } else {
            None
        },
        None => None,
    }
}

/// The transform of the player that `game` refers to: there is one where the
/// reference is set, its slot is filled, and the entity in it is the
/// character with a transform.
pub open spec fn spec_player_transform(world: Seq<Option<Entity>>, game: Game) -> Option<
    Transform,
> {
    match game.player.entity {
        Some(id) => if id < world.len() {
            match world[id as int] {
                Some(e) => if e.birb.is_some() {
                    e.transform
                } else {
                    None
                },
                None => None,
            }
        } else {
            None
        },
        None => None,
    }
}

pub fn camera_transform(world: &World, game: &Game) -> (r: Option<Transform>)
    ensures
        r == spec_camera_transform(world@, *game),
{
    match game.camera {
        Some(id) => match world.get(id) {
            Some(e) => if e.camera.is_some() {
                e.transform
            } else {
                None
            },
            None => None,
        },
        None => None,
    }
}

pub fn player_transform(world: &World, game: &Game) -> (r: Option<Transform>)
    ensures
        r == spec_player_transform(world@, *game),
{
    match game.player.entity {
        Some(id) => match world.get(id) {
            Some(e) => if e.birb.is_some() {
                e.transform
            } else {
                None
            },
            None => None,
        },
        None => None,
    }
}

/// The session's reference to the player.
#[derive(Clone, Copy, Debug, PartialEq, Eq)]
pub struct Player {
    pub entity: Option<usize>,
}

/// What a session knows of its world: which slot holds the player and which
/// the camera. It refers to the slots and owns neither.
#[derive(Clone, Copy, Debug, PartialEq, Eq)]
pub struct Game {
    pub player: Player,
    pub camera: Option<usize>,
}

impl Default for Game {
    fn default() -> (g: Game)
        ensures
            g.player.entity.is_none(),
            g.camera.is_none(),
    {
        Game { player: Player { entity: None }, camera: None }
    }
}

/// The vertical velocity that a jump gives.
pub const JUMP_SPEED: i64 = 400 * VELOCITY_UNIT;

/// The horizontal velocity that the character starts with and keeps.
pub const CRUISE_SPEED: i64 = 300 * VELOCITY_UNIT;

/// The vertical acceleration of the character: downward.
pub const GRAVITY: i64 = -300;

/// Depth at which the camera is placed.
pub const CAMERA_DEPTH: i64 = 999_900_000_000_000;

/// Half the width of the box round the character.
pub const BIRB_HALF_WIDTH: i64 = 110 * POSITION_UNIT;

/// Half the height of the box round the character.
pub const BIRB_HALF_HEIGHT: i64 = 100 * POSITION_UNIT;

/// The camera as a session starts with it: above the origin, level.
pub open spec fn spec_initial_camera() -> Entity {
    Entity {
        transform: Some(
            Transform { translation: Vec3 { x: 0, y: 0, z: CAMERA_DEPTH }, rotation: 0 },
        ),
        camera: Some(Camera),
        ..Entity::spec_empty()
    }
}

/// The character as a session starts with it: at the origin, level, moving
/// right, pulled down.
pub open spec fn spec_initial_birb() -> Entity {
    Entity {
        transform: Some(Transform { translation: Vec3 { x: 0, y: 0, z: 0 }, rotation: 0 }),
        velocity: Some(Velocity(Vec3 { x: CRUISE_SPEED, y: 0, z: 0 })),
        acceleration: Some(Acceleration(Vec3 { x: 0, y: GRAVITY, z: 0 })),
        collider: Some(Collider { half_width: BIRB_HALF_WIDTH, half_height: BIRB_HALF_HEIGHT }),
        birb: Some(Birb),
        ..Entity::spec_empty()
    }
}

/// Starts a session: puts a camera and the character into two new slots,
/// the camera first, and lets `game` refer to both.
pub fn setup(world: &mut World, game: &mut Game)
    ensures
        final(world)@ == old(world)@.push(Some(spec_initial_camera())).push(
            Some(spec_initial_birb()),
        ),
        final(game).camera == Some(old(world)@.len() as usize),
        final(game).player.entity == Some((old(world)@.len() + 1) as usize),
{
    let camera = world.spawn(
        Entity {
            transform: Some(Transform { translation: Vec3::new(0, 0, CAMERA_DEPTH), rotation: 0 }),
            camera: Some(Camera),
            ..Entity::empty()
        },
    );
    let birb = world.spawn(
        Entity {
            transform: Some(Transform { translation: Vec3::new(0, 0, 0), rotation: 0 }),
            velocity: Some(Velocity(Vec3::new(CRUISE_SPEED, 0, 0))),
            acceleration: Some(Acceleration(Vec3::new(0, GRAVITY, 0))),
            collider: Some(Collider { half_width: BIRB_HALF_WIDTH, half_height: BIRB_HALF_HEIGHT }),
            birb: Some(Birb),
            ..Entity::empty()
        },
    );
    game.player.entity = Some(birb);
    game.camera = Some(camera);
}

/// What a jump makes of one slot: the character, where it has a velocity,
/// gets `JUMP_SPEED` as its vertical velocity, whatever that was; all else
/// stays, and so does every entity that is not the character.
pub open spec fn spec_jump_slot(slot: Option<Entity>) -> Option<Entity> {
    match slot {
        Some(e) => match (e.velocity, e.birb) {
            (Some(v), Some(_)) => Some(
                Entity { velocity: Some(Velocity(Vec3 { x: v.0.x, y: JUMP_SPEED, z: v.0.z })), ..e },
            ),
            _ => slot,
        },
        None => None,
    }
}

/// The world after the input of one frame: after a jump where the key was
/// pressed in this frame, unchanged where it was not.
pub open spec fn spec_player_input(world: Seq<Option<Entity>>, just_pressed: bool) -> Seq<
    Option<Entity>,
> {
    if just_pressed {
        Seq::new(world.len(), |i: int| spec_jump_slot(world[i]))
    } else {
        world
    }
}

fn jump_slot(slot: Option<Entity>) -> (r: Option<Entity>)
    ensures
        r == spec_jump_slot(slot),
{
    match slot {
        Some(e) => match (e.velocity, e.birb) {
            (Some(v), Some(_)) => Some(
                Entity { velocity: Some(Velocity(Vec3::new(v.0.x, JUMP_SPEED, v.0.z))), ..e },
            ),
            _ => slot,
        },
        None => None,
    }
}

/// Handles the jump key: where it went down in this frame, the character
/// jumps. `just_pressed` says that it did; a key that is held down went down
/// in an earlier frame.
pub fn player_input(world: &mut World, just_pressed: bool)
    ensures
        final(world)@ == spec_player_input(old(world)@, just_pressed),
{
    if just_pressed {
        let n = world.slots.len();
        let mut i: usize = 0;
        while i < n
            invariant
                i <= n,
                n == old(world)@.len(),
                world@.len() == n,
                forall|j: int| 0 <= j < i ==> world@[j] == spec_jump_slot(old(world)@[j]),
                forall|j: int| i <= j < n ==> world@[j] == old(world)@[j],
            decreases n - i,
        {
            let next = jump_slot(world.slots[i]);
            world.slots.set(i, next);
            i += 1;
        }
        assert(world@ =~= spec_player_input(old(world)@, just_pressed));
    }
}

/// What following makes of one slot: a camera with a transform takes the
/// player's horizontal position; all else stays.
pub open spec fn spec_follow_slot(slot: Option<Entity>, player_x: i64) -> Option<Entity> {
    match slot {
        Some(e) => match (e.transform, e.camera) {
            (Some(t), Some(_)) => Some(
                Entity {
                    transform: Some(
                        Transform {
                            translation: Vec3 {
                                x: player_x,
                                y: t.translation.y,
                                z: t.translation.z,
                            },
                            rotation: t.rotation,
                        },
                    ),
                    ..e
                },
            ),
            _ => slot,
        },
        None => None,
    }
}

/// The world after the cameras have followed the player: unchanged where
/// the player is not found.
pub open spec fn spec_follow_cam(world: Seq<Option<Entity>>, game: Game) -> Seq<Option<Entity>> {
    match spec_player_transform(world, game) {
        Some(p) => Seq::new(world.len(), |i: int| spec_follow_slot(world[i], p.translation.x)),
        None => world,
    }
}

fn follow_slot(slot: Option<Entity>, player_x: i64) -> (r: Option<Entity>)
    ensures
        r == spec_follow_slot(slot, player_x),
{
    match slot {
        Some(e) => match (e.transform, e.camera) {
            (Some(t), Some(_)) => Some(
                Entity {
                    transform: Some(
                        Transform {
                            translation: Vec3::new(player_x, t.translation.y, t.translation.z),
                            rotation: t.rotation,
                        },
                    ),
                    ..e
                },
            ),
            _ => slot,
        },
        None => None,
    }
}

/// Moves every camera to the player's horizontal position, leaving its
/// height and depth.
pub fn follow_cam(world: &mut World, game: &Game)
    ensures
        final(world)@ == spec_follow_cam(old(world)@, *game),
{
    let player = match player_transform(world, game) {
        Some(p) => p,
        None => { return ; },
    };
    let n = world.slots.len();
    let mut i: usize = 0;
    while i < n
        invariant
            i <= n,
            n == old(world)@.len(),
            world@.len() == n,
            Some(player) == spec_player_transform(old(world)@, *game),
            forall|j: int|
                0 <= j < i ==> world@[j] == spec_follow_slot(
                    old(world)@[j],
                    player.translation.x,
                ),
            forall|j: int| i <= j < n ==> world@[j] == old(world)@[j],
        decreases n - i,
    {
        let next = follow_slot(world.slots[i], player.translation.x);
        world.slots.set(i, next);
        i += 1;
    }
    assert(world@ =~= spec_follow_cam(old(world)@, *game));
}

/// A jump sets the vertical velocity of the character to `JUMP_SPEED`,
/// whatever it was, and leaves the rest of it; a frame without a new press
/// changes nothing.
pub proof fn lemma_jump_overwrites(world: Seq<Option<Entity>>, i: int, e: Entity, v: Velocity)
    requires
        0 <= i < world.len(),
        world[i] == Some(e),
        e.velocity == Some(v),
        e.birb.is_some(),
    ensures
        spec_player_input(world, true)[i] == Some(
            Entity { velocity: Some(Velocity(Vec3 { x: v.0.x, y: JUMP_SPEED, z: v.0.z })), ..e },
        ),
        JUMP_SPEED == 400 * VELOCITY_UNIT,
        spec_player_input(world, false) == world,
{
}

/// A jump is the character's alone: a slot that is empty, or whose entity is
/// not the character, is the same after the input as before, pressed or not.
pub proof fn lemma_jump_spares_the_others(world: Seq<Option<Entity>>, i: int, pressed: bool)
    requires
        0 <= i < world.len(),
        world[i] matches Some(e) ==> e.birb.is_none(),
    ensures
        spec_player_input(world, pressed)[i] == world[i],
        spec_player_input(world, pressed).len() == world.len(),
{
}

} // verus!
