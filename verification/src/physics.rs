//! Exact integer kinematics.
//!
//! Every quantity is a whole number of a fixed unit, chosen so that one
//! frame's update needs no rounding:
//!
//! | quantity     | unit                                   |
//! |--------------|----------------------------------------|
//! | time step    | microsecond                            |
//! | acceleration | length unit per second squared         |
//! | velocity     | millionth of a length unit per second  |
//! | position     | millionth of a millionth length unit   |
//!
//! An acceleration times a time step is therefore a velocity, and a velocity
//! times a time step is a displacement, with nothing lost.
use vstd::prelude::*;
use crate::world::{Entity, Transform, World};

verus! {

/// Velocity units in one length unit per second.
pub const VELOCITY_UNIT: i64 = 1_000_000;

/// Position units in one length unit.
pub const POSITION_UNIT: i64 = 1_000_000_000_000;

/// How many times the acceleration is counted in one gravity step.
pub const GRAVITY_FACTOR: u64 = 3;

/// `v` is the value of some `i64`.
pub open spec fn in_i64(v: int) -> bool {
    i64::MIN <= v <= i64::MAX
}

/// A vector of three mathematical integers: what a `Vec3` stands for, and
/// what a frame's update would give if machine integers had no end.
pub struct Point3 {
    pub x: int,
    pub y: int,
    pub z: int,
}

impl Point3 {
    /// Componentwise sum.
    pub open spec fn plus(self, other: Point3) -> Point3 {
        Point3 { x: self.x + other.x, y: self.y + other.y, z: self.z + other.z }
    }

    /// Every component multiplied by `k`.
    pub open spec fn scaled(self, k: int) -> Point3 {
        Point3 { x: self.x * k, y: self.y * k, z: self.z * k }
    }

    /// The vector of machine integers with these components, where each of
    /// them is the value of one.
    pub open spec fn to_vec3(self) -> Vec3 {
        Vec3 { x: self.x as i64, y: self.y as i64, z: self.z as i64 }
    }

    /// Every component fits in an `i64`.
    pub open spec fn representable(self) -> bool {
        &&& in_i64(self.x)
        &&& in_i64(self.y)
        &&& in_i64(self.z)
    }
}

/// Three signed components: a position, a velocity or an acceleration,
/// according to where it is held.
#[derive(Clone, Copy, Debug, PartialEq, Eq, Structural)]
pub struct Vec3 {
    pub x: i64,
    pub y: i64,
    pub z: i64,
}

impl View for Vec3 {
    type V = Point3;

    open spec fn view(&self) -> Point3 {
        Point3 { x: self.x as int, y: self.y as int, z: self.z as int }
    }
}

/// `base + rate * k`, or `None` where that is no `i64`.
fn checked_step(base: i64, rate: i64, k: u64) -> (r: Option<i64>)
    requires
        k <= 0x3_0000_0000,
    ensures
        r.is_some() <==> in_i64(base + rate * k),
        r matches Some(v) ==> v == base + rate * k,
{
    proof {
        lemma_product_bound(rate as int, k as int, 0x8000_0000_0000_0000, 0x3_0000_0000);
    }
    let wide: i128 = (base as i128) + (rate as i128) * (k as i128);
    if wide < (i64::MIN as i128) || wide > (i64::MAX as i128) {
        None
    } else {
        Some(wide as i64)
    }
}

/// The product of a bounded factor and a bounded non-negative factor is
/// bounded by the product of the bounds.
pub(crate) proof fn lemma_product_bound(a: int, b: int, la: int, lb: int)
    requires
        -la <= a <= la,
        0 <= b <= lb,
    ensures
        -(la * lb) <= a * b <= la * lb,
{
    assert(-(la * lb) <= a * b <= la * lb) by (nonlinear_arith)
        requires
            -la <= a <= la,
            0 <= b <= lb,
    ;
}

impl Vec3 {
    pub fn new(x: i64, y: i64, z: i64) -> (r: Vec3)
        ensures
            r == (Vec3 { x, y, z }),
    {
        Vec3 { x, y, z }
    }

    /// `self + rate * k` componentwise, or `None` where a component of it is
    /// no `i64`.
    fn checked_add_scaled(self, rate: Vec3, k: u64) -> (r: Option<Vec3>)
        requires
            k <= 0x3_0000_0000,
        ensures
            r.is_some() <==> self@.plus(rate@.scaled(k as int)).representable(),
            r matches Some(v) ==> v@ == self@.plus(rate@.scaled(k as int)),
    {
        let x = checked_step(self.x, rate.x, k);
        let y = checked_step(self.y, rate.y, k);
        let z = checked_step(self.z, rate.z, k);
        match (x, y, z) {
            (Some(x), Some(y), Some(z)) => Some(Vec3 { x, y, z }),
            _ => None,
        }
    }
}

/// Speed and direction of an entity, in velocity units.
#[derive(Clone, Copy, Debug, PartialEq, Eq, Structural)]
pub struct Velocity(pub Vec3);

/// Constant acceleration of an entity, in length units per second squared.
#[derive(Clone, Copy, Debug, PartialEq, Eq, Structural)]
pub struct Acceleration(pub Vec3);

/// The velocity after `dt` microseconds under acceleration `a`:
/// `v + a * dt * GRAVITY_FACTOR`.
pub open spec fn spec_apply_gravity(v: Velocity, a: Acceleration, dt: u32) -> Point3 {
    v.0@.plus(a.0@.scaled(dt * GRAVITY_FACTOR))
}

/// The position after `dt` microseconds at velocity `v`: `p + v * dt`.
pub open spec fn spec_integrate(p: Vec3, v: Velocity, dt: u32) -> Point3 {
    p@.plus(v.0@.scaled(dt as int))
}

/// One gravity step on one velocity. `None` exactly where the new velocity
/// has a component that no `i64` holds.
pub fn apply_gravity(v: Velocity, a: Acceleration, dt: u32) -> (r: Option<Velocity>)
    ensures
        r.is_some() <==> spec_apply_gravity(v, a, dt).representable(),
        r matches Some(w) ==> w.0@ == spec_apply_gravity(v, a, dt),
{
    let k: u64 = (dt as u64) * GRAVITY_FACTOR;
    match v.0.checked_add_scaled(a.0, k) {
        Some(w) => Some(Velocity(w)),
        None => None,
    }
}

/// One position step at one velocity. `None` exactly where the new position
/// has a component that no `i64` holds.
pub fn integrate(p: Vec3, v: Velocity, dt: u32) -> (r: Option<Vec3>)
    ensures
        r.is_some() <==> spec_integrate(p, v, dt).representable(),
        r matches Some(q) ==> q@ == spec_integrate(p, v, dt),
{
    p.checked_add_scaled(v.0, dt as u64)
}

/// The gravity step can be taken in this slot: it is empty, or its entity
/// lacks a velocity or an acceleration, or the new velocity is representable.
pub open spec fn spec_gravity_slot_fits(slot: Option<Entity>, dt: u32) -> bool {
    match slot {
        Some(e) => match (e.velocity, e.acceleration) {
            (Some(v), Some(a)) => spec_apply_gravity(v, a, dt).representable(),
            _ => true,
        },
        None => true,
    }
}

/// What the gravity step makes of one slot: an entity with a velocity and an
/// acceleration gets its new velocity; all else stays.
pub open spec fn spec_gravity_slot(slot: Option<Entity>, dt: u32) -> Option<Entity> {
    match slot {
        Some(e) => match (e.velocity, e.acceleration) {
            (Some(v), Some(a)) => Some(
                Entity { velocity: Some(Velocity(spec_apply_gravity(v, a, dt).to_vec3())), ..e },
            ),
            _ => slot,
        },
        None => None,
    }
}

/// The gravity step can be taken in every slot.
pub open spec fn spec_gravity_fits(world: Seq<Option<Entity>>, dt: u32) -> bool {
    forall|i: int| 0 <= i < world.len() ==> spec_gravity_slot_fits(#[trigger] world[i], dt)
}

/// The world after the gravity step: each slot stepped where its own step
/// can be taken, and as it was where it cannot.
pub open spec fn spec_gravity_system(world: Seq<Option<Entity>>, dt: u32) -> Seq<Option<Entity>> {
    Seq::new(
        world.len(),
        |i: int|
            if spec_gravity_slot_fits(world[i], dt) {
                spec_gravity_slot(world[i], dt)
            } else {
                world[i]
            },
    )
}

fn gravity_slot(slot: Option<Entity>, dt: u32) -> (r: Option<Option<Entity>>)
    ensures
        r.is_some() <==> spec_gravity_slot_fits(slot, dt),
        r matches Some(s) ==> s == spec_gravity_slot(slot, dt),
{
    match slot {
        Some(e) => match (e.velocity, e.acceleration) {
            (Some(v), Some(a)) => match apply_gravity(v, a, dt) {
                Some(w) => Some(Some(Entity { velocity: Some(w), ..e })),
                None => None,
            },
            _ => Some(slot),
        },
        None => Some(None),
    }
}

/// Lets every entity that has a velocity and an acceleration gain
/// `acceleration * dt * GRAVITY_FACTOR` of velocity. An entity whose new
/// velocity is not representable keeps the one it has; the result says
/// whether there was none such.
pub fn gravity_system(world: &mut World, dt: u32) -> (applied: bool)
    ensures
        applied == spec_gravity_fits(old(world)@, dt),
        final(world)@ == spec_gravity_system(old(world)@, dt),
{
    let n = world.slots.len();
    let mut applied = true;
    let mut i: usize = 0;
    while i < n
        invariant
            i <= n,
            n == old(world)@.len(),
            world@.len() == n,
            applied <==> forall|j: int|
                0 <= j < i ==> spec_gravity_slot_fits(#[trigger] old(world)@[j], dt),
            forall|j: int|
                0 <= j < i ==> world@[j] == (if spec_gravity_slot_fits(old(world)@[j], dt) {
                    spec_gravity_slot(old(world)@[j], dt)
                } else {
                    old(world)@[j]
                }),
            forall|j: int| i <= j < n ==> world@[j] == old(world)@[j],
        decreases n - i,
    {
        match gravity_slot(world.slots[i], dt) {
            Some(s) => {
                world.slots.set(i, s);
            },
            None => {
                applied = false;
            },
        }
        i += 1;
    }
    assert(world@ =~= spec_gravity_system(old(world)@, dt));
    applied
}

/// The position step can be taken in this slot: it is empty, or its entity
/// lacks a transform or a velocity, or the new position is representable.
pub open spec fn spec_motion_slot_fits(slot: Option<Entity>, dt: u32) -> bool {
    match slot {
        Some(e) => match (e.transform, e.velocity) {
            (Some(t), Some(v)) => spec_integrate(t.translation, v, dt).representable(),
            _ => true,
        },
        None => true,
    }
}

/// What the position step makes of one slot: an entity with a transform and
/// a velocity gets its new position; all else stays.
pub open spec fn spec_motion_slot(slot: Option<Entity>, dt: u32) -> Option<Entity> {
    match slot {
        Some(e) => match (e.transform, e.velocity) {
            (Some(t), Some(v)) => Some(
                Entity {
                    transform: Some(
                        Transform {
                            translation: spec_integrate(t.translation, v, dt).to_vec3(),
                            rotation: t.rotation,
                        },
                    ),
                    ..e
                },
            ),
            _ => slot,
        },
        None => None,
    }
}

/// The position step can be taken in every slot.
pub open spec fn spec_motion_fits(world: Seq<Option<Entity>>, dt: u32) -> bool {
    forall|i: int| 0 <= i < world.len() ==> spec_motion_slot_fits(#[trigger] world[i], dt)
}

/// The world after the position step: each slot stepped where its own step
/// can be taken, and as it was where it cannot.
pub open spec fn spec_calculate_position_from_velocity(
    world: Seq<Option<Entity>>,
    dt: u32,
) -> Seq<Option<Entity>> {
    Seq::new(
        world.len(),
        |i: int|
            if spec_motion_slot_fits(world[i], dt) {
                spec_motion_slot(world[i], dt)
            } else {
                world[i]
            },
    )
}

fn motion_slot(slot: Option<Entity>, dt: u32) -> (r: Option<Option<Entity>>)
    ensures
        r.is_some() <==> spec_motion_slot_fits(slot, dt),
        r matches Some(s) ==> s == spec_motion_slot(slot, dt),
{
    match slot {
        Some(e) => match (e.transform, e.velocity) {
            (Some(t), Some(v)) => match integrate(t.translation, v, dt) {
                Some(p) => Some(
                    Some(
                        Entity {
                            transform: Some(Transform { translation: p, rotation: t.rotation }),
                            ..e
                        },
                    ),
                ),
                None => None,
            },
            _ => Some(slot),
        },
        None => Some(None),
    }
}

/// Moves every entity that has a transform and a velocity by
/// `velocity * dt`. An entity whose new position is not representable stays
/// where it is; the result says whether there was none such.
pub fn calculate_position_from_velocity(world: &mut World, dt: u32) -> (applied: bool)
    ensures
        applied == spec_motion_fits(old(world)@, dt),
        final(world)@ == spec_calculate_position_from_velocity(old(world)@, dt),
{
    let n = world.slots.len();
    let mut applied = true;
    let mut i: usize = 0;
    while i < n
        invariant
            i <= n,
            n == old(world)@.len(),
            world@.len() == n,
            applied <==> forall|j: int|
                0 <= j < i ==> spec_motion_slot_fits(#[trigger] old(world)@[j], dt),
            forall|j: int|
                0 <= j < i ==> world@[j] == (if spec_motion_slot_fits(old(world)@[j], dt) {
                    spec_motion_slot(old(world)@[j], dt)
                } else {
                    old(world)@[j]
                }),
            forall|j: int| i <= j < n ==> world@[j] == old(world)@[j],
        decreases n - i,
    {
        match motion_slot(world.slots[i], dt) {
            Some(s) => {
                world.slots.set(i, s);
            },
            None => {
                applied = false;
            },
        }
        i += 1;
    }
    assert(world@ =~= spec_calculate_position_from_velocity(old(world)@, dt));
    applied
}

/// Under a downward acceleration the vertical velocity only falls: a longer
/// step leaves it lower than a shorter one, and any step that takes time
/// leaves it lower than it was. The other two components follow their own
/// accelerations in the same way, untouched by the vertical one.
pub proof fn lemma_gravity_pulls_down(v: Velocity, a: Acceleration, shorter: u32, longer: u32)
    requires
        a.0.y < 0,
        shorter <= longer,
    ensures
        spec_apply_gravity(v, a, longer).y <= spec_apply_gravity(v, a, shorter).y <= v.0.y,
        shorter < longer ==> spec_apply_gravity(v, a, longer).y < spec_apply_gravity(
            v,
            a,
            shorter,
        ).y,
        spec_apply_gravity(v, a, 0) == v.0@,
        spec_apply_gravity(v, a, longer).y == v.0.y + a.0.y * longer * GRAVITY_FACTOR,
{
    let s = shorter * GRAVITY_FACTOR;
    let l = longer * GRAVITY_FACTOR;
    let ay = a.0.y as int;
    assert(ay * l <= ay * s <= 0) by (nonlinear_arith)
        requires
            ay < 0,
            0 <= s <= l,
    ;
    assert(s < l ==> ay * l < ay * s) by (nonlinear_arith)
        requires
            ay < 0,
            0 <= s <= l,
    ;
    assert(ay * (longer * GRAVITY_FACTOR) == ay * longer * GRAVITY_FACTOR) by (nonlinear_arith);
}

/// A position step adds `velocity * dt` to each component and nothing else;
/// a step of no time changes nothing, and can always be taken.
pub proof fn lemma_integrate_exact(p: Vec3, v: Velocity, dt: u32)
    ensures
        spec_integrate(p, v, dt).x == p.x + v.0.x * dt,
        spec_integrate(p, v, dt).y == p.y + v.0.y * dt,
        spec_integrate(p, v, dt).z == p.z + v.0.z * dt,
        spec_integrate(p, v, 0) == p@,
        spec_integrate(p, v, 0).representable(),
        spec_integrate(p, v, 0).to_vec3() == p,
{
}

/// The gravity system gives each entity its own step: one with a velocity
/// and an acceleration whose new velocity is representable has exactly
/// `velocity + acceleration * dt * GRAVITY_FACTOR` afterwards, component by
/// component, whatever becomes of the other entities.
pub proof fn lemma_gravity_system_steps_each(
    world: Seq<Option<Entity>>,
    dt: u32,
    i: int,
    e: Entity,
    v: Velocity,
    a: Acceleration,
)
    requires
        0 <= i < world.len(),
        world[i] == Some(e),
        e.velocity == Some(v),
        e.acceleration == Some(a),
        spec_apply_gravity(v, a, dt).representable(),
    ensures
        spec_gravity_system(world, dt)[i] matches Some(after) && after.velocity matches Some(w)
            && w.0.x == v.0.x + a.0.x * dt * GRAVITY_FACTOR && w.0.y == v.0.y + a.0.y * dt
            * GRAVITY_FACTOR && w.0.z == v.0.z + a.0.z * dt * GRAVITY_FACTOR && after == (Entity {
            velocity: Some(w),
            ..e
        }),
{
    let k = dt * GRAVITY_FACTOR;
    assert(a.0.x * k == a.0.x * dt * GRAVITY_FACTOR) by (nonlinear_arith)
        requires
            k == dt * GRAVITY_FACTOR,
    ;
    assert(a.0.y * k == a.0.y * dt * GRAVITY_FACTOR) by (nonlinear_arith)
        requires
            k == dt * GRAVITY_FACTOR,
    ;
    assert(a.0.z * k == a.0.z * dt * GRAVITY_FACTOR) by (nonlinear_arith)
        requires
            k == dt * GRAVITY_FACTOR,
    ;
}

/// The position system gives each entity its own step: one with a transform
/// and a velocity whose new position is representable is exactly at
/// `position + velocity * dt` afterwards, each axis by its own components,
/// whatever becomes of the other entities.
pub proof fn lemma_position_system_steps_each(
    world: Seq<Option<Entity>>,
    dt: u32,
    i: int,
    e: Entity,
    t: Transform,
    v: Velocity,
)
    requires
        0 <= i < world.len(),
        world[i] == Some(e),
        e.transform == Some(t),
        e.velocity == Some(v),
        spec_integrate(t.translation, v, dt).representable(),
    ensures
        spec_calculate_position_from_velocity(world, dt)[i] matches Some(after)
            && after.transform matches Some(u) && u.translation.x == t.translation.x + v.0.x * dt
            && u.translation.y == t.translation.y + v.0.y * dt && u.translation.z
            == t.translation.z + v.0.z * dt && u.rotation == t.rotation && after == (Entity {
            transform: Some(u),
            ..e
        }),
{
}

} // verus!
