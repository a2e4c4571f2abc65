//! The player's character and its tilt.
//!
//! Angles are whole numbers of a ten-millionth of a degree, so that the tilt
//! is an exact function of the vertical velocity.
use vstd::prelude::*;
use crate::physics::VELOCITY_UNIT;
use crate::world::{Entity, Transform, World};

verus! {

/// Marks the entity that the player steers.
#[derive(Clone, Copy, Debug, PartialEq, Eq, Structural)]
pub struct Birb;

/// Angle units in one degree.
pub const ANGLE_UNIT: i64 = 10_000_000;

/// The vertical velocity at and below which the tilt is lowest.
pub const MIN: i64 = -800 * VELOCITY_UNIT;

/// The vertical velocity at and above which the tilt is highest.
pub const MAX: i64 = 800 * VELOCITY_UNIT;

/// The tilt at the fastest fall: nose straight down.
pub const LOWEST_ROTATION: i64 = -90 * ANGLE_UNIT;

/// The swing from the lowest tilt to the highest.
pub const ROTATION_RANGE: i64 = 160 * ANGLE_UNIT;

/// `vy` held to `MIN ..= MAX`.
pub open spec fn spec_clamp(vy: int) -> int {
    if vy < MIN {
        MIN as int
    } else if vy > MAX {
        MAX as int
    } else {
        vy
    }
}

/// The tilt at vertical velocity `vy`: the clamped velocity's share of the
/// way from `MIN` to `MAX` is the tilt's share of `ROTATION_RANGE` above
/// `LOWEST_ROTATION`.
pub open spec fn spec_rotation(vy: int) -> int {
    LOWEST_ROTATION + (spec_clamp(vy) - MIN) * ROTATION_RANGE / (MAX - MIN)
}

/// The tilt at vertical velocity `vy`.
pub fn rotation(vy: i64) -> (r: i64)
    ensures
        r == spec_rotation(vy as int),
{
    let clamped: i64 = if vy < MIN {
        MIN
    } else if vy > MAX {
        MAX
    } else {
        vy
    };
    LOWEST_ROTATION + (clamped - MIN) * ROTATION_RANGE / (MAX - MIN)
}

/// What the tilt system makes of one slot: the character, where it has a
/// transform and a velocity, is tilted by its vertical velocity; all else
/// stays.
pub open spec fn spec_rotate_slot(slot: Option<Entity>) -> Option<Entity> {
    match slot {
        Some(e) => match (e.transform, e.velocity, e.birb) {
            (Some(t), Some(v), Some(_)) => Some(
                Entity {
                    transform: Some(
                        Transform {
                            translation: t.translation,
                            rotation: spec_rotation(v.0.y as int) as i64,
                        },
                    ),
                    ..e
                },
            ),
            _ => slot,
        },
        None => None,
    }
}

fn rotate_slot(slot: Option<Entity>) -> (r: Option<Entity>)
    ensures
        r == spec_rotate_slot(slot),
{
    match slot {
        Some(e) => match (e.transform, e.velocity, e.birb) {
            (Some(t), Some(v), Some(_)) => Some(
                Entity {
                    transform: Some(
                        Transform { translation: t.translation, rotation: rotation(v.0.y) },
                    ),
                    ..e
                },
            ),
            _ => slot,
        },
        None => None,
    }
}

/// The world after the tilt system.
pub open spec fn spec_rotate_birb(world: Seq<Option<Entity>>) -> Seq<Option<Entity>> {
    Seq::new(world.len(), |i: int| spec_rotate_slot(world[i]))
}

/// Tilts every character by its vertical velocity.
pub fn rotate_birb(world: &mut World)
    ensures
        final(world)@ == spec_rotate_birb(old(world)@),
{
    let n = world.slots.len();
    let mut i: usize = 0;
    while i < n
        invariant
            i <= n,
            n == old(world)@.len(),
            world@.len() == n,
            forall|j: int| 0 <= j < i ==> world@[j] == spec_rotate_slot(old(world)@[j]),
            forall|j: int| i <= j < n ==> world@[j] == old(world)@[j],
        decreases n - i,
    {
        let next = rotate_slot(world.slots[i]);
        world.slots.set(i, next);
        i += 1;
    }
    assert(world@ =~= spec_rotate_birb(old(world)@));
}

/// The tilt never falls as the vertical velocity rises. At `MIN` and below
/// it is -90 degrees, at `MAX` and above it is 70 degrees, and between the
/// two it rises by one angle unit with each velocity unit.
pub proof fn lemma_rotation_monotone(lower: int, higher: int)
    requires
        lower <= higher,
    ensures
        spec_rotation(lower) <= spec_rotation(higher),
        lower <= MIN ==> spec_rotation(lower) == -90 * ANGLE_UNIT,
        higher >= MAX ==> spec_rotation(higher) == 70 * ANGLE_UNIT,
        MIN <= lower <= higher <= MAX ==> spec_rotation(higher) - spec_rotation(lower) == higher
            - lower,
{
    lemma_rotation_is_shift(lower);
    lemma_rotation_is_shift(higher);
}

/// The tilt is the clamped velocity, shifted: dividing by the velocity range
/// undoes multiplying by the rotation range, the two being the same number.
proof fn lemma_rotation_is_shift(vy: int)
    ensures
        spec_rotation(vy) == spec_clamp(vy) - 10 * ANGLE_UNIT,
{
    let above = spec_clamp(vy) - MIN;
    assert(above * 1_600_000_000 / 1_600_000_000 == above) by (nonlinear_arith);
}

} // verus!
