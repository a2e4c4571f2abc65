//! One frame: every system once, in the order that the systems rely on.
//!
//! The jump comes first, so that the frame's motion starts from the new
//! velocity. Gravity comes before motion, the tilt and the camera after
//! both. Obstacles that have left the view are removed, and then the timer
//! decides whether a new pair is due.
use vstd::prelude::*;
use crate::birb::{rotate_birb, spec_rotate_birb};
use crate::physics::{
    calculate_position_from_velocity, gravity_system, spec_calculate_position_from_velocity,
    spec_gravity_fits, spec_gravity_system, spec_motion_fits,
};
use crate::pipes::{
    despawn_pipes, spawn_pipes, spec_despawn_pipes, spec_place_pair, PipeSpawnConfig,
};
use crate::world::{
    follow_cam, player_input, spec_follow_cam, spec_player_input, Entity, Game, Window, World,
};

verus! {

/// What the engine reports of one frame.
#[derive(Clone, Copy, Debug, PartialEq, Eq)]
pub struct FrameInput {
    /// Microseconds since the frame before.
    pub dt: u32,
    /// Whether the jump key went down in this frame.
    pub jump: bool,
    /// The visible area, if there is a window.
    pub window: Option<Window>,
}

/// What a frame did besides moving things.
#[derive(Clone, Copy, Debug, PartialEq, Eq, Structural)]
pub struct FrameReport {
    /// Every entity took its gravity step.
    pub accelerated: bool,
    /// Every entity took its position step.
    pub moved: bool,
    /// A pair of obstacles was made, in the last two slots.
    pub spawned: bool,
}

/// The world after the jump and the gravity step of a frame.
pub open spec fn spec_after_gravity(world: Seq<Option<Entity>>, input: FrameInput) -> Seq<
    Option<Entity>,
> {
    spec_gravity_system(spec_player_input(world, input.jump), input.dt)
}

/// The world after everything in a frame that changes no slot's number and
/// fills no new one: jump, gravity, motion, tilt, camera, and the removal
/// of obstacles.
pub open spec fn spec_settled(world: Seq<Option<Entity>>, game: Game, input: FrameInput) -> Seq<
    Option<Entity>,
> {
    spec_despawn_pipes(
        spec_follow_cam(
            spec_rotate_birb(
                spec_calculate_position_from_velocity(spec_after_gravity(world, input), input.dt),
            ),
            game,
        ),
        game,
        input.window,
    )
}

/// Runs one frame.
pub fn frame(world: &mut World, game: &Game, config: &mut PipeSpawnConfig, input: FrameInput) -> (report:
    FrameReport)
    ensures
        final(config).timer == old(config).timer.spec_tick(input.dt),
        report.accelerated == spec_gravity_fits(
            spec_player_input(old(world)@, input.jump),
            input.dt,
        ),
        report.moved == spec_motion_fits(spec_after_gravity(old(world)@, input), input.dt),
        !final(config).timer.just_finished ==> final(world)@ == spec_settled(
            old(world)@,
            *game,
            input,
        ),
        final(config).timer.just_finished ==> exists|draw: u32|
            final(world)@ == spec_place_pair(
                spec_settled(old(world)@, *game, input),
                *game,
                input.window,
                draw,
            ),
        report.spawned <==> final(world)@.len() == old(world)@.len() + 2,
        !report.spawned ==> final(world)@ == spec_settled(old(world)@, *game, input),
{
    player_input(world, input.jump);
    let accelerated = gravity_system(world, input.dt);
    let moved = calculate_position_from_velocity(world, input.dt);
    rotate_birb(world);
    follow_cam(world, game);
    despawn_pipes(world, game, input.window);
    proof {
        lemma_settled_keeps_slots(old(world)@, *game, input);
    }
    let spawned = spawn_pipes(world, game, config, input.dt, input.window);
    FrameReport { accelerated, moved, spawned }
}

/// None of the systems that come before the spawn adds or drops a slot.
pub proof fn lemma_settled_keeps_slots(world: Seq<Option<Entity>>, game: Game, input: FrameInput)
    ensures
        spec_settled(world, game, input).len() == world.len(),
{
}

} // verus!
