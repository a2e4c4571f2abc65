//! Obstacles: where a pair is placed and when an obstacle is removed.
use vstd::prelude::*;
use crate::chance::random_bits;
use crate::physics::{in_i64, lemma_product_bound, Vec3, POSITION_UNIT};
use crate::util::{
    get_pipe_from_position_and_size, half, spec_half, spec_pipe, spec_pipe_x, spec_toward_zero,
};
use crate::world::{
    camera_transform, spec_camera_transform, Collider, Entity, Game, Size, Transform, Window,
    World,
};

verus! {

/// Height of the gap between the two obstacles of a pair.
pub const PIPE_SPACING: i64 = 180 * POSITION_UNIT;

/// Half of `PIPE_SPACING`.
pub const HALF_PIPE_SPACING: i64 = 90 * POSITION_UNIT;

/// The least height that either obstacle of a pair is meant to have.
pub const MIN_PIPE_HEIGHT: i64 = 50 * POSITION_UNIT;

/// The least distance of a gap's centre from the window's bottom, and from
/// its top.
pub const HOLE_OFFSET: i64 = MIN_PIPE_HEIGHT + HALF_PIPE_SPACING;

/// Width of every obstacle.
pub const PIPE_WIDTH: i64 = 100 * POSITION_UNIT;

/// Half of `PIPE_WIDTH`.
pub const HALF_PIPE_WIDTH: i64 = 50 * POSITION_UNIT;

/// Which member of a pair an obstacle is.
#[derive(Clone, Copy, Debug, PartialEq, Eq, Structural)]
pub enum PipePosition {
    Top,
    Bottom,
}

impl Default for PipePosition {
    /// The upper member.
    fn default() -> (p: PipePosition)
        ensures
            p == PipePosition::Top,
    {
        PipePosition::Top
    }
}

/// Marks an obstacle.
#[derive(Clone, Copy, Debug, PartialEq, Eq, Structural)]
pub struct Pipe {
    pub position: PipePosition,
}

impl Pipe {
    pub fn new(position: PipePosition) -> (p: Pipe)
        ensures
            p.position == position,
    {
        Pipe { position }
    }
}

impl Default for Pipe {
    /// The mark of an upper obstacle.
    fn default() -> (p: Pipe)
        ensures
            p.position == PipePosition::Top,
    {
        Pipe { position: PipePosition::Top }
    }
}

/// All that a new obstacle is made of.
#[derive(Clone, Copy, Debug, PartialEq, Eq)]
pub struct PipeBundle {
    pub transform: Transform,
    /// The rectangle it is drawn as; without one it is drawn as large as its
    /// picture.
    pub size: Option<Size>,
    pub collider: Collider,
    pub pipe: Pipe,
}

/// Half the width and half the height of the box of a bundle that was given
/// no other: half a length unit.
pub const DEFAULT_HALF_EXTENT: i64 = 500_000_000_000;

impl PipeBundle {
    /// The bundle that nothing was said about: at the origin, level, with no
    /// size of its own, in a box one length unit wide and high, marked as an
    /// upper obstacle.
    pub open spec fn spec_default() -> PipeBundle {
        PipeBundle {
            transform: Transform { translation: Vec3 { x: 0, y: 0, z: 0 }, rotation: 0 },
            size: None,
            collider: Collider {
                half_width: DEFAULT_HALF_EXTENT,
                half_height: DEFAULT_HALF_EXTENT,
            },
            pipe: Pipe { position: PipePosition::Top },
        }
    }
}

impl Default for PipeBundle {
    fn default() -> (b: PipeBundle)
        ensures
            b == PipeBundle::spec_default(),
    {
        PipeBundle {
            transform: Transform { translation: Vec3::new(0, 0, 0), rotation: 0 },
            size: None,
            collider: Collider {
                half_width: DEFAULT_HALF_EXTENT,
                half_height: DEFAULT_HALF_EXTENT,
            },
            pipe: Pipe::new(PipePosition::Top),
        }
    }
}

/// A draw of 32 random bits stands for a fraction: its upper 24 bits, over
/// this.
pub const DRAW_SCALE: i64 = 16_777_216;

/// The upper 24 bits of a draw.
pub open spec fn spec_draw_steps(draw: u32) -> int {
    draw as int / 256
}

/// The height in which the centre of a gap may lie.
pub open spec fn spec_consumable_space(window_height: int) -> int {
    window_height - 2 * HOLE_OFFSET
}

/// Height of a gap's centre above the window's bottom: `HOLE_OFFSET` plus
/// the draw's fraction of the consumable space, rounded toward
/// `HOLE_OFFSET`.
pub open spec fn spec_hole_center(window_height: int, draw: u32) -> int {
    HOLE_OFFSET + spec_toward_zero(
        spec_consumable_space(window_height) * spec_draw_steps(draw),
        DRAW_SCALE as int,
    )
}

/// Height of the upper obstacle: from the gap's upper edge to the window's
/// top.
pub open spec fn spec_top_height(window_height: int, hole_center: int) -> int {
    window_height - (hole_center + HALF_PIPE_SPACING)
}

/// Height of the lower obstacle: from the window's bottom to the gap's lower
/// edge.
pub open spec fn spec_bottom_height(hole_center: int) -> int {
    hole_center - HALF_PIPE_SPACING
}

/// The centre of the gap that `draw` picks in a window of height
/// `window_height`. `None` exactly where it is no `i64`.
pub fn hole_center(window_height: i64, draw: u32) -> (r: Option<i64>)
    ensures
        r.is_some() <==> in_i64(spec_hole_center(window_height as int, draw)),
        r matches Some(c) ==> c == spec_hole_center(window_height as int, draw),
{
    let space: i128 = (window_height as i128) - 2 * (HOLE_OFFSET as i128);
    let steps: i128 = (draw / 256) as i128;
    proof {
        lemma_product_bound(space as int, steps as int, 0x1_0000_0000_0000_0000, 0x100_0000);
    }
    let part: i128 = (space * steps) / (DRAW_SCALE as i128);
    let center: i128 = (HOLE_OFFSET as i128) + part;
    if center < (i64::MIN as i128) || center > (i64::MAX as i128) {
        None
    } else {
        Some(center as i64)
    }
}

/// Heights of the upper and the lower obstacle round a gap centred at
/// `hole_center`. `None` exactly where one of them is no `i64`.
pub fn pipe_heights(window_height: i64, hole_center: i64) -> (r: Option<(i64, i64)>)
    ensures
        r.is_some() <==> in_i64(spec_top_height(window_height as int, hole_center as int))
            && in_i64(spec_bottom_height(hole_center as int)),
        r matches Some(h) ==> h.0 == spec_top_height(window_height as int, hole_center as int)
            && h.1 == spec_bottom_height(hole_center as int),
{
    let top: i128 = (window_height as i128) - ((hole_center as i128) + (HALF_PIPE_SPACING as i128));
    let bottom: i128 = (hole_center as i128) - (HALF_PIPE_SPACING as i128);
    if top < (i64::MIN as i128) || top > (i64::MAX as i128) || bottom < (i64::MIN as i128)
        || bottom > (i64::MAX as i128) {
        None
    } else {
        Some((top as i64, bottom as i64))
    }
}

/// The pair of obstacles that `draw` picks, upper first: `None` where the
/// gap's centre, a height or the horizontal position is no `i64`.
pub open spec fn spec_spawn_pair(camera_translation: Vec3, window: Window, draw: u32) -> Option<
    (PipeBundle, PipeBundle),
> {
    let center = spec_hole_center(window.height as int, draw);
    let top = spec_top_height(window.height as int, center);
    let bottom = spec_bottom_height(center);
    if in_i64(center) && in_i64(top) && in_i64(bottom) && in_i64(
        spec_pipe_x(camera_translation.x as int, window.width as int),
    ) {
        Some(
            (
                spec_pipe(
                    top as i64,
                    PipePosition::Top,
                    camera_translation,
                    window.height,
                    window.width,
                ),
                spec_pipe(
                    bottom as i64,
                    PipePosition::Bottom,
                    camera_translation,
                    window.height,
                    window.width,
                ),
            ),
        )
    } else {
        None
    }
}

/// The two obstacles of one spawn, upper first, for a camera at
/// `camera_translation`.
pub fn spawn_pair(camera_translation: Vec3, window: Window, draw: u32) -> (r: Option<
    (PipeBundle, PipeBundle),
>)
    ensures
        r == spec_spawn_pair(camera_translation, window, draw),
{
    let center = match hole_center(window.height, draw) {
        Some(c) => c,
        None => { return None; },
    };
    let (top, bottom) = match pipe_heights(window.height, center) {
        Some(h) => h,
        None => { return None; },
    };
    let upper = get_pipe_from_position_and_size(
        top,
        PipePosition::Top,
        camera_translation,
        window.height,
        window.width,
    );
    let lower = get_pipe_from_position_and_size(
        bottom,
        PipePosition::Bottom,
        camera_translation,
        window.height,
        window.width,
    );
    match (upper, lower) {
        (Some(u), Some(l)) => Some((u, l)),
        _ => None,
    }
}

impl PipeBundle {
    /// The entity that the bundle makes.
    pub open spec fn spec_entity(self) -> Entity {
        Entity {
            transform: Some(self.transform),
            velocity: None,
            acceleration: None,
            collider: Some(self.collider),
            size: self.size,
            birb: None,
            camera: None,
            pipe: Some(self.pipe),
        }
    }

    pub fn entity(self) -> (e: Entity)
        ensures
            e == self.spec_entity(),
    {
        Entity {
            transform: Some(self.transform),
            velocity: None,
            acceleration: None,
            collider: Some(self.collider),
            size: self.size,
            birb: None,
            camera: None,
            pipe: Some(self.pipe),
        }
    }
}

/// Microseconds from one spawn to the next.
pub const SPAWN_PERIOD: u32 = 1_600_000;

/// A timer that finishes every `SPAWN_PERIOD` and starts again at once,
/// keeping what time was over.
#[derive(Clone, Copy, Debug, PartialEq, Eq, Structural)]
pub struct SpawnTimer {
    /// Microseconds since the timer last finished.
    pub elapsed: u32,
    /// Whether the last tick finished a period.
    pub just_finished: bool,
}

impl SpawnTimer {
    /// The timer after `dt` more microseconds.
    pub open spec fn spec_tick(self, dt: u32) -> SpawnTimer {
        SpawnTimer {
            elapsed: ((self.elapsed + dt) % (SPAWN_PERIOD as int)) as u32,
            just_finished: self.elapsed + dt >= SPAWN_PERIOD,
        }
    }

    pub fn new() -> (t: SpawnTimer)
        ensures
            t == (SpawnTimer { elapsed: 0, just_finished: false }),
    {
        SpawnTimer { elapsed: 0, just_finished: false }
    }

    /// Advances the timer by `dt` microseconds.
    pub fn tick(&mut self, dt: u32)
        ensures
            *final(self) == old(self).spec_tick(dt),
    {
        let total: u64 = (self.elapsed as u64) + (dt as u64);
        self.just_finished = total >= (SPAWN_PERIOD as u64);
        self.elapsed = (total % (SPAWN_PERIOD as u64)) as u32;
    }
}

/// When the next pair of obstacles is due.
#[derive(Clone, Copy, Debug, PartialEq, Eq, Structural)]
pub struct PipeSpawnConfig {
    pub timer: SpawnTimer,
}

impl Default for PipeSpawnConfig {
    fn default() -> (c: PipeSpawnConfig)
        ensures
            c.timer == (SpawnTimer { elapsed: 0, just_finished: false }),
    {
        PipeSpawnConfig { timer: SpawnTimer::new() }
    }
}

/// The world after a spawn that `draw` decides: the pair's two entities in
/// two new slots, upper first, where the camera is found, a window is there
/// and the pair can be placed; else the world as it was.
pub open spec fn spec_place_pair(
    world: Seq<Option<Entity>>,
    game: Game,
    window: Option<Window>,
    draw: u32,
) -> Seq<Option<Entity>> {
    match (spec_camera_transform(world, game), window) {
        (Some(camera), Some(w)) => match spec_spawn_pair(camera.translation, w, draw) {
            Some((top, bottom)) => world.push(Some(top.spec_entity())).push(
                Some(bottom.spec_entity()),
            ),
            None => world,
        },
        _ => world,
    }
}

/// Performs the spawn that `draw` decides, and says whether a pair was
/// made.
pub fn place_pair(world: &mut World, game: &Game, window: Option<Window>, draw: u32) -> (spawned:
    bool)
    ensures
        final(world)@ == spec_place_pair(old(world)@, *game, window, draw),
        spawned <==> final(world)@.len() == old(world)@.len() + 2,
{
    let camera = match camera_transform(world, game) {
        Some(c) => c,
        None => { return false; },
    };
    let w = match window {
        Some(w) => w,
        None => { return false; },
    };
    match spawn_pair(camera.translation, w, draw) {
        Some((top, bottom)) => {
            world.spawn(top.entity());
            world.spawn(bottom.entity());
            true
        },
        None => false,
    }
}

/// Spawns obstacles shortly before they come into view: advances the timer
/// by `dt`, and where that finishes a period, draws a gap and places one
/// pair.
pub fn spawn_pipes(
    world: &mut World,
    game: &Game,
    config: &mut PipeSpawnConfig,
    dt: u32,
    window: Option<Window>,
) -> (spawned: bool)
    ensures
        final(config).timer == old(config).timer.spec_tick(dt),
        !final(config).timer.just_finished ==> final(world)@ == old(world)@,
        final(config).timer.just_finished ==> exists|draw: u32|
            final(world)@ == spec_place_pair(old(world)@, *game, window, draw),
        spawned <==> final(world)@.len() == old(world)@.len() + 2,
        !spawned ==> final(world)@ == old(world)@,
{
    config.timer.tick(dt);
    if config.timer.just_finished {
        let draw = random_bits();
        place_pair(world, game, window, draw)
    } else {
        false
    }
}

/// An obstacle centred at `x` has wholly left what a camera at `camera_x`
/// sees in a window `window_width` wide: its right edge is left of the
/// window's left edge.
pub open spec fn spec_out_of_view(x: int, camera_x: int, window_width: int) -> bool {
    x < camera_x - spec_half(window_width) - HALF_PIPE_WIDTH
}

pub fn out_of_view(x: i64, camera_x: i64, window_width: i64) -> (r: bool)
    ensures
        r == spec_out_of_view(x as int, camera_x as int, window_width as int),
{
    let edge: i128 = (camera_x as i128) - (half(window_width) as i128) - (HALF_PIPE_WIDTH as i128);
    (x as i128) < edge
}

/// What becomes of one slot when obstacles are removed: an obstacle with a
/// transform that is out of view leaves it empty; all else stays, and
/// everything stays where the camera or the window is missing.
pub open spec fn spec_despawn_slot(
    slot: Option<Entity>,
    camera: Option<Transform>,
    window: Option<Window>,
) -> Option<Entity> {
    match (slot, camera, window) {
        (Some(e), Some(c), Some(w)) => match (e.pipe, e.transform) {
            (Some(_), Some(t)) => if spec_out_of_view(
                t.translation.x as int,
                c.translation.x as int,
                w.width as int,
            ) {
                None
            } else {
                slot
            },
            _ => slot,
        },
        _ => slot,
    }
}

/// The world after the obstacles that are out of view have been removed.
pub open spec fn spec_despawn_pipes(
    world: Seq<Option<Entity>>,
    game: Game,
    window: Option<Window>,
) -> Seq<Option<Entity>> {
    Seq::new(
        world.len(),
        |i: int| spec_despawn_slot(world[i], spec_camera_transform(world, game), window),
    )
}

fn despawn_slot(slot: Option<Entity>, camera: Option<Transform>, window: Option<Window>) -> (r:
    Option<Entity>)
    ensures
        r == spec_despawn_slot(slot, camera, window),
{
    match (slot, camera, window) {
        (Some(e), Some(c), Some(w)) => match (e.pipe, e.transform) {
            (Some(_), Some(t)) => if out_of_view(t.translation.x, c.translation.x, w.width) {
                None
            } else {
                slot
            },
            _ => slot,
        },
        _ => slot,
    }
}

/// Removes every obstacle that has wholly left the view on the left.
pub fn despawn_pipes(world: &mut World, game: &Game, window: Option<Window>)
    ensures
        final(world)@ == spec_despawn_pipes(old(world)@, *game, window),
{
    let camera = camera_transform(world, game);
    let n = world.slots.len();
    let mut i: usize = 0;
    while i < n
        invariant
            i <= n,
            n == old(world)@.len(),
            world@.len() == n,
            camera == spec_camera_transform(old(world)@, *game),
            forall|j: int| 0 <= j < i ==> world@[j] == spec_despawn_slot(old(world)@[j], camera, window),
            forall|j: int| i <= j < n ==> world@[j] == old(world)@[j],
        decreases n - i,
    {
        let next = despawn_slot(world.slots[i], camera, window);
        world.slots.set(i, next);
        i += 1;
    }
    assert(world@ =~= spec_despawn_pipes(old(world)@, *game, window));
}

/// The two obstacles of a pair and the gap between them fill the window's
/// height exactly.
pub proof fn lemma_pair_fills_window(camera_translation: Vec3, window: Window, draw: u32)
    ensures
        spec_spawn_pair(camera_translation, window, draw) matches Some(pair) ==> (
        pair.0.size matches Some(top) && pair.1.size matches Some(bottom) && top.height
            + bottom.height + PIPE_SPACING == window.height),
        forall|center: int|
            spec_top_height(window.height as int, center) + spec_bottom_height(center)
                + PIPE_SPACING == window.height,
{
}

/// In a window that has room for a pair, the gap's centre keeps
/// `HOLE_OFFSET` from the bottom and from the top, so that neither obstacle
/// is lower than `MIN_PIPE_HEIGHT`.
pub proof fn lemma_hole_center_in_band(window_height: i64, draw: u32)
    requires
        window_height >= 2 * HOLE_OFFSET,
    ensures
        HOLE_OFFSET <= spec_hole_center(window_height as int, draw) <= window_height - HOLE_OFFSET,
        spec_top_height(
            window_height as int,
            spec_hole_center(window_height as int, draw),
        ) >= MIN_PIPE_HEIGHT,
        spec_bottom_height(spec_hole_center(window_height as int, draw)) >= MIN_PIPE_HEIGHT,
{
    let space = spec_consumable_space(window_height as int);
    let steps = spec_draw_steps(draw);
    assert(0 <= space * steps <= space * 16_777_216) by (nonlinear_arith)
        requires
            0 <= space,
            0 <= steps <= 16_777_216,
    ;
    assert(0 <= (space * steps) / 16_777_216 <= space) by (nonlinear_arith)
        requires
            0 <= space * steps <= space * 16_777_216,
    ;
}

/// An obstacle whose centre is exactly half a window and half an obstacle
/// left of the camera stays; one position unit further left it is out of
/// view.
pub proof fn lemma_despawn_boundary(camera_x: int, window_width: int)
    ensures
        !spec_out_of_view(
            camera_x - spec_half(window_width) - HALF_PIPE_WIDTH,
            camera_x,
            window_width,
        ),
        spec_out_of_view(
            camera_x - spec_half(window_width) - HALF_PIPE_WIDTH - 1,
            camera_x,
            window_width,
        ),
{
}

/// Removing the obstacles that are out of view a second time removes
/// nothing more.
pub proof fn lemma_despawn_idempotent(
    world: Seq<Option<Entity>>,
    game: Game,
    window: Option<Window>,
)
    ensures
        spec_despawn_pipes(spec_despawn_pipes(world, game, window), game, window)
            == spec_despawn_pipes(world, game, window),
{
    let once = spec_despawn_pipes(world, game, window);
    let twice = spec_despawn_pipes(once, game, window);
    let camera = spec_camera_transform(world, game);
    let camera_after = spec_camera_transform(once, game);
    assert(camera_after == camera || camera_after.is_none());
    assert forall|i: int| 0 <= i < once.len() implies twice[i] == once[i] by {
        assert(once[i] == spec_despawn_slot(world[i], camera, window));
    }
    assert(twice =~= once);
}

/// Each time the timer finishes it uses up a whole period of the time that
/// was given to it: over any run of ticks it finishes at most once for each
/// period that has passed.
pub proof fn lemma_tick_pays_a_period(timer: SpawnTimer, dt: u32)
    ensures
        timer.spec_tick(dt).elapsed < SPAWN_PERIOD,
        timer.spec_tick(dt).just_finished ==> timer.spec_tick(dt).elapsed + SPAWN_PERIOD
            <= timer.elapsed + dt,
        !timer.spec_tick(dt).just_finished ==> timer.spec_tick(dt).elapsed == timer.elapsed + dt,
{
}

} // verus!
