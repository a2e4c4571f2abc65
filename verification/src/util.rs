//! The rectangle of one obstacle.
use vstd::prelude::*;
use crate::physics::Vec3;
use crate::pipes::{Pipe, PipeBundle, PipePosition, HALF_PIPE_WIDTH, PIPE_WIDTH};
use crate::world::{Collider, Size, Transform};

verus! {

/// `a / d` rounded toward zero, for a positive `d`.
pub open spec fn spec_toward_zero(a: int, d: int) -> int {
    if a >= 0 {
        a / d
    } else {
        -((-a) / d)
    }
}

/// Half of `x`, rounded toward zero.
pub open spec fn spec_half(x: int) -> int {
    spec_toward_zero(x, 2)
}

pub fn half(x: i64) -> (r: i64)
    ensures
        r == spec_half(x as int),
{
    x / 2
}

/// Vertical position of the centre of an obstacle of height `size` that
/// hangs from the top of the window, or stands on its bottom. The window's
/// middle is at height zero.
pub open spec fn spec_pipe_y(size: int, pos: PipePosition, window_height: int) -> int {
    match pos {
        PipePosition::Top => spec_half(window_height) - spec_half(size),
        PipePosition::Bottom => -spec_half(window_height) + spec_half(size),
    }
}

/// Horizontal position of the centre of a new obstacle: its left edge is the
/// right edge of what the camera sees.
pub open spec fn spec_pipe_x(camera_x: int, window_width: int) -> int {
    camera_x + spec_half(window_width) + HALF_PIPE_WIDTH
}

/// The obstacle of height `size` at `pos`, where its horizontal position is
/// an `i64`.
pub open spec fn spec_pipe(
    size: i64,
    pos: PipePosition,
    camera_translation: Vec3,
    window_height: i64,
    window_width: i64,
) -> PipeBundle {
    PipeBundle {
        transform: Transform {
            translation: Vec3 {
                x: spec_pipe_x(camera_translation.x as int, window_width as int) as i64,
                y: spec_pipe_y(size as int, pos, window_height as int) as i64,
                z: camera_translation.z,
            },
            rotation: 0,
        },
        size: Some(Size { width: PIPE_WIDTH, height: size }),
        collider: Collider { half_width: HALF_PIPE_WIDTH, half_height: spec_half(size as int) as i64 },
        pipe: Pipe { position: pos },
    }
}

/// The rectangle of an obstacle of height `size`: as wide as every obstacle,
/// flush with the window's top or bottom, just right of what the camera
/// sees, at the camera's depth. `None` exactly where its horizontal position
/// is no `i64`.
pub fn get_pipe_from_position_and_size(
    size: i64,
    pos: PipePosition,
    camera_translation: Vec3,
    window_height: i64,
    window_width: i64,
) -> (r: Option<PipeBundle>)
    ensures
        r.is_some() <==> i64::MIN <= spec_pipe_x(
            camera_translation.x as int,
            window_width as int,
        ) <= i64::MAX,
        r matches Some(b) ==> b == spec_pipe(
            size,
            pos,
            camera_translation,
            window_height,
            window_width,
        ),
{
    let pipe_y_pos: i64 = match pos {
        PipePosition::Top => half(window_height) - half(size),
        PipePosition::Bottom => -half(window_height) + half(size),
    };
    let x: i128 = (camera_translation.x as i128) + (half(window_width) as i128) + (
    HALF_PIPE_WIDTH as i128);
    if x < (i64::MIN as i128) || x > (i64::MAX as i128) {
        return None;
    }
    Some(
        PipeBundle {
            pipe: Pipe::new(pos),
            collider: Collider { half_width: half(PIPE_WIDTH), half_height: half(size) },
            size: Some(Size { width: PIPE_WIDTH, height: size }),
            transform: Transform {
                translation: Vec3::new(x as i64, pipe_y_pos, camera_translation.z),
                rotation: 0,
            },
        },
    )
}

} // verus!
