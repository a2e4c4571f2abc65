//! The rules of a side-scrolling flapping game, without the engine that
//! draws it: gravity and motion, the character's tilt, the jump, the camera,
//! and the obstacles that come and go.
pub mod birb;
mod chance;
pub mod frame;
pub mod physics;
pub mod pipes;
pub mod util;
pub mod world;

pub use crate::pipes::{
    PipeBundle, PipePosition, HALF_PIPE_SPACING, HALF_PIPE_WIDTH, HOLE_OFFSET, MIN_PIPE_HEIGHT,
    PIPE_SPACING, PIPE_WIDTH,
};
