//! A fixed-timestep isometric tile renderer: a land grid of animated tiles,
//! an isometric projector that composites each tile's current frame into a
//! pixel buffer, and a frame clock that paces the loop and reports fps.

use vstd::prelude::*;

pub mod clock;
pub mod driver;
pub mod grid;
pub mod iso;
pub mod tile;

verus! {

/// Width of the pixel buffer, in pixels.
pub const SCREEN_WIDTH: usize = 1920;

/// Height of the pixel buffer, in pixels.
pub const SCREEN_HEIGHT: usize = 1080;

/// Desired number of presented frames per second.
pub const TARGET_FPS: u64 = 60;

/// Wall-clock budget of one presented frame, in microseconds.
pub const TARGET_FRAME_MICROS: u64 = 1000000 / TARGET_FPS;

/// How long one animation frame of a tile stays on screen, in microseconds.
pub const FRAME_TIME_MICROS: u64 = 500000;

} // verus!
