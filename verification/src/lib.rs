//! A 2D arcade-physics library: a thrust-driven ball bounces through a
//! tile-based level of walls, mines, pumps, gems and a finish flag, while a
//! camera tracks it across a map larger than the viewport.
//!
//! All coordinates, velocities and sizes are fixed-point integers counted in
//! thousandths of a world unit, so that per-tick impulses and damping rates
//! smaller than one unit stay representable without floating point.

use vstd::prelude::*;

pub mod ball;
pub mod camera;
pub mod controller;
pub mod editor;
pub mod entities;
pub mod game;
pub mod level;
pub mod physics;
pub mod resource;
pub mod scene;
pub mod title;
pub mod util;
pub mod wall;
pub mod vec2;

verus! {

/// Logical width of the viewport, in world units.
pub const WIDTH: u16 = 320;

/// Logical height of the viewport, in world units.
pub const HEIGHT: u16 = 200;

/// Default physical window width, in pixels.
pub const DEFAULT_PHYSICAL_WIDTH: u16 = 960;

/// Default physical window height, in pixels.
pub const DEFAULT_PHYSICAL_HEIGHT: u16 = 600;

/// The screen the root loop is dispatching: the title screen, a running
/// level, the editor (possibly on a file), or shutdown.
#[derive(Debug, Clone, PartialEq, Eq, Hash)]
pub enum GameState {
    Title,
    Game(controller::LevelId),
    Editor(Option<String>),
    Exit,
}

} // verus!
