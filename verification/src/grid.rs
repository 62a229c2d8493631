//! The discrete play field: grid dimensions, integer cell coordinates,
//! horizontal movement intents, and the adjacency test used for collisions.

use vstd::prelude::*;
use crate::rng::{fresh_rng, gen_range_i16};

verus! {

/// Number of columns in the play field.
pub const GRID_WIDTH: i16 = 30;

/// Number of rows in the play field.
pub const GRID_HEIGHT: i16 = 20;

/// Width of one grid cell in screen pixels.
pub const GRID_CELL_WIDTH: i16 = 32;

/// Height of one grid cell in screen pixels.
pub const GRID_CELL_HEIGHT: i16 = 32;

/// An integer (column, row) address into the play field. Out-of-range values
/// are legal transient states (one column beyond an edge before the bounce
/// correction applies), so the fields are not clamped.
#[derive(Clone, Copy, Debug, PartialEq, Eq, Hash, Structural)]
pub struct GridPosition {
    pub x: i16,
    pub y: i16,
}

/// A horizontal movement intent: `Still` means no horizontal motion this tick.
#[derive(Clone, Copy, Debug, PartialEq, Eq, Hash, Structural)]
pub enum Direction {
    Left,
    Right,
    Still,
}

/// The screen-space rectangle covered by one grid cell, in pixels.
#[derive(Clone, Copy, Debug, PartialEq, Eq, Hash, Structural)]
pub struct ScreenRect {
    pub x: i32,
    pub y: i32,
    pub w: i32,
    pub h: i32,
}

/// Where a position lands after one step in the given direction: `Left`
/// decrements the column, `Right` increments it, `Still` leaves it unchanged.
/// Rows never change through horizontal movement.
pub open spec fn moved_position(pos: GridPosition, dir: Direction) -> GridPosition {
    match dir {
        Direction::Left => GridPosition { x: (pos.x - 1) as i16, y: pos.y },
        Direction::Right => GridPosition { x: (pos.x + 1) as i16, y: pos.y },
        Direction::Still => pos,
    }
}

pub open spec fn abs_diff(a: int, b: int) -> int {
    if a >= b {
        a - b
    } else {
        b - a
    }
}

/// Two cells are approximately equal when both coordinate distances are
/// within the tolerance; with tolerance 1, adjacency counts as a hit.
pub open spec fn approx_eq(p1: GridPosition, p2: GridPosition, tolerance: int) -> bool {
    abs_diff(p1.x as int, p2.x as int) <= tolerance
        && abs_diff(p1.y as int, p2.y as int) <= tolerance
}

impl GridPosition {
    pub fn new(x: i16, y: i16) -> (r: GridPosition)
        ensures
            r == (GridPosition { x, y }),
    {
        GridPosition { x, y }
    }

    /// A uniformly random cell of the play field.
    pub fn random() -> (r: GridPosition)
        ensures
            0 <= r.x < GRID_WIDTH,
            0 <= r.y < GRID_HEIGHT,
    {
        let mut rng = fresh_rng();
        let x = gen_range_i16(&mut rng, 0, GRID_WIDTH);
        let y = gen_range_i16(&mut rng, 0, GRID_HEIGHT);
        GridPosition { x, y }
    }

    pub fn new_for_move(pos: GridPosition, dir: Direction) -> (r: GridPosition)
        requires
            dir == Direction::Left ==> pos.x > i16::MIN,
            dir == Direction::Right ==> pos.x < i16::MAX,
        ensures
            r == moved_position(pos, dir),
    {
        match dir {
            Direction::Left => GridPosition::new(pos.x - 1, pos.y),
            Direction::Right => GridPosition::new(pos.x + 1, pos.y),
            Direction::Still => pos,
        }
    }

    /// The screen rectangle of this cell:
    /// `(x * cell width, y * cell height, cell width, cell height)`.
    pub fn screen_rect(self) -> (r: ScreenRect)
        ensures
            r.x as int == self.x as int * GRID_CELL_WIDTH as int,
            r.y as int == self.y as int * GRID_CELL_HEIGHT as int,
            r.w == GRID_CELL_WIDTH as i32,
            r.h == GRID_CELL_HEIGHT as i32,
    {
        ScreenRect {
            x: self.x as i32 * GRID_CELL_WIDTH as i32,
            y: self.y as i32 * GRID_CELL_HEIGHT as i32,
            w: GRID_CELL_WIDTH as i32,
            h: GRID_CELL_HEIGHT as i32,
        }
    }
}

/// Whether two cells are within the tolerance of each other on both axes.
pub fn is_approx_equal(pos1: GridPosition, pos2: GridPosition, tolerance: i16) -> (r: bool)
    ensures
        r == approx_eq(pos1, pos2, tolerance as int),
{
    let dx = pos1.x as i32 - pos2.x as i32;
    let dy = pos1.y as i32 - pos2.y as i32;
    let adx = if dx >= 0 { dx } else { -dx };
    let ady = if dy >= 0 { dy } else { -dy };
    adx <= tolerance as i32 && ady <= tolerance as i32
}

} // verus!
