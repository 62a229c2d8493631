//! The descending obstacles and the controlled player: a single-cell body,
//! a stored direction, an alive/dead state, and the collision test that ends
//! a run.

use vstd::prelude::*;
use crate::grid::{
    approx_eq, is_approx_equal, moved_position, Direction, GridPosition, GRID_HEIGHT, GRID_WIDTH,
};

verus! {

/// How close (per axis) an obstacle must be to the player's cell to count as
/// a hit: with tolerance 1, adjacency is already fatal.
pub const COLLISION_TOLERANCE: i16 = 1;

/// A hazard occupying one grid cell; it descends one row per tick. A pure
/// value with no identity beyond its position: duplicates are harmless.
#[derive(Clone, Copy, Debug, PartialEq, Eq, Hash, Structural)]
pub struct Obstacle {
    pub pos: GridPosition,
}

impl Obstacle {
    pub fn new(pos: GridPosition) -> (r: Obstacle)
        ensures
            r == (Obstacle { pos }),
    {
        Obstacle { pos }
    }
}

/// The player's single-cell body.
#[derive(Clone, Copy, Debug, PartialEq, Eq, Hash, Structural)]
pub struct Segment {
    pub pos: GridPosition,
}

impl Segment {
    pub fn new(pos: GridPosition) -> (r: Segment)
        ensures
            r == (Segment { pos }),
    {
        Segment { pos }
    }

    pub fn update(&mut self, dir: Direction)
        requires
            dir == Direction::Left ==> old(self).pos.x > i16::MIN,
            dir == Direction::Right ==> old(self).pos.x < i16::MAX,
        ensures
            final(self).pos == moved_position(old(self).pos, dir),
    {
        self.pos = GridPosition::new_for_move(self.pos, dir);
    }
}

#[derive(Clone, Copy, Debug, PartialEq, Eq, Hash, Structural)]
pub enum PlayerState {
    Alive,
    Dead,
}

/// The controlled entity: one grid cell, a current direction, and an
/// alive/dead state. `Alive` to `Dead` is the only transition.
#[derive(Clone, Copy, Debug, PartialEq, Eq, Hash, Structural)]
pub struct Player {
    pub body: Segment,
    pub dir: Direction,
    pub state: PlayerState,
}

/// Whether some obstacle lies within the tolerance of the given cell.
pub open spec fn hits_any(pos: GridPosition, obstacles: Seq<Obstacle>, tolerance: int) -> bool {
    exists|i: int| 0 <= i < obstacles.len() && approx_eq(pos, #[trigger] obstacles[i].pos, tolerance)
}

/// The fixed cell where a run begins and where the player is put back on
/// death: the horizontal center of the bottom row.
pub open spec fn start_position() -> GridPosition {
    GridPosition { x: (GRID_WIDTH / 2) as i16, y: (GRID_HEIGHT - 1) as i16 }
}

/// The player after one update: first the body moves one step in `dir` and
/// the direction is stored; then, if some obstacle is within the tolerance of
/// the new cell, the player is marked Dead, put back at the start cell, and
/// its direction cleared. The state is otherwise kept, so Dead is permanent.
pub open spec fn player_after_update(
    p: Player,
    dir: Direction,
    obstacles: Seq<Obstacle>,
    tolerance: int,
) -> Player {
    let moved = Player {
        body: Segment { pos: moved_position(p.body.pos, dir) },
        dir: dir,
        state: p.state,
    };
    if hits_any(moved.body.pos, obstacles, tolerance) {
        Player {
            body: Segment { pos: start_position() },
            dir: Direction::Still,
            state: PlayerState::Dead,
        }
    } else {
        moved
    }
}

impl Player {
    pub fn new(pos: GridPosition) -> (r: Player)
        ensures
            r == (Player {
                body: Segment { pos },
                dir: Direction::Still,
                state: PlayerState::Alive,
            }),
    {
        Player { body: Segment::new(pos), dir: Direction::Still, state: PlayerState::Alive }
    }

    /// A direction change is accepted unconditionally, at any point between
    /// ticks; on an already-Dead player it is a harmless field write.
    pub fn set_direction(&mut self, dir: Direction)
        ensures
            final(self).dir == dir,
            final(self).body == old(self).body,
            final(self).state == old(self).state,
    {
        self.dir = dir;
    }

    /// Whether this tick kills the player: true exactly when some obstacle is
    /// within the tolerance of the player's cell on both axes.
    pub fn die(&self, obstacles: &[Obstacle], tolerance: i16) -> (r: bool)
        ensures
            r == hits_any(self.body.pos, obstacles@, tolerance as int),
    {
        let n = obstacles.len();
        let mut i: usize = 0;
        while i < n
            invariant
                i <= n,
                n == obstacles@.len(),
                forall|j: int|
                    0 <= j < i ==> !approx_eq(self.body.pos, #[trigger] obstacles@[j].pos, tolerance as int),
            decreases n - i,
        {
            if is_approx_equal(self.body.pos, obstacles[i].pos, tolerance) {
                return true;
            }
            i = i + 1;
        }
        false
    }

    /// One player tick: move in `dir`, store `dir`, then test collision
    /// against the obstacle collection as it stands; a hit kills the player
    /// and puts it back at the start cell with its direction cleared.
    pub fn update(&mut self, dir: Direction, obstacles: &[Obstacle])
        requires
            dir == Direction::Left ==> old(self).body.pos.x > i16::MIN,
            dir == Direction::Right ==> old(self).body.pos.x < i16::MAX,
        ensures
            *final(self) == player_after_update(
                *old(self),
                dir,
                obstacles@,
                COLLISION_TOLERANCE as int,
            ),
    {
        self.body.update(dir);
        self.dir = dir;
        if self.die(obstacles, COLLISION_TOLERANCE) {
            self.state = PlayerState::Dead;
            self.body.pos = GridPosition::new(GRID_WIDTH / 2, GRID_HEIGHT - 1);
            self.dir = Direction::Still;
        }
    }
}

/// An obstacle within the collision tolerance of the cell the player moves
/// into always ends the run: the updated player is Dead.
pub proof fn lemma_collision_kills(p: Player, dir: Direction, obstacles: Seq<Obstacle>)
    requires
        hits_any(moved_position(p.body.pos, dir), obstacles, COLLISION_TOLERANCE as int),
    ensures
        player_after_update(p, dir, obstacles, COLLISION_TOLERANCE as int).state
            == PlayerState::Dead,
{
}

/// With every obstacle strictly outside the collision tolerance of the cell
/// the player moves into, the update keeps the player's state: an Alive
/// player stays Alive.
pub proof fn lemma_no_collision_keeps_state(p: Player, dir: Direction, obstacles: Seq<Obstacle>)
    requires
        !hits_any(moved_position(p.body.pos, dir), obstacles, COLLISION_TOLERANCE as int),
    ensures
        player_after_update(p, dir, obstacles, COLLISION_TOLERANCE as int).state == p.state,
        player_after_update(p, dir, obstacles, COLLISION_TOLERANCE as int).body.pos
            == moved_position(p.body.pos, dir),
{
}

} // verus!
