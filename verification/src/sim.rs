//! The simulation: owns the player and the obstacle collection, advances the
//! whole world exactly one tick at a time, and tracks the score.
//!
//! Tick ordering, applied atomically by `tick_with`:
//! 1. every obstacle descends one row;
//! 2. every obstacle at or beyond the bottom row is removed;
//! 3. at most one new obstacle appears at row 0;
//! 4. the stored direction is bounce-corrected at the grid edges (the flip
//!    happens before the move, so a player resting one cell beyond an edge
//!    turns around without stepping further out);
//! 5. the player moves by the corrected direction and is tested against the
//!    post-advance, post-cull, post-spawn obstacles;
//! 6. if the player is Alive after all that, the score grows by the fixed
//!    increment.

use vstd::prelude::*;
use crate::grid::{moved_position, Direction, GridPosition, GRID_HEIGHT, GRID_WIDTH};
use crate::player::{
    hits_any, player_after_update, start_position, Obstacle, Player, PlayerState, Segment,
    COLLISION_TOLERANCE,
};
use crate::rng::{fresh_rng, gen_range_i16};

verus! {

/// How much the score grows for each tick survived. The score counts
/// score units, one per tick, so at the fixed logical rate it is
/// proportional to the time survived.
pub const SCORE_INCREMENT: u64 = 1;

/// A spawn happens on one tick in this many, on average.
pub const SPAWN_PERIOD: i16 = 10;

/// An obstacle cell that lies on the play field.
pub open spec fn obstacle_in_grid(o: Obstacle) -> bool {
    &&& 0 <= o.pos.x < GRID_WIDTH
    &&& 0 <= o.pos.y < GRID_HEIGHT
}

pub open spec fn obstacles_in_grid(obstacles: Seq<Obstacle>) -> bool {
    forall|i: int| 0 <= i < obstacles.len() ==> obstacle_in_grid(#[trigger] obstacles[i])
}

/// The obstacle collection after the advance and cull steps: each obstacle
/// one row lower, keeping only those still above the bottom of the grid, in
/// their original order.
pub open spec fn advanced_culled(obstacles: Seq<Obstacle>) -> Seq<Obstacle>
    decreases obstacles.len(),
{
    if obstacles.len() == 0 {
        Seq::<Obstacle>::empty()
    } else {
        let rest = advanced_culled(obstacles.drop_last());
        let last = obstacles.last();
        if last.pos.y + 1 < GRID_HEIGHT {
            rest.push(Obstacle { pos: GridPosition { x: last.pos.x, y: (last.pos.y + 1) as i16 } })
        } else {
            rest
        }
    }
}

/// A freshly spawned obstacle: top row, at the given column.
pub open spec fn spawned_obstacle(column: i16) -> Obstacle {
    Obstacle { pos: GridPosition { x: column, y: 0 } }
}

/// The obstacle collection a tick leaves behind: advanced and culled, plus
/// one spawned obstacle when a spawn happens this tick.
pub open spec fn obstacles_after(obstacles: Seq<Obstacle>, spawn_column: Option<i16>) -> Seq<
    Obstacle,
> {
    match spawn_column {
        Option::Some(c) => advanced_culled(obstacles).push(spawned_obstacle(c)),
        Option::None => advanced_culled(obstacles),
    }
}

/// A spawn decision is valid when the chosen column lies on the grid.
pub open spec fn spawn_in_grid(spawn_column: Option<i16>) -> bool {
    match spawn_column {
        Option::Some(c) => 0 <= c < GRID_WIDTH,
        Option::None => true,
    }
}

/// The boundary bounce: a player that has left the grid on the side it is
/// still heading to turns around; the position itself is untouched, so the
/// turn shows in the move that follows.
pub open spec fn bounced_direction(p: Player) -> Direction {
    if p.body.pos.x < 0 && p.dir == Direction::Left {
        Direction::Right
    } else if p.body.pos.x >= GRID_WIDTH && p.dir == Direction::Right {
        Direction::Left
    } else {
        p.dir
    }
}

/// The player a tick leaves behind: the bounce-corrected direction applied,
/// then the collision test against the tick's final obstacle collection.
pub open spec fn player_after_tick(p: Player, obstacles: Seq<Obstacle>) -> Player {
    player_after_update(p, bounced_direction(p), obstacles, COLLISION_TOLERANCE as int)
}

/// The simulation state. It owns the player and every obstacle exclusively;
/// the presentation layer only reads snapshots through the accessors.
pub struct GameState {
    player: Player,
    obstacles: Vec<Obstacle>,
    score: u64,
}

/// Everything one tick does, as a relation between the state before, the
/// state after, and the tick's spawn decision.
pub open spec fn tick_rel(pre: GameState, post: GameState, spawn_column: Option<i16>) -> bool {
    let obs = obstacles_after(pre.spec_obstacles(), spawn_column);
    let p = player_after_tick(pre.spec_player(), obs);
    &&& post.spec_obstacles() == obs
    &&& post.spec_player() == p
    &&& post.spec_score() == if p.state == PlayerState::Alive {
        pre.spec_score() + SCORE_INCREMENT
    } else {
        pre.spec_score() as int
    }
}

impl GameState {
    pub closed spec fn spec_player(&self) -> Player {
        self.player
    }

    pub closed spec fn spec_obstacles(&self) -> Seq<Obstacle> {
        self.obstacles@
    }

    pub closed spec fn spec_score(&self) -> u64 {
        self.score
    }

    /// Well-formedness, established by the constructors and preserved by
    /// every tick: the player sits on the bottom row, at most one column
    /// beyond a horizontal edge, and every obstacle lies on the grid.
    pub open spec fn wf(&self) -> bool {
        &&& -1 <= self.spec_player().body.pos.x <= GRID_WIDTH
        &&& self.spec_player().body.pos.y == GRID_HEIGHT - 1
        &&& obstacles_in_grid(self.spec_obstacles())
    }

    /// A fresh run: the player Alive at the start cell, score zero, and
    /// exactly one obstacle at the top row in a random column.
    pub fn new() -> (r: GameState)
        ensures
            r.wf(),
            r.spec_player() == (Player {
                body: Segment { pos: start_position() },
                dir: Direction::Still,
                state: PlayerState::Alive,
            }),
            r.spec_score() == 0,
            r.spec_obstacles().len() == 1,
            r.spec_obstacles()[0].pos.y == 0,
            0 <= r.spec_obstacles()[0].pos.x < GRID_WIDTH,
    {
        let player = Player::new(GridPosition::new(GRID_WIDTH / 2, GRID_HEIGHT - 1));
        let mut rng = fresh_rng();
        let column = gen_range_i16(&mut rng, 0, GRID_WIDTH);
        let obstacles = vec![Obstacle::new(GridPosition::new(column, 0))];
        GameState { player, obstacles, score: 0 }
    }

    /// A fresh run seeded with a fixed obstacle collection instead of a
    /// random one, so that whole runs can be reproduced exactly.
    pub fn new_with_obstacles(obstacles: Vec<Obstacle>) -> (r: GameState)
        requires
            obstacles_in_grid(obstacles@),
        ensures
            r.wf(),
            r.spec_player() == (Player {
                body: Segment { pos: start_position() },
                dir: Direction::Still,
                state: PlayerState::Alive,
            }),
            r.spec_score() == 0,
            r.spec_obstacles() == obstacles@,
    {
        let player = Player::new(GridPosition::new(GRID_WIDTH / 2, GRID_HEIGHT - 1));
        GameState { player, obstacles, score: 0 }
    }

    pub fn score(&self) -> (r: u64)
        ensures
            r == self.spec_score(),
    {
        self.score
    }

    pub fn player(&self) -> (r: Player)
        ensures
            r == self.spec_player(),
    {
        self.player
    }

    pub fn obstacles(&self) -> (r: &Vec<Obstacle>)
        ensures
            r@ == self.spec_obstacles(),
    {
        &self.obstacles
    }

    /// Forward a movement intent to the player. Accepted at any time; it
    /// only changes the stored direction.
    pub fn set_direction(&mut self, dir: Direction)
        ensures
            final(self).spec_player() == (Player { dir, ..old(self).spec_player() }),
            final(self).spec_obstacles() == old(self).spec_obstacles(),
            final(self).spec_score() == old(self).spec_score(),
            old(self).wf() ==> final(self).wf(),
    {
        self.player.set_direction(dir);
    }

    /// Steps 1 to 3 of the tick: advance every obstacle one row, drop those
    /// that left the grid, and spawn at the given column if one was drawn.
    fn update_obstacle(&mut self, spawn_column: Option<i16>)
        requires
            obstacles_in_grid(old(self).spec_obstacles()),
            spawn_in_grid(spawn_column),
        ensures
            final(self).spec_obstacles() == obstacles_after(
                old(self).spec_obstacles(),
                spawn_column,
            ),
            obstacles_in_grid(final(self).spec_obstacles()),
            final(self).spec_player() == old(self).spec_player(),
            final(self).spec_score() == old(self).spec_score(),
    {
        let ghost all = self.obstacles@;
        let mut kept: Vec<Obstacle> = Vec::new();
        let n = self.obstacles.len();
        let mut i: usize = 0;
        while i < n
            invariant
                i <= n,
                n == all.len(),
                self.obstacles@ == all,
                obstacles_in_grid(all),
                kept@ == advanced_culled(all.take(i as int)),
                obstacles_in_grid(kept@),
            decreases n - i,
        {
            let o = self.obstacles[i];
            proof {
                assert(all.take(i + 1).drop_last() =~= all.take(i as int));
                assert(all.take(i + 1).last() == o);
            }
            let ny = o.pos.y + 1;
            if ny < GRID_HEIGHT {
                kept.push(Obstacle { pos: GridPosition { x: o.pos.x, y: ny } });
            }
            i = i + 1;
        }
        proof {
            assert(all.take(n as int) =~= all);
        }
        self.obstacles = kept;
        match spawn_column {
            Option::Some(c) => {
                self.obstacles.push(Obstacle { pos: GridPosition { x: c, y: 0 } });
            },
            Option::None => {},
        }
    }

    /// One whole tick with the spawn decision passed in, so that a run is a
    /// pure function of its seed obstacles, its inputs, and these decisions.
    pub fn tick_with(&mut self, spawn_column: Option<i16>)
        requires
            old(self).wf(),
            spawn_in_grid(spawn_column),
            old(self).spec_score() < u64::MAX,
        ensures
            final(self).wf(),
            tick_rel(*old(self), *final(self), spawn_column),
    {
        self.update_obstacle(spawn_column);
        let d: Direction = if self.player.body.pos.x < 0 && self.player.dir == Direction::Left {
            Direction::Right
        } else if self.player.body.pos.x >= GRID_WIDTH && self.player.dir == Direction::Right {
            Direction::Left
        } else {
            self.player.dir
        };
        let mut p = self.player;
        p.update(d, self.obstacles.as_slice());
        self.player = p;
        if self.player.state == PlayerState::Alive {
            self.score = self.score + SCORE_INCREMENT;
        }
    }

    /// One whole tick with the spawn decision drawn from the generator: with
    /// odds of one in `SPAWN_PERIOD`, a spawn at a uniformly random column.
    pub fn tick(&mut self)
        requires
            old(self).wf(),
            old(self).spec_score() < u64::MAX,
        ensures
            final(self).wf(),
            exists|sp: Option<i16>|
                spawn_in_grid(sp) && #[trigger] tick_rel(*old(self), *final(self), sp),
    {
        let mut rng = fresh_rng();
        let roll = gen_range_i16(&mut rng, 0, SPAWN_PERIOD);
        let spawn_column: Option<i16> = if roll == 0 {
            Option::Some(gen_range_i16(&mut rng, 0, GRID_WIDTH))
        } else {
            Option::None
        };
        self.tick_with(spawn_column);
        proof {
            assert(spawn_in_grid(spawn_column) && tick_rel(*old(self), *self, spawn_column));
        }
    }
}

/// Every element the advance-and-cull step leaves behind sits strictly above
/// the bottom of the grid.
pub proof fn lemma_cull_complete(obstacles: Seq<Obstacle>)
    ensures
        forall|i: int|
            0 <= i < advanced_culled(obstacles).len() ==> #[trigger] advanced_culled(
                obstacles,
            )[i].pos.y < GRID_HEIGHT,
    decreases obstacles.len(),
{
    if obstacles.len() > 0 {
        lemma_cull_complete(obstacles.drop_last());
        let rest = advanced_culled(obstacles.drop_last());
        assert forall|i: int|
            0 <= i < advanced_culled(obstacles).len() implies #[trigger] advanced_culled(
            obstacles,
        )[i].pos.y < GRID_HEIGHT by {
            if i < rest.len() {
                assert(advanced_culled(obstacles)[i] == rest[i]);
            }
        }
    }
}

/// Culling invariant: whatever the spawn decision, a completed tick leaves no
/// obstacle at or beyond the bottom row of the grid.
pub proof fn lemma_tick_culls(pre: GameState, post: GameState, spawn_column: Option<i16>)
    requires
        tick_rel(pre, post, spawn_column),
    ensures
        forall|i: int|
            0 <= i < post.spec_obstacles().len() ==> #[trigger] post.spec_obstacles()[i].pos.y
                < GRID_HEIGHT,
{
    lemma_cull_complete(pre.spec_obstacles());
}

/// The advance-and-cull step never adds an obstacle.
pub proof fn lemma_advanced_culled_len(obstacles: Seq<Obstacle>)
    ensures
        advanced_culled(obstacles).len() <= obstacles.len(),
    decreases obstacles.len(),
{
    if obstacles.len() > 0 {
        lemma_advanced_culled_len(obstacles.drop_last());
    }
}

/// With the spawn decision forced off, a tick never increases the obstacle
/// count; over any run of such ticks the count never grows.
pub proof fn lemma_no_spawn_no_growth(pre: GameState, post: GameState)
    requires
        tick_rel(pre, post, Option::None),
    ensures
        post.spec_obstacles().len() <= pre.spec_obstacles().len(),
{
    lemma_advanced_culled_len(pre.spec_obstacles());
}

/// Over any sequence of ticks with the spawn decision forced off, the
/// obstacle count never increases: every state of the run holds at most as
/// many obstacles as the state the run began with.
pub proof fn lemma_no_spawn_run_no_growth(states: Seq<GameState>, i: int)
    requires
        0 <= i < states.len(),
        forall|j: int|
            0 <= j < states.len() - 1 ==> #[trigger] tick_rel(
                states[j],
                states[j + 1],
                Option::None,
            ),
    ensures
        states[i].spec_obstacles().len() <= states[0].spec_obstacles().len(),
    decreases i,
{
    if i > 0 {
        lemma_no_spawn_run_no_growth(states, i - 1);
        assert(tick_rel(states[i - 1], states[(i - 1) + 1], Option::None));
        lemma_no_spawn_no_growth(states[i - 1], states[i]);
    }
}

/// Score monotonicity: a tick the player leaves Alive grows the score by
/// exactly the fixed increment; a Dead player stays Dead and its score is
/// frozen; the score never decreases.
pub proof fn lemma_score_monotone(pre: GameState, post: GameState, spawn_column: Option<i16>)
    requires
        tick_rel(pre, post, spawn_column),
    ensures
        post.spec_player().state == PlayerState::Alive ==> post.spec_score() == pre.spec_score()
            + SCORE_INCREMENT,
        pre.spec_player().state == PlayerState::Dead ==> post.spec_player().state
            == PlayerState::Dead && post.spec_score() == pre.spec_score(),
        post.spec_score() >= pre.spec_score(),
{
}

/// Boundary bounce at the left edge: a player at column -1 still heading
/// Left leaves a collision-free tick heading Right with its column back at 0,
/// never further left.
pub proof fn lemma_left_bounce(pre: GameState, post: GameState, spawn_column: Option<i16>)
    requires
        tick_rel(pre, post, spawn_column),
        pre.spec_player().body.pos.x == -1,
        pre.spec_player().dir == Direction::Left,
        !hits_any(
            moved_position(pre.spec_player().body.pos, Direction::Right),
            obstacles_after(pre.spec_obstacles(), spawn_column),
            COLLISION_TOLERANCE as int,
        ),
    ensures
        post.spec_player().dir == Direction::Right,
        post.spec_player().body.pos.x == 0,
{
}

/// Boundary bounce at the right edge, the mirror image: a player at the grid
/// width still heading Right leaves a collision-free tick heading Left with
/// its column back inside the grid.
pub proof fn lemma_right_bounce(pre: GameState, post: GameState, spawn_column: Option<i16>)
    requires
        tick_rel(pre, post, spawn_column),
        pre.spec_player().body.pos.x == GRID_WIDTH,
        pre.spec_player().dir == Direction::Right,
        !hits_any(
            moved_position(pre.spec_player().body.pos, Direction::Left),
            obstacles_after(pre.spec_obstacles(), spawn_column),
            COLLISION_TOLERANCE as int,
        ),
    ensures
        post.spec_player().dir == Direction::Left,
        post.spec_player().body.pos.x == GRID_WIDTH - 1,
{
}

} // verus!
