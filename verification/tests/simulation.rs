use rusty_scape::grid::{
    is_approx_equal, Direction, GridPosition, GRID_HEIGHT, GRID_WIDTH,
};
use rusty_scape::player::{Obstacle, Player, PlayerState, Segment};
use rusty_scape::sim::GameState;
use rusty_scape::timestep::{Timestep, TICK_MILLIS};

fn obstacle_at(x: i16, y: i16) -> Obstacle {
    Obstacle::new(GridPosition::new(x, y))
}

#[test]
fn grid_new_and_move() {
    let p = GridPosition::new(4, 9);
    assert_eq!(p, GridPosition { x: 4, y: 9 });
    assert_eq!(
        GridPosition::new_for_move(p, Direction::Left),
        GridPosition { x: 3, y: 9 }
    );
    assert_eq!(
        GridPosition::new_for_move(p, Direction::Right),
        GridPosition { x: 5, y: 9 }
    );
    assert_eq!(GridPosition::new_for_move(p, Direction::Still), p);
}

#[test]
fn grid_move_crosses_edges() {
    // Out-of-range columns are legal transient values.
    let left_edge = GridPosition::new(0, 19);
    assert_eq!(
        GridPosition::new_for_move(left_edge, Direction::Left),
        GridPosition { x: -1, y: 19 }
    );
    let right_edge = GridPosition::new(GRID_WIDTH - 1, 19);
    assert_eq!(
        GridPosition::new_for_move(right_edge, Direction::Right),
        GridPosition { x: GRID_WIDTH, y: 19 }
    );
}

#[test]
fn grid_random_stays_on_grid() {
    let mut seen_columns = [false; GRID_WIDTH as usize];
    for _ in 0..200 {
        let p = GridPosition::random();
        assert!(0 <= p.x && p.x < GRID_WIDTH);
        assert!(0 <= p.y && p.y < GRID_HEIGHT);
        seen_columns[p.x as usize] = true;
    }
    // A draw that ignored its range and returned a constant would land in
    // one column only; 200 uniform draws over 30 columns do not.
    assert!(seen_columns.iter().filter(|&&s| s).count() > 1);
}

#[test]
fn screen_rect_of_cell() {
    let r = GridPosition::new(3, 2).screen_rect();
    assert_eq!((r.x, r.y, r.w, r.h), (96, 64, 32, 32));
}

#[test]
fn approx_equal_tolerance_one() {
    let center = GridPosition::new(10, 10);
    // Every cell within one column and one row counts as a hit.
    for dx in -1..=1 {
        for dy in -1..=1 {
            assert!(is_approx_equal(
                center,
                GridPosition::new(10 + dx, 10 + dy),
                1
            ));
        }
    }
    assert!(!is_approx_equal(center, GridPosition::new(12, 10), 1));
    assert!(!is_approx_equal(center, GridPosition::new(10, 8), 1));
    assert!(!is_approx_equal(center, GridPosition::new(12, 12), 1));
    // Tolerance 0 is exact overlap only.
    assert!(is_approx_equal(center, center, 0));
    assert!(!is_approx_equal(center, GridPosition::new(11, 10), 0));
}

#[test]
fn segment_update_moves_one_step() {
    let mut s = Segment::new(GridPosition::new(5, 19));
    s.update(Direction::Right);
    assert_eq!(s.pos, GridPosition { x: 6, y: 19 });
    s.update(Direction::Left);
    s.update(Direction::Left);
    assert_eq!(s.pos, GridPosition { x: 4, y: 19 });
}

#[test]
fn player_starts_alive_and_still() {
    let p = Player::new(GridPosition::new(15, 19));
    assert_eq!(p.body.pos, GridPosition { x: 15, y: 19 });
    assert_eq!(p.dir, Direction::Still);
    assert_eq!(p.state, PlayerState::Alive);
}

#[test]
fn die_detects_adjacent_obstacle() {
    let p = Player::new(GridPosition::new(10, 19));
    assert!(!p.die(&[], 1));
    assert!(p.die(&[obstacle_at(11, 18)], 1));
    assert!(!p.die(&[obstacle_at(12, 19)], 1));
    assert!(p.die(&[obstacle_at(12, 19), obstacle_at(10, 18)], 1));
}

#[test]
fn collision_kills_and_resets() {
    // An obstacle within one cell of the moved-to position ends the run.
    let mut p = Player::new(GridPosition::new(10, 19));
    p.update(Direction::Still, &[obstacle_at(11, 19)]);
    assert_eq!(p.state, PlayerState::Dead);
    assert_eq!(p.body.pos, GridPosition { x: 15, y: 19 });
    assert_eq!(p.dir, Direction::Still);
}

#[test]
fn no_collision_keeps_player_alive() {
    // Every obstacle more than one cell away on some axis: the run goes on.
    let mut p = Player::new(GridPosition::new(10, 19));
    p.update(Direction::Still, &[obstacle_at(13, 19), obstacle_at(10, 16)]);
    assert_eq!(p.state, PlayerState::Alive);
    assert_eq!(p.body.pos, GridPosition { x: 10, y: 19 });
}

#[test]
fn fresh_game_is_seeded() {
    for _ in 0..50 {
        let g = GameState::new();
        assert_eq!(g.score(), 0);
        assert_eq!(g.player().state, PlayerState::Alive);
        assert_eq!(g.player().body.pos, GridPosition { x: 15, y: 19 });
        assert_eq!(g.player().dir, Direction::Still);
        assert_eq!(g.obstacles().len(), 1);
        let o = g.obstacles()[0];
        assert_eq!(o.pos.y, 0);
        assert!(0 <= o.pos.x && o.pos.x < GRID_WIDTH);
    }
}

#[test]
fn ticks_cull_every_offgrid_obstacle() {
    // Culling invariant: after any tick, no obstacle sits at row >= height.
    let mut g = GameState::new();
    for _ in 0..100 {
        g.tick();
        for o in g.obstacles() {
            assert!(o.pos.y < GRID_HEIGHT);
            assert!(0 <= o.pos.x && o.pos.x < GRID_WIDTH);
        }
    }
}

#[test]
fn no_spawn_never_grows_obstacles() {
    // With the spawn decision forced off, the count never increases.
    let seed = vec![
        obstacle_at(0, 0),
        obstacle_at(7, 5),
        obstacle_at(22, 12),
        obstacle_at(29, 18),
    ];
    let mut g = GameState::new_with_obstacles(seed);
    let mut last = g.obstacles().len();
    for _ in 0..30 {
        g.tick_with(None);
        let now = g.obstacles().len();
        assert!(now <= last);
        last = now;
    }
    assert_eq!(g.obstacles().len(), 0);
}

#[test]
fn score_counts_surviving_ticks_then_freezes() {
    let mut g = GameState::new_with_obstacles(Vec::new());
    for expected in 1..=3u64 {
        g.tick_with(None);
        assert_eq!(g.score(), expected);
    }
    // An obstacle advanced next to the player cell kills on the same tick,
    // so that tick and every later one leaves the score untouched.
    let mut g = GameState::new_with_obstacles(vec![obstacle_at(14, 16)]);
    g.tick_with(None);
    assert_eq!(g.player().state, PlayerState::Alive);
    assert_eq!(g.score(), 1);
    g.tick_with(None);
    assert_eq!(g.player().state, PlayerState::Dead);
    assert_eq!(g.score(), 1);
    for _ in 0..5 {
        g.tick_with(None);
        assert_eq!(g.score(), 1);
        assert_eq!(g.player().state, PlayerState::Dead);
    }
}

#[test]
fn left_edge_bounce_flips_without_extra_step() {
    let mut g = GameState::new_with_obstacles(Vec::new());
    g.set_direction(Direction::Left);
    // 16 ticks walk the player from column 15 to column -1.
    for _ in 0..16 {
        g.tick_with(None);
    }
    assert_eq!(g.player().body.pos.x, -1);
    assert_eq!(g.player().dir, Direction::Left);
    // The next tick turns the player around; the column comes back to 0 and
    // is never decremented further.
    g.tick_with(None);
    assert_eq!(g.player().dir, Direction::Right);
    assert_eq!(g.player().body.pos.x, 0);
}

#[test]
fn right_edge_bounce_flips_back() {
    let mut g = GameState::new_with_obstacles(Vec::new());
    g.set_direction(Direction::Right);
    // 15 ticks walk the player from column 15 to the grid width.
    for _ in 0..15 {
        g.tick_with(None);
    }
    assert_eq!(g.player().body.pos.x, GRID_WIDTH);
    assert_eq!(g.player().dir, Direction::Right);
    g.tick_with(None);
    assert_eq!(g.player().dir, Direction::Left);
    assert_eq!(g.player().body.pos.x, GRID_WIDTH - 1);
}

#[test]
fn fixed_obstacle_hits_exactly_on_closing_row() {
    // One obstacle at (15, 10), the player holding Still at (15, 19): the
    // run ends on the tick that brings the obstacle within one row, at row
    // 18, and on no earlier one.
    let mut g = GameState::new_with_obstacles(vec![obstacle_at(15, 10)]);
    for tick in 1..=7u64 {
        g.tick_with(None);
        assert_eq!(g.player().state, PlayerState::Alive);
        assert_eq!(g.obstacles()[0].pos.y, 10 + tick as i16);
        assert_eq!(g.score(), tick);
    }
    g.tick_with(None);
    assert_eq!(g.obstacles()[0].pos.y, 18);
    assert_eq!(g.player().state, PlayerState::Dead);
    assert_eq!(g.player().body.pos, GridPosition { x: 15, y: 19 });
    assert_eq!(g.score(), 7);
}

#[test]
fn forced_spawns_leave_one_obstacle_per_tick() {
    // Spawning forced on every tick, five ticks from an empty collection:
    // five obstacles, each spawned at row 0 and advanced once per later tick.
    let columns: [i16; 5] = [3, 7, 11, 2, 9];
    let mut g = GameState::new_with_obstacles(Vec::new());
    for &c in columns.iter() {
        g.tick_with(Some(c));
    }
    let obstacles = g.obstacles();
    assert_eq!(obstacles.len(), 5);
    for (i, o) in obstacles.iter().enumerate() {
        assert_eq!(o.pos.x, columns[i]);
        assert_eq!(o.pos.y, 4 - i as i16);
    }
}

#[test]
fn direction_change_between_ticks() {
    let mut g = GameState::new_with_obstacles(Vec::new());
    g.set_direction(Direction::Right);
    g.tick_with(None);
    assert_eq!(g.player().body.pos.x, 16);
    g.set_direction(Direction::Left);
    g.tick_with(None);
    g.tick_with(None);
    assert_eq!(g.player().body.pos.x, 14);
    g.set_direction(Direction::Still);
    g.tick_with(None);
    assert_eq!(g.player().body.pos.x, 14);
}

#[test]
fn timestep_carries_surplus() {
    let mut t = Timestep::new(TICK_MILLIS);
    assert!(!t.should_tick());
    t.accumulate(124);
    assert!(!t.should_tick());
    t.accumulate(1);
    assert!(t.should_tick());
    assert!(!t.should_tick());
    // A long frame owes several ticks, and the surplus stays credited.
    t.accumulate(300);
    assert!(t.should_tick());
    assert!(t.should_tick());
    assert!(!t.should_tick());
    t.accumulate(75);
    assert!(t.should_tick());
}
