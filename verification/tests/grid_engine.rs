use torus_grid::game::{Cell, Game};

fn live_cells(game: &Game) -> Vec<(u16, u16)> {
    let mut found = Vec::new();
    for y in 0..game.height() {
        for x in 0..game.width() {
            if game.get(x, y).alive {
                found.push((x, y));
            }
        }
    }
    found
}

fn with_live(width: u16, height: u16, cells: &[(u16, u16)]) -> Game {
    let mut game = Game::new(width, height);
    for &(x, y) in cells {
        game.toggle(x, y);
    }
    game
}

#[test]
fn new_grid_has_its_size_and_no_live_cell() {
    let game = Game::new(7, 4);
    assert_eq!(game.width(), 7);
    assert_eq!(game.height(), 4);
    assert_eq!(live_cells(&game), vec![]);
    assert_eq!(game.get(6, 3), Cell { alive: false });
}

#[test]
fn new_grid_of_the_largest_width() {
    let mut game = Game::new(65535, 1);
    assert_eq!(game.width(), 65535);
    assert_eq!(game.right(65534), 0);
    assert_eq!(game.left(0), 65534);
    game.toggle(65534, 0);
    assert!(game.get(65534, 0).alive);
    assert_eq!(game.live_neighbors(0, 0), 3);
    game.step();
    assert_eq!(live_cells(&game), vec![(0, 0), (65533, 0), (65534, 0)]);
}

#[test]
fn toggle_flips_one_cell() {
    let mut game = Game::new(3, 2);
    game.toggle(2, 1);
    assert_eq!(live_cells(&game), vec![(2, 1)]);
    game.toggle(0, 1);
    assert_eq!(live_cells(&game), vec![(0, 1), (2, 1)]);
    game.toggle(2, 1);
    assert_eq!(live_cells(&game), vec![(0, 1)]);
}

#[test]
fn cells_are_addressed_by_column_then_row() {
    let mut game = Game::new(4, 3);
    game.toggle(3, 0);
    assert!(game.get(3, 0).alive);
    assert!(!game.get(0, 1).alive);
    assert!(!game.get(0, 3 - 1).alive);
    game.toggle(1, 2);
    assert!(game.get(1, 2).alive);
    assert!(!game.get(2, 1).alive);
}

#[test]
fn toggle_twice_restores_the_cell() {
    for start_alive in [false, true] {
        let mut game = with_live(4, 3, &[(0, 0), (3, 2)]);
        if start_alive {
            game.toggle(2, 1);
        }
        let before = live_cells(&game);
        let prior = game.get(2, 1);
        game.toggle(2, 1);
        assert_eq!(game.get(2, 1).alive, !prior.alive);
        game.toggle(2, 1);
        assert_eq!(game.get(2, 1), prior);
        assert_eq!(live_cells(&game), before);
    }
}

#[test]
fn reset_kills_every_cell() {
    let mut game = with_live(5, 4, &[(0, 0), (4, 3), (2, 2), (1, 3)]);
    game.reset();
    assert_eq!(game.width(), 5);
    assert_eq!(game.height(), 4);
    for y in 0..4 {
        for x in 0..5 {
            assert_eq!(game.get(x, y).alive, false);
        }
    }
}

#[test]
fn moves_wrap_at_the_edges() {
    let game = Game::new(5, 3);
    assert_eq!(game.left(0), 4);
    assert_eq!(game.left(1), 0);
    assert_eq!(game.left(4), 3);
    assert_eq!(game.right(4), 0);
    assert_eq!(game.right(0), 1);
    assert_eq!(game.right(3), 4);
    assert_eq!(game.up(0), 2);
    assert_eq!(game.up(2), 1);
    assert_eq!(game.down(2), 0);
    assert_eq!(game.down(0), 1);
}

#[test]
fn left_and_right_are_inverses() {
    let game = Game::new(6, 2);
    for x in 0..6 {
        assert_eq!(game.right(game.left(x)), x);
        assert_eq!(game.left(game.right(x)), x);
        assert!(game.left(x) < 6);
        assert!(game.right(x) < 6);
    }
}

#[test]
fn up_and_down_are_inverses() {
    let game = Game::new(2, 7);
    for y in 0..7 {
        assert_eq!(game.down(game.up(y)), y);
        assert_eq!(game.up(game.down(y)), y);
        assert!(game.up(y) < 7);
        assert!(game.down(y) < 7);
    }
}

#[test]
fn each_direction_is_counted_once() {
    let around: [(u16, u16); 8] =
        [(1, 1), (1, 2), (1, 3), (2, 1), (2, 3), (3, 1), (3, 2), (3, 3)];
    for &(x, y) in around.iter() {
        let game = with_live(5, 5, &[(x, y)]);
        assert_eq!(game.live_neighbors(2, 2), 1);
    }
    let all = with_live(5, 5, &around);
    assert_eq!(all.live_neighbors(2, 2), 8);
    for skipped in 0..8 {
        let mut game = with_live(5, 5, &around);
        let (x, y) = around[skipped];
        game.toggle(x, y);
        assert_eq!(game.live_neighbors(2, 2), 7);
    }
}

#[test]
fn a_cell_is_not_its_own_neighbor() {
    let game = with_live(5, 5, &[(2, 2)]);
    assert_eq!(game.live_neighbors(2, 2), 0);
}

#[test]
fn cells_two_steps_away_are_not_counted() {
    let far: [(u16, u16); 16] = [
        (0, 0), (1, 0), (2, 0), (3, 0), (4, 0), (0, 1), (4, 1), (0, 2), (4, 2), (0, 3), (4, 3),
        (0, 4), (1, 4), (2, 4), (3, 4), (4, 4),
    ];
    let game = with_live(5, 5, &far);
    assert_eq!(game.live_neighbors(2, 2), 0);
}

#[test]
fn neighbors_wrap_around_the_edges() {
    let game = with_live(4, 4, &[(3, 3)]);
    assert_eq!(game.live_neighbors(0, 0), 1);
    let game = with_live(4, 4, &[(3, 0), (0, 3), (3, 1), (1, 3)]);
    assert_eq!(game.live_neighbors(0, 0), 4);
    assert_eq!(game.live_neighbors(2, 2), 2);
}

#[test]
fn narrow_grid_counts_a_cell_once_per_direction() {
    let game = with_live(2, 2, &[(0, 0)]);
    assert_eq!(game.live_neighbors(1, 0), 2);
    assert_eq!(game.live_neighbors(0, 1), 2);
    assert_eq!(game.live_neighbors(1, 1), 4);
    assert_eq!(game.live_neighbors(0, 0), 0);
}

#[test]
fn lone_center_cell_dies() {
    let mut game = Game::new(3, 3);
    game.toggle(1, 1);
    assert_eq!(game.live_neighbors(1, 1), 0);
    for &(x, y) in [(0, 0), (1, 0), (2, 0), (0, 1), (2, 1), (0, 2), (1, 2), (2, 2)].iter() {
        assert_eq!(game.live_neighbors(x, y), 1);
    }
    game.step();
    assert!(!game.get(1, 1).alive);
    assert_eq!(live_cells(&game), vec![]);
}

#[test]
fn cross_pattern_brings_the_center_to_life() {
    let mut game = with_live(3, 3, &[(1, 0), (0, 1), (2, 1), (1, 2)]);
    assert_eq!(game.live_neighbors(1, 1), 4);
    game.step();
    assert!(game.get(1, 1).alive);
}

#[test]
fn cross_pattern_on_three_by_three_wraps_onto_the_corners() {
    let mut game = with_live(3, 3, &[(1, 0), (0, 1), (2, 1), (1, 2)]);
    for &(x, y) in [(0, 0), (2, 0), (0, 2), (2, 2)].iter() {
        assert_eq!(game.live_neighbors(x, y), 4);
    }
    for &(x, y) in [(1, 0), (0, 1), (2, 1), (1, 2)].iter() {
        assert_eq!(game.live_neighbors(x, y), 3);
    }
    game.step();
    assert_eq!(live_cells(&game).len(), 9);
}

#[test]
fn cross_pattern_away_from_the_edges_leaves_the_corners_dead() {
    let mut game = with_live(5, 5, &[(2, 1), (1, 2), (3, 2), (2, 3)]);
    assert_eq!(game.live_neighbors(2, 2), 4);
    for &(x, y) in [(1, 1), (3, 1), (1, 3), (3, 3)].iter() {
        assert_eq!(game.live_neighbors(x, y), 2);
    }
    game.step();
    assert!(game.get(2, 2).alive);
    for &(x, y) in [(1, 1), (3, 1), (1, 3), (3, 3)].iter() {
        assert!(!game.get(x, y).alive);
    }
    assert_eq!(live_cells(&game), vec![(2, 1), (1, 2), (2, 2), (3, 2), (2, 3)]);
}

#[test]
fn single_cell_grid_wraps_onto_itself() {
    let mut game = Game::new(1, 1);
    assert_eq!(game.left(0), 0);
    assert_eq!(game.right(0), 0);
    assert_eq!(game.up(0), 0);
    assert_eq!(game.down(0), 0);
    game.step();
    assert!(!game.get(0, 0).alive);
    game.toggle(0, 0);
    assert_eq!(game.live_neighbors(0, 0), 8);
    game.step();
    assert!(game.get(0, 0).alive);
}

#[test]
fn two_live_neighbors_leave_a_cell_as_it_is() {
    let mut dead = with_live(5, 5, &[(1, 2), (3, 2)]);
    assert_eq!(dead.live_neighbors(2, 2), 2);
    dead.step();
    assert!(!dead.get(2, 2).alive);

    let mut alive = with_live(5, 5, &[(1, 2), (2, 2), (3, 2)]);
    assert_eq!(alive.live_neighbors(2, 2), 2);
    alive.step();
    assert!(alive.get(2, 2).alive);
}

#[test]
fn fewer_than_two_live_neighbors_starve_a_live_cell() {
    let mut one = with_live(5, 5, &[(2, 2), (3, 3)]);
    assert_eq!(one.live_neighbors(2, 2), 1);
    one.step();
    assert!(!one.get(2, 2).alive);

    let mut none = with_live(5, 5, &[(2, 2)]);
    none.step();
    assert!(!none.get(2, 2).alive);
}

#[test]
fn fewer_than_two_live_neighbors_leave_a_dead_cell_dead() {
    let mut game = with_live(5, 5, &[(3, 3)]);
    assert_eq!(game.live_neighbors(2, 2), 1);
    game.step();
    assert!(!game.get(2, 2).alive);
}

#[test]
fn more_than_two_live_neighbors_make_a_cell_live() {
    let mut three = with_live(5, 5, &[(1, 1), (2, 1), (3, 1)]);
    assert_eq!(three.live_neighbors(2, 2), 3);
    three.step();
    assert!(three.get(2, 2).alive);

    let mut crowded = with_live(
        5,
        5,
        &[(1, 1), (2, 1), (3, 1), (1, 2), (2, 2), (3, 2), (1, 3), (2, 3), (3, 3)],
    );
    assert_eq!(crowded.live_neighbors(2, 2), 8);
    crowded.step();
    assert!(crowded.get(2, 2).alive);
}

#[test]
fn step_reads_only_the_generation_before_it() {
    let mut game = with_live(5, 1, &[(1, 0), (2, 0)]);
    assert_eq!(game.live_neighbors(0, 0), 3);
    assert_eq!(game.live_neighbors(1, 0), 5);
    assert_eq!(game.live_neighbors(2, 0), 5);
    assert_eq!(game.live_neighbors(3, 0), 3);
    assert_eq!(game.live_neighbors(4, 0), 0);
    game.step();
    assert_eq!(live_cells(&game), vec![(0, 0), (1, 0), (2, 0), (3, 0)]);
}

#[test]
fn step_gives_the_same_grid_from_the_same_start() {
    let start = [(0, 0), (1, 0), (3, 2), (4, 4), (2, 2), (2, 3), (5, 1)];
    let mut first = with_live(6, 5, &start);
    let mut second = with_live(6, 5, &start);
    for _ in 0..4 {
        first.step();
        second.step();
        assert_eq!(live_cells(&first), live_cells(&second));
    }
}

#[test]
fn step_keeps_the_size() {
    let mut game = with_live(6, 5, &[(0, 0), (1, 1)]);
    game.step();
    assert_eq!(game.width(), 6);
    assert_eq!(game.height(), 5);
}
