use tetris::bag::shuffled_bag;
use tetris::game::{Board, PieceLayer, HEIGHT, WIDTH};
use tetris::tetromino::{rotation_cells, Tetromino, TetrominoType};

fn all_shapes() -> Vec<TetrominoType> {
    vec![
        TetrominoType::I,
        TetrominoType::O,
        TetrominoType::T,
        TetrominoType::S,
        TetrominoType::Z,
        TetrominoType::J,
        TetrominoType::L,
    ]
}

fn bag_starting_with(first: TetrominoType) -> Vec<TetrominoType> {
    let mut bag = vec![first];
    for s in all_shapes() {
        if s != first {
            bag.push(s);
        }
    }
    bag
}

fn empty_grid() -> [[bool; WIDTH]; HEIGHT] {
    [[false; WIDTH]; HEIGHT]
}

fn count(shapes: &[TetrominoType], shape: TetrominoType) -> usize {
    shapes.iter().filter(|s| **s == shape).count()
}

fn active(board: &Board) -> Tetromino {
    board.get_tetromino().expect("a falling piece")
}

fn assert_ghost_rests(board: &Board) {
    let ghost = board.get_ghost_tetromino().expect("a ghost piece");
    let piece = active(board);
    assert_eq!(ghost.shape, piece.shape);
    assert_eq!(ghost.rotation, piece.rotation);
    assert_eq!(ghost.position[0], piece.position[0]);
    assert!(!board.is_collision(&ghost));
    let mut below = ghost;
    below.move_down();
    assert!(board.is_collision(&below));
}

#[test]
fn shuffled_bag_holds_each_shape_once() {
    for _ in 0..20 {
        let bag = shuffled_bag();
        assert_eq!(bag.len(), 7);
        for s in all_shapes() {
            assert_eq!(count(&bag, s), 1);
        }
    }
}

#[test]
fn shuffled_bag_order_varies() {
    let catalogue = all_shapes();
    let mut differs = false;
    for _ in 0..200 {
        if shuffled_bag() != catalogue {
            differs = true;
        }
    }
    assert!(differs);
}

#[test]
fn new_board_is_fresh() {
    let board = Board::new();
    assert_eq!(board.get_score(), 0);
    assert!(!board.get_game_over());
    for y in 0..HEIGHT {
        for x in 0..WIDTH {
            assert!(!board.is_filled(x, y));
        }
    }
    let piece = active(&board);
    assert_eq!(piece.position, [3, 0]);
    assert_eq!(piece.rotation, 0);
    assert_ne!(board.get_next_tetromino(), piece.shape);
    assert_ghost_rests(&board);
}

#[test]
fn first_seven_spawns_follow_the_bag() {
    let bag = vec![
        TetrominoType::J,
        TetrominoType::L,
        TetrominoType::S,
        TetrominoType::Z,
        TetrominoType::I,
        TetrominoType::O,
        TetrominoType::T,
    ];
    let mut board = Board::from_bag(empty_grid(), bag.clone());
    let mut seen = vec![active(&board).shape];
    for _ in 0..6 {
        assert_eq!(board.get_next_tetromino(), bag[seen.len()]);
        board.spawn_tetromino();
        seen.push(active(&board).shape);
    }
    assert_eq!(seen, bag);
}

#[test]
fn spawns_are_fair_over_whole_bags() {
    let mut board = Board::from_bag(empty_grid(), bag_starting_with(TetrominoType::Z));
    let mut seen = vec![active(&board).shape];
    for _ in 0..27 {
        board.spawn_tetromino();
        seen.push(active(&board).shape);
    }
    for run in seen.chunks(7) {
        for s in all_shapes() {
            assert_eq!(count(run, s), 1);
        }
    }
    for s in all_shapes() {
        assert_eq!(count(&seen, s), 4);
    }
}

#[test]
fn spawns_of_a_new_board_are_fair() {
    let mut board = Board::new();
    let mut seen = vec![active(&board).shape];
    for _ in 0..13 {
        board.spawn_tetromino();
        seen.push(active(&board).shape);
    }
    for s in all_shapes() {
        assert_eq!(count(&seen, s), 2);
    }
}

#[test]
fn collision_at_the_borders_and_on_filled_cells() {
    let mut grid = empty_grid();
    grid[10][5] = true;
    let board = Board::from_bag(grid, bag_starting_with(TetrominoType::O));
    let mut t = Tetromino::new(TetrominoType::O);
    assert!(!board.is_collision(&t));
    t.position = [-1, 0];
    assert!(board.is_collision(&t));
    t.position = [0, 0];
    assert!(!board.is_collision(&t));
    t.position = [8, 0];
    assert!(!board.is_collision(&t));
    t.position = [9, 0];
    assert!(board.is_collision(&t));
    t.position = [3, -1];
    assert!(board.is_collision(&t));
    t.position = [3, 18];
    assert!(!board.is_collision(&t));
    t.position = [3, 19];
    assert!(board.is_collision(&t));
    t.position = [4, 9];
    assert!(board.is_collision(&t));
    t.position = [5, 10];
    assert!(board.is_collision(&t));
    t.position = [6, 10];
    assert!(!board.is_collision(&t));
    t.position = [i32::MAX, i32::MIN];
    assert!(board.is_collision(&t));
}

#[test]
fn rejected_left_move_keeps_the_piece() {
    let mut board = Board::from_bag(empty_grid(), bag_starting_with(TetrominoType::O));
    for expected_x in [2, 1, 0] {
        board.move_tetromino_left();
        assert_eq!(active(&board).position, [expected_x, 0]);
    }
    let before = active(&board);
    board.move_tetromino_left();
    assert_eq!(active(&board), before);
    assert_ghost_rests(&board);
}

#[test]
fn right_and_down_moves_stop_at_the_border() {
    let mut board = Board::from_bag(empty_grid(), bag_starting_with(TetrominoType::I));
    for _ in 0..10 {
        board.move_tetromino_right();
    }
    assert_eq!(active(&board).position, [6, 0]);
    for _ in 0..30 {
        board.move_tetromino_down();
    }
    assert_eq!(active(&board).position, [6, 18]);
    assert_ghost_rests(&board);
}

#[test]
fn move_blocked_by_a_filled_cell() {
    let mut grid = empty_grid();
    grid[0][2] = true;
    let mut board = Board::from_bag(grid, bag_starting_with(TetrominoType::O));
    board.move_tetromino_left();
    assert_eq!(active(&board).position, [3, 0]);
    board.move_tetromino_right();
    assert_eq!(active(&board).position, [4, 0]);
}

#[test]
fn rotation_in_place_when_free() {
    let mut board = Board::from_bag(empty_grid(), bag_starting_with(TetrominoType::I));
    board.rotate_tetromino();
    let piece = active(&board);
    assert_eq!(piece.position, [3, 0]);
    assert_eq!(piece.rotation, 1);
    assert_eq!(piece.cells, rotation_cells(TetrominoType::I, 1));
    assert_ghost_rests(&board);
}

#[test]
fn rotation_kicks_left_before_right() {
    let mut grid = empty_grid();
    grid[2][5] = true;
    let mut board = Board::from_bag(grid, bag_starting_with(TetrominoType::I));
    board.rotate_tetromino();
    let piece = active(&board);
    assert_eq!(piece.position, [2, 0]);
    assert_eq!(piece.rotation, 1);
    assert_ghost_rests(&board);
}

#[test]
fn rotation_kicks_right_when_left_is_blocked() {
    let mut grid = empty_grid();
    grid[2][5] = true;
    grid[0][4] = true;
    let mut board = Board::from_bag(grid, bag_starting_with(TetrominoType::I));
    board.rotate_tetromino();
    let piece = active(&board);
    assert_eq!(piece.position, [4, 0]);
    assert_eq!(piece.rotation, 1);
}

#[test]
fn rotation_cancelled_when_every_kick_collides() {
    let mut grid = empty_grid();
    grid[2][5] = true;
    grid[0][4] = true;
    grid[3][6] = true;
    let mut board = Board::from_bag(grid, bag_starting_with(TetrominoType::I));
    let before = active(&board);
    board.rotate_tetromino();
    assert_eq!(active(&board), before);
}

#[test]
fn clearing_rows_two_five_seven() {
    let mut grid = empty_grid();
    for y in 0..HEIGHT {
        if y == 2 || y == 5 || y == 7 {
            grid[y] = [true; WIDTH];
        } else {
            grid[y][y % WIDTH] = true;
            grid[y][(y + 3) % WIDTH] = true;
        }
    }
    let kept: Vec<[bool; WIDTH]> = (0..HEIGHT)
        .filter(|y| *y != 2 && *y != 5 && *y != 7)
        .map(|y| grid[y])
        .collect();
    let mut board = Board::from_bag(grid, bag_starting_with(TetrominoType::O));
    board.clear_full_lines();
    assert_eq!(board.get_score(), 300);
    for y in 0..3 {
        for x in 0..WIDTH {
            assert!(!board.is_filled(x, y));
        }
    }
    for (i, row) in kept.iter().enumerate() {
        for x in 0..WIDTH {
            assert_eq!(board.is_filled(x, 3 + i), row[x]);
        }
    }
}

#[test]
fn clearing_without_full_rows_changes_nothing() {
    let mut grid = empty_grid();
    grid[19] = [true; WIDTH];
    grid[19][9] = false;
    grid[4][4] = true;
    let mut board = Board::from_bag(grid, bag_starting_with(TetrominoType::T));
    board.clear_full_lines();
    assert_eq!(board.get_score(), 0);
    for y in 0..HEIGHT {
        for x in 0..WIDTH {
            assert_eq!(board.is_filled(x, y), grid[y][x]);
        }
    }
}

#[test]
fn clearing_a_full_grid_scores_every_row() {
    let grid = [[true; WIDTH]; HEIGHT];
    let mut board = Board::from_bag(grid, bag_starting_with(TetrominoType::T));
    board.clear_full_lines();
    assert_eq!(board.get_score(), 2000);
    for y in 0..HEIGHT {
        for x in 0..WIDTH {
            assert!(!board.is_filled(x, y));
        }
    }
}

#[test]
fn square_drops_and_locks_at_the_bottom() {
    let mut board = Board::from_bag(empty_grid(), bag_starting_with(TetrominoType::O));
    assert_eq!(active(&board).shape, TetrominoType::O);
    assert_eq!(active(&board).position, [3, 0]);
    for step in 1..=18 {
        board.move_tetromino_down();
        assert_eq!(active(&board).position, [3, step]);
    }
    board.update();
    for (x, y) in [(3, 18), (4, 18), (3, 19), (4, 19)] {
        assert!(board.is_filled(x, y));
    }
    assert!(!board.is_filled(5, 19));
    assert_eq!(board.get_score(), 0);
    assert!(!board.get_game_over());
    let next = active(&board);
    assert_eq!(next.shape, TetrominoType::I);
    assert_eq!(next.position, [3, 0]);
    assert_ghost_rests(&board);
}

#[test]
fn update_moves_the_piece_down_one_row() {
    let mut board = Board::from_bag(empty_grid(), bag_starting_with(TetrominoType::S));
    board.update();
    assert_eq!(active(&board).position, [3, 1]);
    board.update();
    assert_eq!(active(&board).position, [3, 2]);
    assert_ghost_rests(&board);
}

#[test]
fn locking_completes_and_clears_a_row() {
    let mut grid = empty_grid();
    for x in [0, 1, 2, 7, 8, 9] {
        grid[19][x] = true;
    }
    grid[18][0] = true;
    let mut board = Board::from_bag(grid, bag_starting_with(TetrominoType::I));
    for _ in 0..18 {
        board.move_tetromino_down();
    }
    assert_eq!(active(&board).position, [3, 18]);
    board.update();
    assert_eq!(board.get_score(), 100);
    assert!(board.is_filled(0, 19));
    for x in 1..WIDTH {
        assert!(!board.is_filled(x, 19));
    }
    assert_eq!(active(&board).shape, TetrominoType::O);
}

#[test]
fn blocked_spawn_ends_the_game() {
    let mut grid = empty_grid();
    for y in 0..4 {
        for x in 0..WIDTH - 1 {
            grid[y][x] = true;
        }
    }
    let mut board = Board::from_bag(grid, bag_starting_with(TetrominoType::T));
    board.update();
    assert!(board.get_game_over());
    assert!(board.get_tetromino().is_none());
    let score = board.get_score();
    board.update();
    board.move_tetromino_left();
    board.rotate_tetromino();
    assert!(board.get_game_over());
    assert!(board.get_tetromino().is_none());
    assert_eq!(board.get_score(), score);
}

#[test]
fn setting_game_over_removes_the_piece() {
    let mut board = Board::new();
    board.set_game_over(true);
    assert!(board.get_game_over());
    assert!(board.get_tetromino().is_none());
    board.set_game_over(false);
    assert!(!board.get_game_over());
    assert!(board.get_tetromino().is_none());
}

#[test]
fn next_piece_preview() {
    let board = Board::from_bag(empty_grid(), bag_starting_with(TetrominoType::O));
    assert_eq!(board.get_next_tetromino(), TetrominoType::I);
    assert_eq!(board.get_next_tetromino_cells(), [[0, 1], [1, 1], [2, 1], [3, 1]]);
    for y in 0..4 {
        for x in 0..4 {
            assert_eq!(board.is_next_preview_cell(x, y), y == 1);
        }
    }
    assert!(!board.is_next_preview_cell(usize::MAX, 1));
}

#[test]
fn ghost_follows_every_move() {
    let mut grid = empty_grid();
    grid[12][4] = true;
    let mut board = Board::from_bag(grid, bag_starting_with(TetrominoType::T));
    assert_eq!(board.get_ghost_tetromino().unwrap().position, [3, 10]);
    assert_ghost_rests(&board);
    board.move_tetromino_right();
    assert_ghost_rests(&board);
    board.rotate_tetromino();
    assert_ghost_rests(&board);
    board.move_tetromino_left();
    board.move_tetromino_left();
    assert_ghost_rests(&board);
    board.move_tetromino_down();
    assert_ghost_rests(&board);
    board.update();
    assert_ghost_rests(&board);
}

#[test]
fn layers_show_piece_over_ghost() {
    let board = Board::from_bag(empty_grid(), bag_starting_with(TetrominoType::O));
    assert_eq!(board.layer_at(3, 0), PieceLayer::Active);
    assert_eq!(board.layer_at(4, 1), PieceLayer::Active);
    assert_eq!(board.layer_at(3, 18), PieceLayer::Shadow);
    assert_eq!(board.layer_at(4, 19), PieceLayer::Shadow);
    assert_eq!(board.layer_at(5, 19), PieceLayer::Empty);
    assert_eq!(board.layer_at(0, 0), PieceLayer::Empty);
}
