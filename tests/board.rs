use game_of_life::board::{Board, CellStatus};

const A: CellStatus = CellStatus::Alive;
const D: CellStatus = CellStatus::Dead;

fn board_of(rows: &[&str]) -> Board {
    let cells: Vec<Vec<CellStatus>> = rows
        .iter()
        .map(|row| row.chars().map(|ch| if ch == '#' { A } else { D }).collect())
        .collect();
    Board::from_cells(cells).expect("rectangular grid")
}

fn all_cells_are(b: &Board, s: CellStatus) -> bool {
    b.cells().iter().all(|row| row.iter().all(|c| *c == s))
}

#[test]
fn new_board_has_requested_shape_and_is_dead() {
    let b = Board::new(7, 4);
    assert_eq!(b.width(), 7);
    assert_eq!(b.height(), 4);
    let cells = b.cells();
    assert_eq!(cells.len(), 4);
    for row in &cells {
        assert_eq!(row.len(), 7);
        assert!(row.iter().all(|c| *c == D));
    }
}

#[test]
fn new_one_by_one_board() {
    let b = Board::new(1, 1);
    assert_eq!(b.cell(0, 0), Some(D));
    assert_eq!(b.get_num_alive_neighbors(0, 0), 0);
}

#[test]
fn cell_outside_board_is_none() {
    let b = Board::new(3, 2);
    assert_eq!(b.cell(2, 0), None);
    assert_eq!(b.cell(0, 3), None);
    assert_eq!(b.cell(1, 2), Some(D));
}

#[test]
fn neighbor_count_full_board_center_is_eight() {
    let mut b = Board::new(3, 3);
    b.randomize(100);
    assert_eq!(b.get_num_alive_neighbors(1, 1), 8);
}

#[test]
fn neighbor_count_corner_and_edge_clip() {
    let mut b = Board::new(4, 4);
    b.randomize(100);
    assert_eq!(b.get_num_alive_neighbors(0, 0), 3);
    assert_eq!(b.get_num_alive_neighbors(3, 3), 3);
    assert_eq!(b.get_num_alive_neighbors(0, 3), 3);
    assert_eq!(b.get_num_alive_neighbors(0, 1), 5);
    assert_eq!(b.get_num_alive_neighbors(2, 0), 5);
    assert_eq!(b.get_num_alive_neighbors(1, 2), 8);
}

#[test]
fn neighbor_count_excludes_the_cell_itself() {
    let b = board_of(&["...", ".#.", "..."]);
    assert_eq!(b.get_num_alive_neighbors(1, 1), 0);
    assert_eq!(b.get_num_alive_neighbors(0, 0), 1);
    assert_eq!(b.get_num_alive_neighbors(2, 1), 1);
}

#[test]
fn neighbor_count_outside_positions() {
    let b = board_of(&["#.", ".."]);
    assert_eq!(b.get_num_alive_neighbors(-1, -1), 1);
    assert_eq!(b.get_num_alive_neighbors(5, 5), 0);
}

#[test]
fn neighbor_count_mixed_pattern() {
    let b = board_of(&["#.#", ".##", "#.."]);
    assert_eq!(b.get_num_alive_neighbors(1, 1), 4);
    assert_eq!(b.get_num_alive_neighbors(0, 1), 4);
    assert_eq!(b.get_num_alive_neighbors(2, 2), 2);
}

#[test]
fn live_cell_with_two_or_three_neighbors_survives() {
    // center has 2 neighbors
    let mut b = board_of(&["#..", ".#.", "..#"]);
    b.run_turn();
    assert_eq!(b.cell(1, 1), Some(A));
    // center has 3 neighbors
    let mut b = board_of(&["#.#", ".#.", "..#"]);
    b.run_turn();
    assert_eq!(b.cell(1, 1), Some(A));
}

#[test]
fn live_cell_with_other_counts_dies() {
    // 0 neighbors
    let mut b = board_of(&["...", ".#.", "..."]);
    b.run_turn();
    assert_eq!(b.cell(1, 1), Some(D));
    // 1 neighbor
    let mut b = board_of(&["#..", ".#.", "..."]);
    b.run_turn();
    assert_eq!(b.cell(1, 1), Some(D));
    // 4 neighbors
    let mut b = board_of(&["#.#", ".#.", "#.#"]);
    b.run_turn();
    assert_eq!(b.cell(1, 1), Some(D));
    // 8 neighbors
    let mut b = Board::new(3, 3);
    b.randomize(100);
    b.run_turn();
    assert_eq!(b.cell(1, 1), Some(D));
}

#[test]
fn dead_cell_with_three_neighbors_is_born() {
    let mut b = board_of(&["#.#", "...", "..#"]);
    b.run_turn();
    assert_eq!(b.cell(1, 1), Some(A));
}

#[test]
fn dead_cell_with_other_counts_stays_dead() {
    for rows in [
        ["...", "...", "..."],
        ["#..", "...", "..."],
        ["#.#", "...", "..."],
        ["#.#", "...", "#.#"],
    ] {
        let mut b = board_of(&rows);
        b.run_turn();
        assert_eq!(b.cell(1, 1), Some(D));
    }
}

#[test]
fn corner_cells_follow_the_rule_without_wrapping() {
    // a 2x2 block is stable; cells on the far side do not see it
    let mut b = board_of(&["##...", "##...", ".....", "....."]);
    b.run_turn();
    assert_eq!(b.cells(), board_of(&["##...", "##...", ".....", "....."]).cells());
}

#[test]
fn advance_from_same_saved_grid_is_identical() {
    let mut b = Board::new(20, 15);
    b.randomize(40);
    let saved = b.cells();
    let mut first = Board::from_cells(saved.clone()).unwrap();
    let mut second = Board::from_cells(saved).unwrap();
    first.run_turn();
    second.run_turn();
    assert_eq!(first.cells(), second.cells());
    first.run_turn();
    second.run_turn();
    assert_eq!(first.cells(), second.cells());
}

#[test]
fn dead_board_stays_dead() {
    let mut b = Board::new(9, 6);
    for _ in 0..10 {
        b.run_turn();
        assert!(all_cells_are(&b, D));
    }
}

#[test]
fn blinker_oscillates_with_period_two() {
    let horizontal = board_of(&[".....", ".....", ".###.", ".....", "....."]);
    let vertical = board_of(&[".....", "..#..", "..#..", "..#..", "....."]);
    let mut b = board_of(&[".....", ".....", ".###.", ".....", "....."]);
    b.run_turn();
    assert_eq!(b.cells(), vertical.cells());
    b.run_turn();
    assert_eq!(b.cells(), horizontal.cells());
}

#[test]
fn blinker_at_minimal_margin() {
    let mut b = board_of(&["...", "###", "..."]);
    b.run_turn();
    assert_eq!(b.cells(), board_of(&[".#.", ".#.", ".#."]).cells());
    b.run_turn();
    assert_eq!(b.cells(), board_of(&["...", "###", "..."]).cells());
}

#[test]
fn blinker_on_edge_does_not_oscillate() {
    let mut b = board_of(&["###", "...", "..."]);
    b.run_turn();
    assert_eq!(b.cells(), board_of(&[".#.", ".#.", "..."]).cells());
}

#[test]
fn randomize_zero_is_all_dead() {
    let mut b = Board::new(30, 30);
    b.randomize(100);
    b.randomize(0);
    assert!(all_cells_are(&b, D));
    assert_eq!(b.width(), 30);
    assert_eq!(b.height(), 30);
}

#[test]
fn randomize_hundred_is_all_alive() {
    let mut b = Board::new(30, 20);
    b.randomize(100);
    assert!(all_cells_are(&b, A));
    assert_eq!(b.width(), 30);
    assert_eq!(b.height(), 20);
}

#[test]
fn randomize_half_is_roughly_half_alive() {
    let mut b = Board::new(200, 100);
    b.randomize(50);
    let alive = b.cells().iter().flatten().filter(|c| **c == A).count();
    let fraction = alive as f64 / 20000.0;
    assert!(fraction > 0.45 && fraction < 0.55, "fraction {}", fraction);
}

#[test]
fn from_draw_threshold_is_inclusive() {
    assert_eq!(CellStatus::from_draw(40, 40), A);
    assert_eq!(CellStatus::from_draw(41, 40), D);
    assert_eq!(CellStatus::from_draw(1, 0), D);
    assert_eq!(CellStatus::from_draw(100, 100), A);
}

#[test]
fn symbols() {
    assert_eq!(A.symbol(), '#');
    assert_eq!(D.symbol(), ' ');
}

#[test]
fn from_cells_rejects_bad_shapes() {
    assert!(Board::from_cells(vec![]).is_none());
    assert!(Board::from_cells(vec![vec![]]).is_none());
    assert!(Board::from_cells(vec![vec![A, D], vec![D]]).is_none());
    let b = Board::from_cells(vec![vec![A, D, D], vec![D, D, A]]).unwrap();
    assert_eq!(b.width(), 3);
    assert_eq!(b.height(), 2);
    assert_eq!(b.cell(1, 2), Some(A));
}
