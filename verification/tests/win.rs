use connect_four::grid::{Grid, Player, Size};

/// Fill whole columns bottom-up from character stacks, `'R'`/`'Y'` per row.
fn board_from_stacks(rows: usize, stacks: &[&str]) -> Grid {
    let mut grid = Grid::new(Size { rows, columns: stacks.len() });
    for (i, stack) in stacks.iter().enumerate() {
        for ch in stack.chars() {
            let side = if ch == 'R' { Player::RED } else { Player::YELLOW };
            grid = grid.play(i + 1, side).unwrap();
        }
    }
    grid
}

#[test]
fn empty_board_has_no_winner() {
    let grid = Grid::new_default();
    assert_eq!(grid.find_4_aligned(), None);
}

#[test]
fn three_in_a_row_is_not_a_win() {
    // Three vertically, three horizontally, three diagonally: still no win.
    let vertical = board_from_stacks(6, &["RRR", "", "", "", "", "", ""]);
    assert_eq!(vertical.find_4_aligned(), None);
    let horizontal = board_from_stacks(6, &["R", "R", "R", "", "", "", ""]);
    assert_eq!(horizontal.find_4_aligned(), None);
    let diagonal = board_from_stacks(6, &["R", "YR", "YYR", "", "", "", ""]);
    assert_eq!(diagonal.find_4_aligned(), None);
}

#[test]
fn four_in_a_column_wins() {
    // Red at column 1, rows 1 through 4.
    let mut grid = Grid::new_default();
    for _ in 0..4 {
        grid = grid.play(1, Player::RED).unwrap();
    }
    assert_eq!(grid.find_4_aligned(), Some(Player::RED));
}

#[test]
fn four_in_a_row_wins() {
    let grid = board_from_stacks(6, &["Y", "Y", "Y", "Y", "", "", ""]);
    assert_eq!(grid.find_4_aligned(), Some(Player::YELLOW));
}

#[test]
fn ascending_diagonal_wins() {
    // Red occupies (1,1), (2,2), (3,3), (4,4) on yellow supports.
    let grid = board_from_stacks(6, &["R", "YR", "YYR", "YYYR", "", "", ""]);
    assert_eq!(grid.find_4_aligned(), Some(Player::RED));
}

#[test]
fn descending_diagonal_wins() {
    // Yellow occupies (1,4), (2,3), (3,2), (4,1): the opposite diagonal.
    let grid = board_from_stacks(6, &["RRRY", "RRY", "RY", "Y", "", "", ""]);
    assert_eq!(grid.find_4_aligned(), Some(Player::YELLOW));
}

#[test]
fn run_off_the_edge_is_not_a_win() {
    // Three in the corner column and row: any continuation leaves the board.
    let grid = board_from_stacks(6, &["", "", "", "", "YR", "YR", "RRR"]);
    assert_eq!(grid.find_4_aligned(), None);
}

#[test]
fn full_board_without_line_is_a_draw() {
    let grid = board_from_stacks(
        6,
        &["YYYRRR", "RYRYRY", "RRRYYR", "YYYRYR", "YYRYRR", "RYRYRY", "RRYRRY"],
    );
    assert!(grid.is_full());
    assert_eq!(grid.find_4_aligned(), None);
}
