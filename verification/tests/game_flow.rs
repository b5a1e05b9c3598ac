use connect_four::game::{ControlState, Game, GameMode, Outcome};
use connect_four::grid::{Case, GridError, Player};

#[test]
fn new_game_starts_with_red_on_default_board() {
    let game = Game::new(GameMode::HumanVsHuman);
    assert_eq!(game.get_current_player(), Player::RED);
    assert_eq!(game.get_gamemode(), GameMode::HumanVsHuman);
    let size = game.get_grid().get_size();
    assert_eq!(size.rows, 6);
    assert_eq!(size.columns, 7);
    assert_eq!(game.get_grid().find_4_aligned(), None);
}

#[test]
fn game_mode_is_kept() {
    let game = Game::new(GameMode::HumanVsAI);
    assert_eq!(game.get_gamemode(), GameMode::HumanVsAI);
}

#[test]
fn accepted_move_passes_the_turn_to_the_opponent() {
    let mut game = Game::new(GameMode::HumanVsHuman);
    let state = game.step(4);
    assert_eq!(state, ControlState::AwaitingMove(Player::YELLOW));
    assert_eq!(game.get_current_player(), Player::YELLOW);
    assert_eq!(game.get_grid().get_case(4, 1), Case::RED);
    let state = game.step(4);
    assert_eq!(state, ControlState::AwaitingMove(Player::RED));
    assert_eq!(game.get_grid().get_case(4, 2), Case::YELLOW);
}

#[test]
fn rejected_move_keeps_the_same_side_to_retry() {
    let mut game = Game::new(GameMode::HumanVsHuman);
    // Fill column 2 completely: six accepted moves.
    for _ in 0..6 {
        game.step(2);
    }
    let mover = game.get_current_player();
    let state = game.step(2);
    assert_eq!(state, ControlState::MoveRejected(mover, GridError::ColumnFull));
    assert_eq!(game.get_current_player(), mover);
    // The rejected attempt changed no cell.
    for column in game.get_grid().columns_i() {
        for row in game.get_grid().rows_j() {
            let expected = if column == 2 {
                if row % 2 == 1 { Case::RED } else { Case::YELLOW }
            } else {
                Case::EMPTY
            };
            assert_eq!(game.get_grid().get_case(column, row), expected);
        }
    }
    // The same side may retry elsewhere and the game goes on.
    let state = game.step(3);
    assert_eq!(state, ControlState::AwaitingMove(mover.opponent()));
}

#[test]
fn vertical_four_finishes_the_game_with_a_winner() {
    let mut game = Game::new(GameMode::HumanVsHuman);
    // Red stacks column 1, yellow answers in column 7.
    for _ in 0..3 {
        assert_eq!(game.step(1), ControlState::AwaitingMove(Player::YELLOW));
        assert_eq!(game.step(7), ControlState::AwaitingMove(Player::RED));
    }
    let state = game.step(1);
    assert_eq!(state, ControlState::Finished(Outcome::Winner(Player::RED)));
}

#[test]
fn filling_the_board_without_a_line_finishes_in_a_draw() {
    // Column stacks, bottom-up, of a full board with no four in a row.
    let stacks = ["YYRYYR", "YYYRRY", "RRRYYR", "YYRRRY", "RRYRYY", "RRYRYR", "RYRYRY"];
    let mut game = Game::new(GameMode::HumanVsHuman);
    // Walk the stacks row by row, always placing a piece of the color the
    // target board wants; `step` tracks whose turn it is, so pick the next
    // placement whose color matches the side to move.
    let mut heights = [0usize; 7];
    let mut placed: usize = 0;
    while placed < 42 {
        let side = game.get_current_player();
        let want = if side == Player::RED { 'R' } else { 'Y' };
        let mut advanced = false;
        for column in 1..=7 {
            let h = heights[column - 1];
            if h < 6 && stacks[column - 1].as_bytes()[h] as char == want {
                let state = game.step(column);
                placed += 1;
                heights[column - 1] += 1;
                if placed == 42 {
                    assert_eq!(state, ControlState::Finished(Outcome::Draw));
                } else {
                    assert_eq!(state, ControlState::AwaitingMove(side.opponent()));
                }
                advanced = true;
                break;
            }
        }
        assert!(advanced, "no column offers the color whose turn it is");
    }
    assert!(game.get_grid().is_full());
    assert_eq!(game.get_grid().find_4_aligned(), None);
}
