use ttt_core::components::Player;
use ttt_core::grid::Grid;
use ttt_core::grid::Position;
use ttt_core::math::Point3;
use ttt_core::rules::Difficulty;
use ttt_core::rules::GameLogic;
use ttt_core::rules::GameState;
use ttt_core::rules::GameStateOptions;
use ttt_core::rules::MoveError;
use ttt_core::rules::game_state_extra_information;

#[test]
fn game_logic_new_game_starts_with_player_x_move() {
    let game_logic = GameLogic::new();

    assert_eq!(game_logic.state(), GameState::PlayerXMove);
    assert_eq!(game_logic.last_move_time, 0);
}

#[test]
fn game_logic_is_players_move_for_fresh_game() {
    let game_logic = GameLogic::new();

    assert!(game_logic.is_players_move(&Player::X));
    assert!(!game_logic.is_players_move(&Player::O));
}

#[test]
fn game_logic_can_move_checks_board_and_turn() {
    let game_logic = GameLogic::new();

    assert!(game_logic.can_move(Position { row: 0, column: 0 }));
    assert!(!game_logic.can_move(Position { row: 3, column: 3 }));
    assert!(!game_logic.can_move(Position { row: -1, column: 0 }));
}

#[test]
fn game_logic_board_contains_is_range_check() {
    let game_logic = GameLogic::new();

    assert!(game_logic.board_contains(Position { row: 0, column: 0 }));
    assert!(game_logic.board_contains(Position { row: 2, column: 2 }));
    assert!(!game_logic.board_contains(Position { row: 3, column: 0 }));
    assert!(!game_logic.board_contains(Position { row: 0, column: -1 }));
}

#[test]
fn game_logic_board_positions_are_row_major() {
    let game_logic = GameLogic::new();

    let positions = game_logic.board_positions();

    assert_eq!(positions.len(), 9);
    for row in 0..3 {
        for column in 0..3 {
            assert_eq!(positions[(row * 3 + column) as usize], Position { row, column });
        }
    }
}

#[test]
fn game_logic_do_move_outside_board_gives_invalid_position() {
    let mut game_logic = GameLogic::new();
    let position = Position { row: 5, column: 5 };

    let result = game_logic.do_move(position);

    assert_eq!(result, Err(MoveError::InvalidPosition(position)));
}

#[test]
fn game_logic_do_move_twice_at_same_position_gives_already_owned() {
    let mut game_logic = GameLogic::new();
    let position = Position { row: 1, column: 1 };

    let first = game_logic.do_move(position);
    let second = game_logic.do_move(position);

    assert_eq!(first, Ok(GameState::PlayerOMove));
    assert_eq!(second, Err(MoveError::PositionAlreadyOwned(position)));
}

#[test]
fn game_logic_try_apply_mark_records_move_time() {
    let mut game_logic = GameLogic::new();
    let position = Position { row: 0, column: 0 };

    let result = game_logic.try_apply_mark(Player::X, position, 42);

    let (mark, state) = result.unwrap();
    assert_eq!(mark.owner, Player::X);
    assert_eq!(mark.position, position);
    assert_eq!(state, GameState::PlayerOMove);
    assert_eq!(game_logic.last_move_time, 42);
}

#[test]
fn game_logic_try_apply_mark_rejects_wrong_turn() {
    let mut game_logic = GameLogic::new();
    let position = Position { row: 0, column: 0 };

    // It is X's turn for a fresh game, so O may not mark.
    let result = game_logic.try_apply_mark(Player::O, position, 42);

    assert!(result.is_none());
    assert_eq!(game_logic.last_move_time, 0);
}

#[test]
fn game_logic_try_apply_mark_rejects_position_outside_board() {
    let mut game_logic = GameLogic::new();

    let result = game_logic.try_apply_mark(Player::X, Position { row: 9, column: 9 }, 42);

    assert!(result.is_none());
    assert_eq!(game_logic.last_move_time, 0);
}

#[test]
fn game_logic_start_next_game_records_move_time() {
    let mut game_logic = GameLogic::new();

    game_logic.start_next_game(7);

    assert_eq!(game_logic.last_move_time, 7);
    assert!(!game_logic.state().is_game_over());
}

#[test]
fn game_state_is_game_over_only_for_end_states() {
    assert!(!GameState::PlayerXMove.is_game_over());
    assert!(!GameState::PlayerOMove.is_game_over());
    assert!(GameState::PlayerXWin(Vec::new()).is_game_over());
    assert!(GameState::PlayerOWin(Vec::new()).is_game_over());
    assert!(GameState::CatsGame.is_game_over());
}

#[test]
fn game_won_by_column_yields_vertical_winning_line() {
    // Play a full game where X takes the left column.
    let mut game_logic = GameLogic::new();
    game_logic.do_move(Position { row: 0, column: 0 }).unwrap();
    game_logic.do_move(Position { row: 0, column: 1 }).unwrap();
    game_logic.do_move(Position { row: 1, column: 0 }).unwrap();
    game_logic.do_move(Position { row: 1, column: 1 }).unwrap();
    let final_state = game_logic.do_move(Position { row: 2, column: 0 }).unwrap();

    let winning_positions = match final_state {
        GameState::PlayerXWin(positions) => positions,
        other => panic!("expected an X win, got {:?}", other),
    };

    // The winning line through the left column of a grid with its bottom
    // left corner at the origin runs up its first third.
    let grid = Grid::new(Point3::new(1500, 1500, 0), 3000);
    let line = grid.wining_line(&winning_positions).unwrap();
    assert_eq!(line.start(), Point3::new(500, 0, 0));
    assert_eq!(line.end(), Point3::new(500, 3000, 0));
}

#[test]
fn game_state_extra_information_for_multiplayer() {
    let info = game_state_extra_information(&GameStateOptions::Multiplayer);

    assert_eq!(info, vec!["Multiplayer".to_string()]);
}

#[test]
fn game_state_extra_information_for_single_player_named_difficulties() {
    let easy = game_state_extra_information(&GameStateOptions::SinglePlayer(
        Difficulty::Easy,
        Player::X,
    ));
    let medium = game_state_extra_information(&GameStateOptions::SinglePlayer(
        Difficulty::Medium,
        Player::O,
    ));
    let hard = game_state_extra_information(&GameStateOptions::SinglePlayer(
        Difficulty::Hard,
        Player::X,
    ));

    assert_eq!(easy, vec!["Single-player".to_string(), "Easy".to_string()]);
    assert_eq!(medium, vec!["Single-player".to_string(), "Medium".to_string()]);
    assert_eq!(hard, vec!["Single-player".to_string(), "Hard".to_string()]);
}

#[test]
fn game_state_extra_information_for_unnamed_difficulties() {
    let random = game_state_extra_information(&GameStateOptions::SinglePlayer(
        Difficulty::Random,
        Player::X,
    ));
    let unbeatable = game_state_extra_information(&GameStateOptions::SinglePlayer(
        Difficulty::Unbeatable,
        Player::X,
    ));

    assert_eq!(random, vec!["Single-player".to_string()]);
    assert_eq!(unbeatable, vec!["Single-player".to_string()]);
}
